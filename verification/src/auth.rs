//! Access rules: the bearer credential of a request and the first
//! operator's credentials.

use vstd::prelude::*;
use vstd::string::*;

use crate::error::ApiError;
use crate::text::{has_char, same_text};

verus! {

/// The token that an `Authorization` value carries after `Bearer `.
pub open spec fn bearer_of(h: Seq<char>) -> Option<Seq<char>> {
    if h.len() >= 7 && h.take(7) == "Bearer "@ {
        Some(h.skip(7))
    } else {
        None
    }
}

/// The token of a request, from its `Authorization` header (absent when
/// the header is missing or not visible ASCII); a request without a bearer
/// token is unauthorized.
pub fn bearer_token(header: Option<&str>) -> (r: Result<String, ApiError>)
    ensures
        r is Ok <==> (header is Some && bearer_of(header->0@) is Some),
        r matches Ok(t) ==> t@ == bearer_of(header->0@)->0,
        r matches Err(e) ==> e == ApiError::Unauthorized,
{
    match header {
        None => Err(ApiError::Unauthorized),
        Some(h) => {
            let n = h.unicode_len();
            if n < 7 {
                return Err(ApiError::Unauthorized);
            }
            if !same_text(h.substring_char(0, 7), "Bearer ") {
                return Err(ApiError::Unauthorized);
            }
            Ok(h.substring_char(7, n).to_owned())
        },
    }
}

/// Credentials that may create the first operator: an email with `@` and a
/// password of at least 16 characters.
pub open spec fn bootstrap_ok(email: Seq<char>, password: Seq<char>) -> bool {
    email.contains('@') && password.len() >= 16
}

/// Whether the given credentials may create the first operator.
pub fn bootstrap_credentials_ok(email: &str, password: &str) -> (b: bool)
    ensures
        b == bootstrap_ok(email@, password@),
{
    has_char(email, '@') && password.unicode_len() >= 16
}

/// A header `Bearer ` followed by a token carries exactly that token, and
/// a header that does not start with `Bearer ` carries none.
pub proof fn lemma_bearer(token: Seq<char>, h: Seq<char>)
    ensures
        bearer_of("Bearer "@ + token) == Some(token),
        !(h.len() >= 7 && h.take(7) == "Bearer "@) ==> bearer_of(h) is None,
{
    reveal_strlit("Bearer ");
    assert(("Bearer "@ + token).take(7) =~= "Bearer "@);
    assert(("Bearer "@ + token).skip(7) =~= token);
}

/// An email without `@`, or a password shorter than 16 characters, never
/// creates the first operator; any other pair does.
pub proof fn lemma_bootstrap(email: Seq<char>, password: Seq<char>)
    ensures
        !email.contains('@') ==> !bootstrap_ok(email, password),
        password.len() < 16 ==> !bootstrap_ok(email, password),
        email.contains('@') && password.len() >= 16 ==> bootstrap_ok(email, password),
{
}

} // verus!
