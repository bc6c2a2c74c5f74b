//! Server configuration: the values read from the environment, checked and
//! completed with their defaults.

use vstd::prelude::*;
use vstd::string::*;

use crate::text::{contains_str, contains_text, occurs_at, same_text, split_commas, split_on_commas, trim, trimmed};

verus! {

/// What `str::to_uppercase` returns for `s`, by Unicode's upper-case mapping.
pub uninterp spec fn uppercase(s: Seq<char>) -> Seq<char>;

/// Calls std's `str::to_uppercase`. Its result is named `uppercase`; nothing
/// more is stated of Unicode's upper-case mapping.
#[verifier::external_body]
fn to_upper(s: &str) -> (r: String)
    ensures
        r@ == uppercase(s@),
{
    s.to_uppercase()
}

pub open spec fn is_ascii_digit(c: char) -> bool {
    0x30 <= (c as u32) <= 0x39
}

/// The number that a run of decimal digits writes.
pub open spec fn digits_value(s: Seq<char>) -> int
    decreases s.len(),
{
    if s.len() == 0 {
        0
    } else {
        digits_value(s.drop_last()) * 10 + ((s.last() as u32) - 0x30)
    }
}

/// What `str::parse::<u16>` accepts: an optional `+`, then one or more
/// ASCII digits whose value is at most 65535.
pub open spec fn u16_text(s: Seq<char>) -> Option<u16> {
    let d = if s.len() > 0 && s[0] == '+' {
        s.drop_first()
    } else {
        s
    };
    if d.len() > 0 && (forall|i: int| 0 <= i < d.len() ==> is_ascii_digit(#[trigger] d[i]))
        && digits_value(d) <= 65535 {
        Some(digits_value(d) as u16)
    } else {
        None
    }
}

/// Calls std's `str::parse::<u16>` (that is, `u16::from_str`). As std
/// documents it, the text must be an optional `+` followed by one or more
/// decimal digits, with a value that fits in a `u16`; anything else,
/// white space included, is refused.
#[verifier::external_body]
fn parse_u16(s: &str) -> (r: Option<u16>)
    ensures
        r == u16_text(s@),
{
    s.parse::<u16>().ok()
}

/// A secret that may sign tokens: at least 32 characters, not holding the
/// placeholder `your-secret`, and not holding `REPLACE` once upper-cased.
pub open spec fn secret_ok_with(secret: Seq<char>, upper: Seq<char>) -> bool {
    &&& secret.len() >= 32
    &&& !contains_text(secret, "your-secret"@)
    &&& !contains_text(upper, "REPLACE"@)
}

/// Whether `secret`, whose upper-case form is `upper`, may sign tokens.
pub fn secret_acceptable(secret: &str, upper: &str) -> (b: bool)
    ensures
        b == secret_ok_with(secret@, upper@),
{
    !(secret.unicode_len() < 32 || contains_str(secret, "your-secret") || contains_str(upper, "REPLACE"))
}

/// Whether `secret` may sign tokens.
pub fn secret_is_strong(secret: &str) -> (b: bool)
    ensures
        b == secret_ok_with(secret@, uppercase(secret@)),
{
    let upper = to_upper(secret);
    secret_acceptable(secret, upper.as_str())
}

/// The environment as the server reads it: each variable that is set to
/// valid Unicode, or `None`.
#[derive(Debug, Clone, Default)]
pub struct Environment {
    pub jwt_secret: Option<String>,
    pub database_url: Option<String>,
    pub port: Option<String>,
    pub enable_legacy_public_api: Option<String>,
    pub aws_access_key_id: Option<String>,
    pub aws_secret_access_key: Option<String>,
    pub aws_region: Option<String>,
    pub aws_s3_bucket: Option<String>,
    pub email_api_key: Option<String>,
    pub email_from: Option<String>,
    pub email_to: Option<String>,
    pub cors_origin: Option<String>,
}

pub open spec fn opt_view(o: Option<String>) -> Option<Seq<char>> {
    match o {
        Some(s) => Some(s@),
        None => None,
    }
}

pub struct EnvironmentView {
    pub jwt_secret: Option<Seq<char>>,
    pub database_url: Option<Seq<char>>,
    pub port: Option<Seq<char>>,
    pub enable_legacy_public_api: Option<Seq<char>>,
    pub aws_access_key_id: Option<Seq<char>>,
    pub aws_secret_access_key: Option<Seq<char>>,
    pub aws_region: Option<Seq<char>>,
    pub aws_s3_bucket: Option<Seq<char>>,
    pub email_api_key: Option<Seq<char>>,
    pub email_from: Option<Seq<char>>,
    pub email_to: Option<Seq<char>>,
    pub cors_origin: Option<Seq<char>>,
}

impl View for Environment {
    type V = EnvironmentView;

    open spec fn view(&self) -> EnvironmentView {
        EnvironmentView {
            jwt_secret: opt_view(self.jwt_secret),
            database_url: opt_view(self.database_url),
            port: opt_view(self.port),
            enable_legacy_public_api: opt_view(self.enable_legacy_public_api),
            aws_access_key_id: opt_view(self.aws_access_key_id),
            aws_secret_access_key: opt_view(self.aws_secret_access_key),
            aws_region: opt_view(self.aws_region),
            aws_s3_bucket: opt_view(self.aws_s3_bucket),
            email_api_key: opt_view(self.email_api_key),
            email_from: opt_view(self.email_from),
            email_to: opt_view(self.email_to),
            cors_origin: opt_view(self.cors_origin),
        }
    }
}

/// The server's configuration.
#[derive(Clone)]
pub struct Config {
    pub database_url: String,
    pub port: u16,
    pub jwt_secret: String,
    pub aws_access_key_id: String,
    pub aws_secret_access_key: String,
    pub aws_region: String,
    pub aws_s3_bucket: String,
    pub email_api_key: String,
    pub email_from: String,
    pub email_to: String,
    pub cors_origin: Vec<String>,
    pub legacy_public_api: bool,
}

pub struct ConfigView {
    pub database_url: Seq<char>,
    pub port: u16,
    pub jwt_secret: Seq<char>,
    pub aws_access_key_id: Seq<char>,
    pub aws_secret_access_key: Seq<char>,
    pub aws_region: Seq<char>,
    pub aws_s3_bucket: Seq<char>,
    pub email_api_key: Seq<char>,
    pub email_from: Seq<char>,
    pub email_to: Seq<char>,
    pub cors_origin: Seq<Seq<char>>,
    pub legacy_public_api: bool,
}

impl View for Config {
    type V = ConfigView;

    open spec fn view(&self) -> ConfigView {
        ConfigView {
            database_url: self.database_url@,
            port: self.port,
            jwt_secret: self.jwt_secret@,
            aws_access_key_id: self.aws_access_key_id@,
            aws_secret_access_key: self.aws_secret_access_key@,
            aws_region: self.aws_region@,
            aws_s3_bucket: self.aws_s3_bucket@,
            email_api_key: self.email_api_key@,
            email_from: self.email_from@,
            email_to: self.email_to@,
            cors_origin: self.cors_origin@.map_values(|s: String| s@),
            legacy_public_api: self.legacy_public_api,
        }
    }
}

pub open spec fn or_default(o: Option<Seq<char>>, d: Seq<char>) -> Seq<char> {
    match o {
        Some(s) => s,
        None => d,
    }
}

/// The allowed origins written in `s`: the pieces between commas, trimmed.
pub open spec fn origins_of(s: Seq<char>) -> Seq<Seq<char>> {
    split_commas(s).map_values(|p: Seq<char>| trim(p))
}

/// The configuration the environment `e` gives, or the first complaint:
/// the signing secret must be set and strong, the database must be named,
/// and the port (3000 when unset) must be a number; the public catalog is
/// enabled only by the exact value `true`, the region defaults to
/// `us-east-1`, the allowed origins to `http://localhost:4321`, and the
/// other values to empty text.
pub open spec fn config_from(e: EnvironmentView) -> Result<ConfigView, Seq<char>> {
    if e.jwt_secret is None {
        Err("JWT_SECRET must be set"@)
    } else if !secret_ok_with(e.jwt_secret->0, uppercase(e.jwt_secret->0)) {
        Err("JWT_SECRET must be a random secret of at least 32 characters"@)
    } else if e.database_url is None {
        Err("DATABASE_URL must be set"@)
    } else if u16_text(or_default(e.port, "3000"@)) is None {
        Err("PORT must be a valid number"@)
    } else {
        Ok(
            ConfigView {
                database_url: e.database_url->0,
                port: u16_text(or_default(e.port, "3000"@))->0,
                jwt_secret: e.jwt_secret->0,
                aws_access_key_id: or_default(e.aws_access_key_id, Seq::empty()),
                aws_secret_access_key: or_default(e.aws_secret_access_key, Seq::empty()),
                aws_region: or_default(e.aws_region, "us-east-1"@),
                aws_s3_bucket: or_default(e.aws_s3_bucket, Seq::empty()),
                email_api_key: or_default(e.email_api_key, Seq::empty()),
                email_from: or_default(e.email_from, Seq::empty()),
                email_to: or_default(e.email_to, Seq::empty()),
                cors_origin: origins_of(or_default(e.cors_origin, "http://localhost:4321"@)),
                legacy_public_api: e.enable_legacy_public_api == Some("true"@),
            },
        )
    }
}

pub open spec fn config_view(r: Result<Config, String>) -> Result<ConfigView, Seq<char>> {
    match r {
        Ok(c) => Ok(c@),
        Err(m) => Err(m@),
    }
}

fn text_or(o: Option<String>, default: &str) -> (r: String)
    ensures
        r@ == or_default(opt_view(o), default@),
{
    match o {
        Some(s) => s,
        None => default.to_owned(),
    }
}

/// The allowed origins written in `s`.
pub fn parse_origins(s: &str) -> (r: Vec<String>)
    ensures
        r@.map_values(|x: String| x@) == origins_of(s@),
{
    let parts = split_on_commas(s);
    let ghost pieces = parts@.map_values(|x: String| x@);
    let mut out: Vec<String> = Vec::new();
    let mut i: usize = 0;
    while i < parts.len()
        invariant
            i <= parts@.len(),
            pieces == parts@.map_values(|x: String| x@),
            out@.map_values(|x: String| x@) == pieces.take(i as int).map_values(
                |p: Seq<char>| trim(p),
            ),
        decreases parts@.len() - i,
    {
        let t = trimmed(parts[i].as_str());
        let ghost before = out@.map_values(|x: String| x@);
        out.push(t);
        proof {
            assert(pieces[i as int] == parts@[i as int]@);
            assert(pieces.take(i + 1) =~= pieces.take(i as int).push(pieces[i as int]));
            assert(out@.map_values(|x: String| x@) =~= before.push(t@));
            assert(pieces.take(i + 1).map_values(|p: Seq<char>| trim(p)) =~= pieces.take(
                i as int,
            ).map_values(|p: Seq<char>| trim(p)).push(trim(pieces[i as int])));
        }
        i = i + 1;
    }
    assert(pieces.take(parts@.len() as int) =~= pieces);
    out
}

impl Config {
    /// Checks and completes the configuration read from the environment.
    pub fn from_environment(env: Environment) -> (r: Result<Config, String>)
        ensures
            config_view(r) == config_from(env@),
    {
        let jwt_secret = match env.jwt_secret {
            Some(s) => s,
            None => return Err("JWT_SECRET must be set".to_owned()),
        };
        if !secret_is_strong(jwt_secret.as_str()) {
            return Err("JWT_SECRET must be a random secret of at least 32 characters".to_owned());
        }
        let database_url = match env.database_url {
            Some(s) => s,
            None => return Err("DATABASE_URL must be set".to_owned()),
        };
        let port_text = text_or(env.port, "3000");
        let port = match parse_u16(port_text.as_str()) {
            Some(p) => p,
            None => return Err("PORT must be a valid number".to_owned()),
        };
        let legacy_public_api = match &env.enable_legacy_public_api {
            Some(v) => same_text(v.as_str(), "true"),
            None => false,
        };
        let cors_text = text_or(env.cors_origin, "http://localhost:4321");
        let cors_origin = parse_origins(cors_text.as_str());
        let config = Config {
            database_url,
            port,
            jwt_secret,
            aws_access_key_id: text_or(env.aws_access_key_id, ""),
            aws_secret_access_key: text_or(env.aws_secret_access_key, ""),
            aws_region: text_or(env.aws_region, "us-east-1"),
            aws_s3_bucket: text_or(env.aws_s3_bucket, ""),
            email_api_key: text_or(env.email_api_key, ""),
            email_from: text_or(env.email_from, ""),
            email_to: text_or(env.email_to, ""),
            cors_origin,
            legacy_public_api,
        };
        proof {
            reveal_strlit("");
            assert(""@ =~= Seq::<char>::empty());
        }
        Ok(config)
    }
}

/// Whatever is set is carried into the configuration unchanged: once the
/// configuration is accepted, the secret and the database are the values
/// given, each optional value that is set is the field's value, and each
/// one that is not set is empty (the region is `us-east-1`).
pub proof fn lemma_config_carries_values(e: EnvironmentView)
    requires
        config_from(e) is Ok,
    ensures
        ({
            let c = config_from(e)->Ok_0;
            &&& Some(c.jwt_secret) == e.jwt_secret
            &&& Some(c.database_url) == e.database_url
            &&& (e.aws_access_key_id is Some ==> c.aws_access_key_id == e.aws_access_key_id->0)
            &&& (e.aws_access_key_id is None ==> c.aws_access_key_id.len() == 0)
            &&& (e.aws_secret_access_key is Some ==> c.aws_secret_access_key
                == e.aws_secret_access_key->0)
            &&& (e.aws_secret_access_key is None ==> c.aws_secret_access_key.len() == 0)
            &&& (e.aws_s3_bucket is Some ==> c.aws_s3_bucket == e.aws_s3_bucket->0)
            &&& (e.aws_s3_bucket is None ==> c.aws_s3_bucket.len() == 0)
            &&& (e.email_api_key is Some ==> c.email_api_key == e.email_api_key->0)
            &&& (e.email_api_key is None ==> c.email_api_key.len() == 0)
            &&& (e.email_from is Some ==> c.email_from == e.email_from->0)
            &&& (e.email_from is None ==> c.email_from.len() == 0)
            &&& (e.email_to is Some ==> c.email_to == e.email_to->0)
            &&& (e.email_to is None ==> c.email_to.len() == 0)
            &&& (e.aws_region is Some ==> c.aws_region == e.aws_region->0)
            &&& (e.aws_region is None ==> c.aws_region == "us-east-1"@)
            &&& c.legacy_public_api == (e.enable_legacy_public_api == Some("true"@))
        }),
{
}

/// The configuration is accepted exactly when the secret is set and
/// strong, the database is named and the port (3000 when unset) is a
/// number; then the port is that number.
pub proof fn lemma_config_accepted(e: EnvironmentView)
    ensures
        config_from(e) is Ok <==> (e.jwt_secret is Some && secret_ok_with(
            e.jwt_secret->0,
            uppercase(e.jwt_secret->0),
        ) && e.database_url is Some && u16_text(or_default(e.port, "3000"@)) is Some),
        config_from(e) is Ok ==> config_from(e)->Ok_0.port == u16_text(
            or_default(e.port, "3000"@),
        )->0,
{
}

/// A secret shorter than 32 characters, or holding `your-secret`, or
/// holding `REPLACE` once upper-cased, is never accepted.
pub proof fn lemma_weak_secrets_refused(secret: Seq<char>, upper: Seq<char>, at: int)
    ensures
        secret.len() < 32 ==> !secret_ok_with(secret, upper),
        occurs_at(secret, "your-secret"@, at) ==> !secret_ok_with(secret, upper),
        occurs_at(upper, "REPLACE"@, at) ==> !secret_ok_with(secret, upper),
{
}

} // verus!
