//! Errors the pilot answers with.

use vstd::prelude::*;

verus! {

/// An error answer: a refused request (400), a conflict with the stored
/// state (409), a missing record (404) or a missing or refused credential (401).
#[derive(Debug, Clone, PartialEq, Eq)]
pub enum ApiError {
    BadRequest(String),
    Conflict(String),
    NotFound(String),
    Unauthorized,
}

/// An error answer with its message as characters.
pub enum ErrorView {
    BadRequest(Seq<char>),
    Conflict(Seq<char>),
    NotFound(Seq<char>),
    Unauthorized,
}

impl View for ApiError {
    type V = ErrorView;

    open spec fn view(&self) -> ErrorView {
        match self {
            ApiError::BadRequest(m) => ErrorView::BadRequest(m@),
            ApiError::Conflict(m) => ErrorView::Conflict(m@),
            ApiError::NotFound(m) => ErrorView::NotFound(m@),
            ApiError::Unauthorized => ErrorView::Unauthorized,
        }
    }
}

} // verus!
