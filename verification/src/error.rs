//! What a request is refused with.
use vstd::prelude::*;

use crate::text::concat;

verus! {

pub const OK: u16 = 200;
pub const PARTIAL_CONTENT: u16 = 206;
pub const BAD_REQUEST: u16 = 400;
pub const UNAUTHORIZED: u16 = 401;
pub const FORBIDDEN: u16 = 403;
pub const NOT_FOUND: u16 = 404;
pub const CONFLICT: u16 = 409;
pub const RANGE_NOT_SATISFIABLE: u16 = 416;
pub const INTERNAL_SERVER_ERROR: u16 = 500;

/// A refusal: the HTTP status and the message for the user.
#[derive(Debug, PartialEq, Eq)]
pub struct AppError {
    pub status: u16,
    pub message: String,
}

/// A refusal as a mathematical value.
pub struct Refusal {
    pub status: u16,
    pub message: Seq<char>,
}

impl DeepView for AppError {
    type V = Refusal;

    open spec fn deep_view(&self) -> Refusal {
        Refusal { status: self.status, message: self.message@ }
    }
}

/// A refusal with the status `status` and the message `message`.
pub open spec fn refusal(status: u16, message: Seq<char>) -> Refusal {
    Refusal { status, message }
}

/// A failure of the storage: what was tried, and what came back.
pub open spec fn failure(tried: Seq<char>, detail: Seq<char>) -> Refusal {
    Refusal { status: INTERNAL_SERVER_ERROR, message: tried + detail }
}

impl AppError {
    pub fn new(status: u16, message: &str) -> (r: AppError)
        ensures
            r.deep_view() == refusal(status, message@),
    {
        AppError { status, message: message.to_owned() }
    }

    /// A failure of the storage: what was tried, and what came back.
    pub fn failed(tried: &str, detail: &str) -> (r: AppError)
        ensures
            r.deep_view() == failure(tried@, detail@),
    {
        AppError { status: INTERNAL_SERVER_ERROR, message: concat(tried, detail) }
    }
}

} // verus!
