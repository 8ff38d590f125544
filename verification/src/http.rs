//! The HTTP vocabulary of the service: status codes and replies.
use vstd::prelude::*;

use crate::text::decimal_text;

verus! {

pub const OK: u16 = 200;

pub const CREATED: u16 = 201;

pub const ACCEPTED: u16 = 202;

pub const BAD_REQUEST: u16 = 400;

pub const UNAUTHORIZED: u16 = 401;

pub const PAYMENT_REQUIRED: u16 = 402;

pub const NOT_FOUND: u16 = 404;

pub const CONFLICT: u16 = 409;

pub const UNPROCESSABLE_ENTITY: u16 = 422;

pub const INTERNAL_SERVER_ERROR: u16 = 500;

/// A status code and a JSON document.
#[derive(Debug)]
pub struct HttpReply {
    pub status: u16,
    pub body: String,
}

/// What a reply says.
pub struct ReplyView {
    pub status: u16,
    pub body: Seq<char>,
}

impl View for HttpReply {
    type V = ReplyView;

    open spec fn view(&self) -> ReplyView {
        ReplyView { status: self.status, body: self.body@ }
    }
}

/// A number that HTTP allows as a status code.
pub open spec fn is_status_code(code: int) -> bool {
    100 <= code <= 999
}

/// A status code that reports success.
pub open spec fn is_success_code(code: u16) -> bool {
    200 <= code < 300
}

/// Whether a status code reports success.
pub fn is_success(code: u16) -> (result: bool)
    ensures
        result == is_success_code(code),
{
    200 <= code && code < 300
}

/// The reason phrase that `http::StatusCode` writes behind the number.
pub uninterp spec fn reason_phrase(code: u16) -> Seq<char>;

/// Calls `http::StatusCode::from_u16`, which takes 100 to 999, and the
/// `Display` of the result: the number in decimal, a space and the reason
/// phrase of that number.
#[verifier::external_body]
pub(crate) fn status_text(code: u16) -> (result: String)
    requires
        is_status_code(code as int),
    ensures
        result@ == decimal_text(code as int) + seq![' '] + reason_phrase(code),
{
    axum::http::StatusCode::from_u16(code).unwrap().to_string()
}

}
