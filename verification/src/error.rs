//! The errors of the API, and how they are answered.
use vstd::prelude::*;
use vstd::string::*;

use crate::http::{HttpReply, ReplyView, INTERNAL_SERVER_ERROR};
use crate::ids::{is_v4, uuid_text, Uuid};
use crate::text::{json_string, quote};

verus! {

/// An error of the API. `Database` and `Internal` hold a text for the log, which
/// no client sees.
#[derive(Debug)]
pub enum ApiError {
    Client { status: u16, code: &'static str, message: String },
    Database(String),
    Internal(String),
}

/// What an error says.
pub enum ErrorView {
    Client { status: u16, code: Seq<char>, message: Seq<char> },
    Database(Seq<char>),
    Internal(Seq<char>),
}

impl View for ApiError {
    type V = ErrorView;

    open spec fn view(&self) -> ErrorView {
        match *self {
            ApiError::Client { status, code, message } => ErrorView::Client {
                status,
                code: code@,
                message: message@,
            },
            ApiError::Database(detail) => ErrorView::Database(detail@),
            ApiError::Internal(detail) => ErrorView::Internal(detail@),
        }
    }
}

/// The error that a client is told about with a status, a code and a message.
pub open spec fn client_error(status: u16, code: Seq<char>, message: Seq<char>) -> ErrorView {
    ErrorView::Client { status, code, message }
}

/// The body of every error reply.
pub open spec fn error_body(code: Seq<char>, message: Seq<char>, request_id: Uuid) -> Seq<char> {
    "{\"error\":{\"code\":"@ + json_string(code) + ",\"message\":"@ + json_string(message)
        + ",\"request_id\":"@ + json_string(uuid_text(request_id)) + "}}"@
}

/// How an error is answered: a client error as it is, the others without their
/// detail.
pub open spec fn error_reply(error: ErrorView, request_id: Uuid) -> ReplyView {
    match error {
        ErrorView::Client { status, code, message } => ReplyView {
            status,
            body: error_body(code, message, request_id),
        },
        ErrorView::Database(_) => ReplyView {
            status: INTERNAL_SERVER_ERROR,
            body: error_body("internal_error"@, "database failure"@, request_id),
        },
        ErrorView::Internal(_) => ReplyView {
            status: INTERNAL_SERVER_ERROR,
            body: error_body("internal_error"@, "internal failure"@, request_id),
        },
    }
}

/// The one-line form of an error.
pub open spec fn error_line(error: ErrorView) -> Seq<char> {
    match error {
        ErrorView::Client { status, code, message } => code + ": "@ + message,
        ErrorView::Database(_) => "database error"@,
        ErrorView::Internal(_) => "internal error"@,
    }
}

fn write_error_body(code: &str, message: &str, request_id: Uuid) -> (result: String)
    ensures
        result@ == error_body(code@, message@, request_id),
{
    let id = request_id.text();
    let text = "{\"error\":{\"code\":".to_owned();
    let text = text.concat(quote(code).as_str()).concat(",\"message\":");
    let text = text.concat(quote(message).as_str()).concat(",\"request_id\":");
    text.concat(quote(id.as_str()).as_str()).concat("}}")
}

impl ApiError {
    /// An error that the client is told about.
    pub fn client(status: u16, code: &'static str, message: &str) -> (result: ApiError)
        ensures
            result@ == client_error(status, code@, message@),
    {
        ApiError::Client { status, code, message: message.to_owned() }
    }

    /// A failure of the database.
    pub fn db(detail: String) -> (result: ApiError)
        ensures
            result@ == ErrorView::Database(detail@),
    {
        ApiError::Database(detail)
    }

    /// The reply to a request that failed with this error, under a given
    /// request id.
    pub fn reply(&self, request_id: Uuid) -> (result: HttpReply)
        ensures
            result@ == error_reply(self@, request_id),
    {
        match self {
            ApiError::Client { status, code, message } => HttpReply {
                status: *status,
                body: write_error_body(code, message.as_str(), request_id),
            },
            ApiError::Database(_) => HttpReply {
                status: INTERNAL_SERVER_ERROR,
                body: write_error_body("internal_error", "database failure", request_id),
            },
            ApiError::Internal(_) => HttpReply {
                status: INTERNAL_SERVER_ERROR,
                body: write_error_body("internal_error", "internal failure", request_id),
            },
        }
    }

    /// The reply to a request that failed with this error, under a fresh request
    /// id.
    pub fn into_response(self) -> (result: HttpReply)
        ensures
            exists|request_id: Uuid|
                is_v4(request_id) && result@ == #[trigger] error_reply(self@, request_id),
    {
        self.reply(Uuid::new_v4())
    }

    /// The one-line form of the error.
    pub fn line(&self) -> (result: String)
        ensures
            result@ == error_line(self@),
    {
        match self {
            ApiError::Client { status, code, message } => {
                let head: &str = code;
                head.to_owned().concat(": ").concat(message.as_str())
            },
            ApiError::Database(_) => "database error".to_owned(),
            ApiError::Internal(_) => "internal error".to_owned(),
        }
    }
}

/// What a client is told of a failure of the database, or of the service
/// itself, does not depend on its detail.
pub proof fn details_stay_inside(one: Seq<char>, other: Seq<char>, request_id: Uuid)
    ensures
        error_reply(ErrorView::Database(one), request_id) == error_reply(
            ErrorView::Database(other),
            request_id,
        ),
        error_reply(ErrorView::Internal(one), request_id) == error_reply(
            ErrorView::Internal(other),
            request_id,
        ),
{
}

}
