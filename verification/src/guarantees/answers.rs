//! Answers: what a client reads of an error.
use vstd::prelude::*;

use crate::error::ApiError;
use crate::http::{is_success, HttpReply};
use crate::ids::{is_v4, uuid_text, uuid_text_is_injective, Uuid};
use crate::text::{json_string, json_string_ends_itself};

verus! {

/// Whether an error tells the client this status, this code and this message.
pub open spec fn tells(error: ApiError, status: int, code: Seq<char>, message: Seq<char>) -> bool {
    match error {
        ApiError::Client { status: told, code: told_code, message: told_message } => {
            &&& told == status
            &&& told_code@ == code
            &&& told_message@ == message
        },
        _ => false,
    }
}

/// Whether two optional texts are the same.
pub open spec fn same_optional(a: Option<String>, b: Option<String>) -> bool {
    match (a, b) {
        (Some(a), Some(b)) => a@ == b@,
        (None, None) => true,
        _ => false,
    }
}

/// An optional text as a member of a JSON document.
pub open spec fn text_or_null(value: Option<String>) -> Seq<char> {
    match value {
        Some(text) => json_string(text@),
        None => "null"@,
    }
}

/// The codes from 200 to 299 report success, and no others do.
pub proof fn success_is_200_to_299(code: u16, result: bool)
    requires
        call_ensures(is_success, (code,), result),
    ensures
        result <==> 200 <= code <= 299,
{
}

/// An error reply holds the error's own code and message and the id of the
/// request, under the error's own status. Of a failure of the database or of the
/// service itself it says no more than that.
pub proof fn error_reply_holds_the_error(error: ApiError, request_id: Uuid, reply: HttpReply)
    requires
        call_ensures(ApiError::reply, (&error, request_id), reply),
    ensures
        ({
            let (status, code, message): (int, Seq<char>, Seq<char>) = match error {
                ApiError::Client { status, code, message } => (status as int, code@, message@),
                ApiError::Database(_) => (500, "internal_error"@, "database failure"@),
                ApiError::Internal(_) => (500, "internal_error"@, "internal failure"@),
            };
            &&& reply.status == status
            &&& reply.body@ == "{\"error\":{\"code\":"@ + json_string(code) + ",\"message\":"@
                + json_string(message) + ",\"request_id\":"@ + json_string(uuid_text(request_id))
                + "}}"@
        }),
{
}

/// Two client errors that are answered alike are the same error, to the same
/// request: a reply tells the status, the code, the message and the request.
pub proof fn error_reply_tells_the_error(
    a: ApiError,
    request_a: Uuid,
    reply_a: HttpReply,
    b: ApiError,
    request_b: Uuid,
    reply_b: HttpReply,
)
    requires
        a is Client,
        b is Client,
        call_ensures(ApiError::reply, (&a, request_a), reply_a),
        call_ensures(ApiError::reply, (&b, request_b), reply_b),
        reply_a.status == reply_b.status,
        reply_a.body@ == reply_b.body@,
    ensures
        a->status == b->status,
        a->code@ == b->code@,
        a->message@ == b->message@,
        request_a == request_b,
{
    let (left, right) = (reply_a.body@, reply_b.body@);
    let (code_a, code_b) = (a->code@, b->code@);
    let (message_a, message_b) = (a->message@, b->message@);
    let (id_a, id_b) = (uuid_text(request_a), uuid_text(request_b));
    reveal_strlit("{\"error\":{\"code\":");
    reveal_strlit(",\"message\":");
    reveal_strlit(",\"request_id\":");
    let head = "{\"error\":{\"code\":"@.len() as int;
    let third_a = ",\"request_id\":"@ + json_string(id_a) + "}}"@;
    let third_b = ",\"request_id\":"@ + json_string(id_b) + "}}"@;
    let second_a = ",\"message\":"@ + (json_string(message_a) + third_a);
    let second_b = ",\"message\":"@ + (json_string(message_b) + third_b);
    assert(left.skip(head) == json_string(code_a) + second_a);
    assert(right.skip(head) == json_string(code_b) + second_b);
    json_string_ends_itself(code_a, code_b, second_a, second_b);
    let n = ",\"message\":"@.len() as int;
    assert(second_a.skip(n) == json_string(message_a) + third_a);
    assert(second_b.skip(n) == json_string(message_b) + third_b);
    json_string_ends_itself(message_a, message_b, third_a, third_b);
    let m = ",\"request_id\":"@.len() as int;
    assert(third_a.skip(m) == json_string(id_a) + "}}"@);
    assert(third_b.skip(m) == json_string(id_b) + "}}"@);
    json_string_ends_itself(id_a, id_b, "}}"@, "}}"@);
    uuid_text_is_injective(request_a, request_b);
}

/// A request that failed is answered as `reply` does, under some id of version 4.
pub proof fn response_is_a_reply(error: ApiError, response: HttpReply)
    requires
        call_ensures(ApiError::into_response, (error,), response),
    ensures
        exists|request_id: Uuid| #[trigger]
            is_v4(request_id) && forall|reply: HttpReply|
                call_ensures(ApiError::reply, (&error, request_id), reply) ==> reply.status
                    == response.status && #[trigger] reply.body@ == response.body@,
{
    let request_id = choose|request_id: Uuid|
        is_v4(request_id) && response@ == #[trigger] crate::error::error_reply(error@, request_id);
    assert(is_v4(request_id));
}

/// The one-line form of a client error is its code and its message; that of
/// another error holds nothing of its detail.
pub proof fn line_names_the_error(error: ApiError, line: String)
    requires
        call_ensures(ApiError::line, (&error,), line),
    ensures
        line@ == match error {
            ApiError::Client { status, code, message } => code@ + ": "@ + message@,
            ApiError::Database(_) => "database error"@,
            ApiError::Internal(_) => "internal error"@,
        },
{
}

/// An error for the client is made of what it is given; a failure of the
/// database is one, whatever its detail.
pub proof fn errors_are_made_as_asked(
    status: u16,
    code: &'static str,
    message: &str,
    error: ApiError,
    detail: String,
    failure: ApiError,
)
    requires
        call_ensures(ApiError::client, (status, code, message), error),
        call_ensures(ApiError::db, (detail,), failure),
    ensures
        tells(error, status as int, code@, message@),
        failure matches ApiError::Database(kept) && kept@ == detail@,
{
}

}
