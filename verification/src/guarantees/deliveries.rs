//! Deliveries: what a receiver is sent, and when it is sent again.
use vstd::prelude::*;
use vstd::utf8::*;

use crate::crypto::{hex_text, hmac_sha256};
use crate::error::ApiError;
use crate::http::reason_phrase;
use crate::ids::{
    uuid_text, uuid_text_is_injective, uuid_text_is_plain, uuid_text_len, Uuid,
};
use crate::services::webhooks::{
    conclude_delivery, decrypt_secret, deliver, deliver_counted, record_failure, sign_payload,
    wait_after_claim, ClaimOutcome, DeliveryAction, DeliveryJob, DeliveryOutcome, DeliveryRequest,
    DeliveryUpdate,
};
use crate::text::{
    decimal_text, json_escaped, json_string, json_string_is_injective,
    plain_text_is_not_escaped, quotes_are_escaped, utf8_lossy,
};

verus! {

/// How long to wait after each failure but the last, in seconds.
pub open spec fn waits() -> Seq<int> {
    seq![1, 5, 30, 120, 600]
}

/// Whether an update counts one attempt more, with the word of what went wrong:
/// another try after its wait, or none after the sixth.
pub open spec fn counts_one_more(
    job: DeliveryJob,
    error: Seq<char>,
    update: DeliveryUpdate,
) -> bool {
    let count = job.attempts + 1;
    if count >= 6 {
        &&& update matches DeliveryUpdate::Exhausted { id, attempts, last_error }
        &&& id == job.id
        &&& attempts == count
        &&& last_error@ == error
    } else {
        &&& update matches DeliveryUpdate::Retry { id, attempts, last_error, delay_seconds }
        &&& id == job.id
        &&& attempts == count
        &&& last_error@ == error
        &&& delay_seconds == waits()[count - 1]
    }
}

/// A delivery counts as delivered exactly where the receiver answered with a code
/// from 200 to 299. Whatever else came of it, it counts one attempt more, and is
/// tried again, or no more after the sixth.
pub proof fn delivered_only_on_success(
    job: DeliveryJob,
    outcome: DeliveryOutcome,
    update: DeliveryUpdate,
)
    requires
        0 <= job.attempts < i32::MAX,
        outcome matches DeliveryOutcome::Answered(code) ==> 100 <= code <= 999,
        call_ensures(conclude_delivery, (&job, outcome), update),
    ensures
        call_requires(conclude_delivery, (&job, outcome)),
        update is Delivered <==> (outcome matches DeliveryOutcome::Answered(code) && 200 <= code
            <= 299),
        match outcome {
            DeliveryOutcome::Answered(code) => if 200 <= code <= 299 {
                update matches DeliveryUpdate::Delivered { id } && id == job.id
            } else {
                counts_one_more(
                    job,
                    "receiver returned "@ + (decimal_text(code as int) + seq![' ']
                        + reason_phrase(code)),
                    update,
                )
            },
            DeliveryOutcome::Unreachable(error) => counts_one_more(job, error@, update),
            DeliveryOutcome::TimedOut => counts_one_more(job, "delivery timeout"@, update),
        },
{
}

/// A success counts as one however often it was tried before.
pub proof fn success_is_delivered(job: DeliveryJob, code: u16, update: DeliveryUpdate)
    requires
        200 <= code <= 299,
        call_ensures(conclude_delivery, (&job, DeliveryOutcome::Answered(code)), update),
    ensures
        call_requires(conclude_delivery, (&job, DeliveryOutcome::Answered(code))),
        update matches DeliveryUpdate::Delivered { id } && id == job.id,
{
}

/// A failure counts one attempt more.
pub proof fn failure_counts_one_more(job: DeliveryJob, error: String, update: DeliveryUpdate)
    requires
        0 <= job.attempts < i32::MAX,
        call_ensures(record_failure, (&job, error), update),
    ensures
        call_requires(record_failure, (&job, error)),
        counts_one_more(job, error@, update),
{
}

/// Whether a request carries a job, signed with a secret at a time: it goes to
/// the job's own URL, holds the job's own payload, id and type, and its signature
/// is that of what the receiver reads.
pub open spec fn carries(
    request: DeliveryRequest,
    job: DeliveryJob,
    secret: Seq<char>,
    now: i64,
) -> bool {
    &&& request.url@ == job.url@
    &&& request.event_id@ == uuid_text(job.event_id)
    &&& request.timestamp@ == decimal_text(now as int)
    &&& request.body@ == "{\"data\":"@ + job.payload@ + ",\"id\":"@ + json_string(
        uuid_text(job.event_id),
    ) + ",\"type\":"@ + json_string(job.event_type@) + "}"@
    &&& request.signature@ == "v1="@ + hex_text(
        hmac_sha256(
            encode_utf8(secret),
            encode_utf8(
                request.timestamp@ + "."@ + request.event_id@ + "."@ + request.body@,
            ),
        ),
    )
}

/// What is done about a delivery that is due: where the endpoint's secret reads,
/// the job is sent, signed with it; where it does not, that counts one attempt.
pub open spec fn is_due_action(
    job: DeliveryJob,
    secret: Result<String, ApiError>,
    now: i64,
    action: DeliveryAction,
) -> bool {
    match secret {
        Ok(secret) => action matches DeliveryAction::Send(request) && carries(
            request,
            job,
            secret@,
            now,
        ),
        Err(error) => action matches DeliveryAction::Update(update) && counts_one_more(
            job,
            "secret: "@ + match error {
                ApiError::Client { status, code, message } => code@ + ": "@ + message@,
                ApiError::Database(_) => "database error"@,
                ApiError::Internal(_) => "internal error"@,
            },
            update,
        ),
    }
}

/// A delivery that is due carries its own event, signed with the secret of its
/// own endpoint.
pub proof fn delivery_carries_its_event(
    job: DeliveryJob,
    stored: &str,
    key: &[u8; 32],
    now: i64,
    secret: Result<String, ApiError>,
    action: DeliveryAction,
)
    requires
        0 <= job.attempts < i32::MAX,
        stored@ == job.secret_ciphertext@,
        call_ensures(decrypt_secret, (stored, key), secret),
        call_ensures(deliver, (&job, key, now), action),
    ensures
        call_requires(deliver, (&job, key, now)),
        is_due_action(job, secret, now, action),
{
}

/// Where nothing is to be counted, the count does not matter.
pub proof fn readable_delivery_is_sent(
    job: DeliveryJob,
    stored: &str,
    key: &[u8; 32],
    now: i64,
    secret: String,
    action: DeliveryAction,
)
    requires
        stored@ == job.secret_ciphertext@,
        call_ensures(decrypt_secret, (stored, key), Ok(secret)),
        call_ensures(deliver, (&job, key, now), action),
    ensures
        call_requires(deliver, (&job, key, now)),
        action matches DeliveryAction::Send(request) && carries(request, job, secret@, now),
{
}

/// A delivery is left out exactly where its secret does not read and the failure
/// cannot be counted.
pub proof fn countable_delivery_is_due(
    job: DeliveryJob,
    stored: &str,
    key: &[u8; 32],
    now: i64,
    secret: Result<String, ApiError>,
    action: Option<DeliveryAction>,
)
    requires
        stored@ == job.secret_ciphertext@,
        call_ensures(decrypt_secret, (stored, key), secret),
        call_ensures(deliver_counted, (&job, key, now), action),
    ensures
        action is Some <==> secret is Ok || 0 <= job.attempts < i32::MAX,
        action matches Some(action) ==> is_due_action(job, secret, now, action),
{
}

/// The body of a delivery tells the event: two deliveries with the same body hold
/// the same payload under the same id, of the same type.
pub proof fn delivery_tells_its_event(
    a: DeliveryJob,
    request_a: DeliveryRequest,
    b: DeliveryJob,
    request_b: DeliveryRequest,
    key_a: &[u8; 32],
    key_b: &[u8; 32],
    now_a: i64,
    now_b: i64,
)
    requires
        call_ensures(deliver, (&a, key_a, now_a), DeliveryAction::Send(request_a)),
        call_ensures(deliver, (&b, key_b, now_b), DeliveryAction::Send(request_b)),
        request_a.body@ == request_b.body@,
    ensures
        a.event_type@ == b.event_type@,
        a.event_id == b.event_id,
        a.payload@ == b.payload@,
{
    let head_a = "{\"data\":"@ + a.payload@ + ",\"id\":"@ + json_string(uuid_text(a.event_id))
        + ",\"type\":"@;
    let head_b = "{\"data\":"@ + b.payload@ + ",\"id\":"@ + json_string(uuid_text(b.event_id))
        + ",\"type\":"@;
    reveal_strlit("{\"data\":");
    reveal_strlit(",\"id\":");
    reveal_strlit(",\"type\":");
    reveal_strlit("}");
    let (left, right) = (request_a.body@, request_b.body@);
    assert(left == head_a + json_string(a.event_type@) + "}"@);
    assert(right == head_b + json_string(b.event_type@) + "}"@);
    assert(head_a.last() == ':' && head_b.last() == ':');
    last_string_starts_alike(head_a, a.event_type@, head_b, b.event_type@);
    last_string_starts_alike(head_b, b.event_type@, head_a, a.event_type@);
    let n = head_a.len() as int;
    assert(left.subrange(n, left.len() - 1) == json_string(a.event_type@));
    assert(right.subrange(n, right.len() - 1) == json_string(b.event_type@));
    json_string_is_injective(a.event_type@, b.event_type@);
    assert(left.take(n) == head_a && right.take(n) == head_b);
    uuid_text_len(a.event_id);
    uuid_text_len(b.event_id);
    let id_a = json_string(uuid_text(a.event_id));
    let id_b = json_string(uuid_text(b.event_id));
    uuid_text_is_plain(a.event_id);
    uuid_text_is_plain(b.event_id);
    plain_text_is_not_escaped(uuid_text(a.event_id));
    plain_text_is_not_escaped(uuid_text(b.event_id));
    let at = n - 8 - 38;
    assert(head_a.subrange(at, at + 38) == id_a);
    assert(head_b.subrange(at, at + 38) == id_b);
    json_string_is_injective(uuid_text(a.event_id), uuid_text(b.event_id));
    uuid_text_is_injective(a.event_id, b.event_id);
    assert(head_a.subrange(8, at - 6) == a.payload@);
    assert(head_b.subrange(8, at - 6) == b.payload@);
}

/// A JSON string at the end of a text starts no later than another reading of the
/// text has it: a quote behind a colon is not inside of a string.
proof fn last_string_starts_alike(
    head_a: Seq<char>,
    a: Seq<char>,
    head_b: Seq<char>,
    b: Seq<char>,
)
    requires
        head_a + json_string(a) + "}"@ == head_b + json_string(b) + "}"@,
        head_a.len() > 0,
        head_a.last() == ':',
    ensures
        head_a.len() <= head_b.len(),
{
    let text = head_a + json_string(a) + "}"@;
    reveal_strlit("}");
    if head_a.len() > head_b.len() {
        let k = head_a.len() - head_b.len() - 1;
        assert(text[head_a.len() as int] == '"');
        assert(text[head_a.len() - 1] == ':');
        assert(text.len() == head_b.len() + json_escaped(b).len() + 3);
        assert(text.len() == head_a.len() + json_escaped(a).len() + 3);
        assert(text[head_b.len() + 1 + k] == json_escaped(b)[k]);
        quotes_are_escaped(b, k);
        assert(text[head_b.len() + k] == json_escaped(b)[k - 1]);
    }
}

/// A signature is that of the timestamp, the event and the body, under the
/// secret; of a body that is not UTF-8, it is that of what is read of it.
pub proof fn signature_covers_what_is_sent(
    secret: &str,
    timestamp: &str,
    event_id: Uuid,
    body: &[u8],
    signature: String,
)
    requires
        call_ensures(sign_payload, (secret, timestamp, event_id, body), signature),
    ensures
        ({
            let read = if valid_utf8(body@) {
                decode_utf8(body@)
            } else {
                utf8_lossy(body@)
            };
            signature@ == "v1="@ + hex_text(
                hmac_sha256(
                    encode_utf8(secret@),
                    encode_utf8(timestamp@ + "."@ + uuid_text(event_id) + "."@ + read),
                ),
            )
        }),
{
}

/// The worker takes the next delivery at once where there was one, looks again
/// after half a second where there was none, and after two where the database
/// failed.
pub proof fn worker_waits(outcome: ClaimOutcome, millis: u64)
    requires
        call_ensures(wait_after_claim, (outcome,), millis),
    ensures
        outcome is Claimed ==> millis == 0,
        outcome is Idle ==> millis == 500,
        outcome is Failed ==> millis == 2000,
{
}

/// Whatever the receiver answers but a code from 200 to 299, and where it does not
/// answer, the delivery counts one attempt more: up to the fifth it is tried again,
/// each time after a longer wait, and from the sixth on it is not.
pub proof fn refused_delivery_is_tried_again(
    job: DeliveryJob,
    outcome: DeliveryOutcome,
    update: DeliveryUpdate,
)
    requires
        0 <= job.attempts < i32::MAX,
        outcome matches DeliveryOutcome::Answered(code) ==> 100 <= code <= 999 && (code < 200
            || code > 299),
        call_ensures(conclude_delivery, (&job, outcome), update),
    ensures
        match update {
            DeliveryUpdate::Delivered { .. } => false,
            DeliveryUpdate::Retry { id, attempts, last_error, delay_seconds } => {
                &&& id == job.id
                &&& attempts == job.attempts + 1
                &&& attempts <= 5
                &&& attempts == 1 ==> delay_seconds == 1
                &&& attempts == 2 ==> delay_seconds == 5
                &&& attempts == 3 ==> delay_seconds == 30
                &&& attempts == 4 ==> delay_seconds == 120
                &&& attempts == 5 ==> delay_seconds == 600
            },
            DeliveryUpdate::Exhausted { id, attempts, last_error } => {
                &&& id == job.id
                &&& attempts == job.attempts + 1
                &&& attempts >= 6
            },
        },
{
}

/// The body of a delivery ends with the event's own type, as a JSON string; before
/// it stand the event's own payload and id.
pub proof fn delivery_body_is_the_event_s(
    job: DeliveryJob,
    key: &[u8; 32],
    now: i64,
    request: DeliveryRequest,
)
    requires
        call_ensures(deliver, (&job, key, now), DeliveryAction::Send(request)),
    ensures
        request.body@ == "{\"data\":"@ + job.payload@ + ",\"id\":"@ + json_string(
            uuid_text(job.event_id),
        ) + ",\"type\":"@ + json_string(job.event_type@) + "}"@,
        request.url@ == job.url@,
        request.event_id@ == uuid_text(job.event_id),
        request.timestamp@ == decimal_text(now as int),
{
}

/// Deliveries of events of different types have different bodies, and so have
/// those of different events, or with different payloads.
pub proof fn different_events_have_different_bodies(
    a: DeliveryJob,
    request_a: DeliveryRequest,
    b: DeliveryJob,
    request_b: DeliveryRequest,
    key: &[u8; 32],
    now: i64,
)
    requires
        call_ensures(deliver, (&a, key, now), DeliveryAction::Send(request_a)),
        call_ensures(deliver, (&b, key, now), DeliveryAction::Send(request_b)),
        a.event_type@ != b.event_type@ || a.event_id != b.event_id || a.payload@ != b.payload@,
    ensures
        request_a.body@ != request_b.body@,
{
    if request_a.body@ == request_b.body@ {
        delivery_tells_its_event(a, request_a, b, request_b, key, key, now, now);
    }
}

}
