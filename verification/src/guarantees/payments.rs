//! Payments: what is taken as a request, how it is told apart from others, and
//! each step from there to the answer.
use vstd::prelude::*;
use vstd::utf8::encode_utf8;

use crate::controllers::payments::pay_invoice as take_request;
use crate::crypto::{hex_text, sha256};
use crate::error::ApiError;
use crate::guarantees::answers::{same_optional, tells};
use crate::http::HttpReply;
use crate::ids::{is_v4, uuid_text, uuid_text_is_injective, Uuid};
use crate::ledger::status_texts_differ;
use crate::models::{PayInput, PspReply};
use crate::services::payments::{
    awaits, charge_url, charges_url, hash_payment_request, is_unique_violation, next_payment,
    pay_invoice, pay_invoice_with, payment_request, processing_response,
    response_from_idempotency_record, stored_response, verdict_of, IdempotencyRecord,
    InvoiceStatus, PayAction, PayEvent, PayRequest, PayStage, Verdict,
};
use crate::text::{json_string, json_string_ends_itself, trimmed};

verus! {

// What is taken as a request.

/// What a payment is told apart by: the digest of the method, the path with the
/// invoice, and the body with the card token.
pub open spec fn is_fingerprint(hash: Seq<char>, invoice_id: Uuid, card_token: Seq<char>) -> bool {
    hash == hex_text(
        sha256(
            encode_utf8(
                "POST:/invoices/"@ + uuid_text(invoice_id) + "/pay:"@ + "{\"card_token\":"@
                    + json_string(card_token) + "}"@,
            ),
        ),
    )
}

/// A fingerprint always comes, and is that of the invoice and the card token.
pub proof fn fingerprint_is_of_the_request(
    invoice_id: Uuid,
    input: PayInput,
    result: Result<String, ApiError>,
)
    requires
        call_ensures(hash_payment_request, (invoice_id, &input), result),
    ensures
        result matches Ok(hash) && is_fingerprint(hash@, invoice_id, input.card_token@),
{
}

/// A payment request holds what it is made of.
pub proof fn request_is_made_of_its_parts(
    business_id: Uuid,
    invoice_id: Uuid,
    idempotency_key: &str,
    input: PayInput,
    result: Result<PayRequest, ApiError>,
)
    requires
        call_ensures(payment_request, (business_id, invoice_id, idempotency_key, input), result),
    ensures
        result matches Ok(request) && {
            &&& request.business_id == business_id
            &&& request.invoice_id == invoice_id
            &&& request.idempotency_key@ == idempotency_key@
            &&& request.card_token@ == input.card_token@
            &&& is_fingerprint(request.request_hash@, invoice_id, input.card_token@)
        },
{
}

/// A request is taken exactly where its header holds a key of 1 to 200 bytes,
/// without the white space around it, and its card token is not blank. It keeps
/// the business, the invoice and the card token as they are.
pub proof fn request_needs_a_key_and_a_token(
    business_id: Uuid,
    invoice_id: Uuid,
    header: Option<&str>,
    input: PayInput,
    result: Result<PayRequest, ApiError>,
)
    requires
        call_ensures(take_request, (business_id, invoice_id, header, input), result),
    ensures
        ({
            let key = match header {
                Some(header) => trimmed(header@),
                None => Seq::empty(),
            };
            let has_key = key.len() >= 1 && encode_utf8(key).len() <= 200;
            let has_token = trimmed(input.card_token@).len() >= 1;
            match result {
                Ok(request) => {
                    &&& has_key && has_token
                    &&& request.business_id == business_id
                    &&& request.invoice_id == invoice_id
                    &&& request.idempotency_key@ == key
                    &&& request.card_token@ == input.card_token@
                    &&& is_fingerprint(request.request_hash@, invoice_id, input.card_token@)
                },
                Err(error) => {
                    ||| !has_key && tells(
                        error,
                        422,
                        "missing_idempotency_key"@,
                        "Idempotency-Key is required"@,
                    )
                    ||| has_key && !has_token && tells(
                        error,
                        422,
                        "invalid_card_token"@,
                        "card_token is required"@,
                    )
                },
            }
        }),
{
}

// What is replied.

/// Whether a reply says that an attempt is under way.
pub open spec fn says_processing(reply: HttpReply, attempt_id: Option<Uuid>) -> bool {
    &&& reply.status == 202
    &&& reply.body@ == "{\"payment_attempt_id\":"@ + (match attempt_id {
        Some(id) => json_string(uuid_text(id)),
        None => "null"@,
    }) + ",\"status\":\"processing\"}"@
}

/// A payment under way is accepted, under its own attempt.
pub proof fn processing_names_the_attempt(attempt_id: Option<Uuid>, reply: HttpReply)
    requires
        call_ensures(processing_response, (attempt_id,), reply),
    ensures
        says_processing(reply, attempt_id),
{
}

/// Two replies that payments are under way, and that are alike, are of the same
/// attempt.
pub proof fn processing_tells_the_attempt(
    attempt_a: Uuid,
    reply_a: HttpReply,
    attempt_b: Uuid,
    reply_b: HttpReply,
)
    requires
        call_ensures(processing_response, (Some(attempt_a),), reply_a),
        call_ensures(processing_response, (Some(attempt_b),), reply_b),
        reply_a.body@ == reply_b.body@,
    ensures
        attempt_a == attempt_b,
{
    let tail = ",\"status\":\"processing\"}"@;
    let (a, b) = (uuid_text(attempt_a), uuid_text(attempt_b));
    let n = "{\"payment_attempt_id\":"@.len() as int;
    assert(reply_a.body@.skip(n) == json_string(a) + tail);
    assert(reply_b.body@.skip(n) == json_string(b) + tail);
    json_string_ends_itself(a, b, tail, tail);
    uuid_text_is_injective(attempt_a, attempt_b);
}

/// Whether a reply is what is stored: the body as it is, under the stored status.
/// The status is taken modulo 65536, and what is then not from 100 to 999 is
/// answered as 500.
pub open spec fn is_stored(reply: HttpReply, status: int, body: Seq<char>) -> bool {
    let code = status % 65536;
    &&& 100 <= code <= 999 ==> reply.status == code
    &&& !(100 <= code <= 999) ==> reply.status == 500
    &&& reply.body@ == body
}

/// What is stored is replied as it is.
pub proof fn stored_response_is_exact(status: i32, body: String, reply: HttpReply)
    requires
        call_ensures(stored_response, (status, body), reply),
    ensures
        is_stored(reply, status as int, body@),
        100 <= status <= 999 ==> reply.status == status,
        reply.body@ == body@,
{
}

/// Whether a reply is that of a row: what is stored where the payment is
/// completed, and before that the word that its attempt is under way.
pub open spec fn replays(record: IdempotencyRecord, reply: HttpReply) -> bool {
    if record.state@ == "completed"@ {
        is_stored(
            reply,
            match record.response_status {
                Some(status) => status as int,
                None => 500,
            },
            match record.response_body {
                Some(body) => body@,
                None => "{\"error\":{\"code\":\"missing_response\"}}"@,
            },
        )
    } else {
        says_processing(reply, record.payment_attempt_id)
    }
}

/// A row is replied as it is.
pub proof fn record_is_replayed(record: IdempotencyRecord, reply: HttpReply)
    requires
        call_ensures(response_from_idempotency_record, (record,), reply),
    ensures
        replays(record, reply),
{
}

// What the provider says.

/// A reply of the provider holds a verdict exactly where the charge succeeded or
/// failed: with the provider's reference, and with the failure code of a charge
/// that failed.
pub open spec fn is_verdict(verdict: Verdict, reply: PspReply) -> bool {
    &&& reply.status@ == "succeeded"@ || reply.status@ == "failed"@
    &&& verdict.succeeded <==> reply.status@ == "succeeded"@
    &&& same_optional(verdict.psp_ref, reply.psp_ref)
    &&& if verdict.succeeded {
        verdict.failure_code is None
    } else {
        same_optional(verdict.failure_code, reply.code)
    }
}

/// The verdict is the provider's own.
pub proof fn verdict_is_the_provider_s(reply: PspReply, result: Option<Verdict>)
    requires
        call_ensures(verdict_of, (reply,), result),
    ensures
        match result {
            Some(verdict) => is_verdict(verdict, reply),
            None => reply.status@ != "succeeded"@ && reply.status@ != "failed"@,
        },
{
    status_texts_differ();
}

/// Charges are made and looked up at the provider, each under its attempt's id.
pub proof fn charges_are_at_the_provider(
    psp_url: &str,
    attempt_id: Uuid,
    create_at: String,
    look_up_at: String,
)
    requires
        call_ensures(charges_url, (psp_url,), create_at),
        call_ensures(charge_url, (psp_url, attempt_id), look_up_at),
    ensures
        create_at@ == psp_url@ + "/charges"@,
        look_up_at@ == create_at@ + "/"@ + uuid_text(attempt_id),
{
    reveal_strlit("/charges");
    reveal_strlit("/charges/");
    reveal_strlit("/");
    assert("/charges/"@ == "/charges"@ + "/"@);
    assert(look_up_at@ == create_at@ + "/"@ + uuid_text(attempt_id));
}

/// Only the code 23505 says that a row is there already.
pub proof fn unique_violation_has_one_code(code: Option<&str>, result: bool)
    requires
        call_ensures(is_unique_violation, (code,), result),
    ensures
        result <==> (code matches Some(code) && code@ == "23505"@),
{
}

/// The status of an invoice is read as what it says.
pub proof fn invoice_status_is_read(text: &str, status: InvoiceStatus)
    requires
        call_ensures(InvoiceStatus::parse, (text,), status),
    ensures
        status is Open <==> text@ == "open"@,
        status is Paid <==> text@ == "paid"@,
        status is Other <==> text@ != "open"@ && text@ != "paid"@,
{
    status_texts_differ();
}

// Step by step.

/// Whether a payment at a stage waits for an event.
pub open spec fn is_awaited(stage: PayStage, event: PayEvent) -> bool {
    match event {
        PayEvent::DatabaseError(_) => !(stage is Charge || stage is ChargeReply || stage is Done),
        PayEvent::Succeeded => stage is Begin || stage is ReplayRollback || stage is Attempt
            || stage is Key || stage is ConflictRollback || stage is Commit,
        PayEvent::Invoice(_) => stage is Invoice,
        PayEvent::Record(_) => stage is Record || stage is Winner,
        PayEvent::Pending(_) => stage is Pending,
        PayEvent::KeyTaken => stage is Key,
        PayEvent::PspSilent | PayEvent::PspStatus(_) => stage is Charge,
        PayEvent::PspReply(_) | PayEvent::PspUnreadable(_) => stage is ChargeReply,
    }
}

/// Whether an event is awaited is told, and an awaited event can be handed in.
pub proof fn awaited_events_are_taken(
    request: PayRequest,
    stage: PayStage,
    event: PayEvent,
    fresh: Uuid,
    told: bool,
)
    requires
        call_ensures(awaits, (&stage, &event), told),
    ensures
        told <==> is_awaited(stage, event),
        told ==> call_requires(pay_invoice_with, (&request, stage, event, fresh)),
        told ==> call_requires(pay_invoice, (&request, stage, event)),
{
}

/// Whether a payment ends with a refusal.
pub open spec fn ends_refused(
    next: (PayStage, PayAction),
    status: int,
    code: Seq<char>,
    message: Seq<char>,
) -> bool {
    &&& next.0 is Done
    &&& next.1 matches PayAction::Answer(Err(error)) && tells(error, status, code, message)
}

/// Whether a payment ends with the word that its attempt is under way.
pub open spec fn ends_under_way(next: (PayStage, PayAction), attempt_id: Uuid) -> bool {
    &&& next.0 is Done
    &&& next.1 matches PayAction::Answer(Ok(reply)) && says_processing(reply, Some(attempt_id))
}

/// Whether a payment ends because its key stands for another request.
pub open spec fn ends_for_a_reused_key(next: (PayStage, PayAction)) -> bool {
    ends_refused(
        next,
        409,
        "idempotency_key_reused"@,
        "key was used with a different request"@,
    )
}

/// What follows in a payment before its charge: an event at a stage, and the next
/// stage with the next action.
pub open spec fn follows(
    request: PayRequest,
    stage: PayStage,
    event: PayEvent,
    fresh: Uuid,
    next: (PayStage, PayAction),
) -> bool {
    match (stage, event) {
        (_, PayEvent::DatabaseError(detail)) => {
            &&& next.0 is Done
            &&& next.1 matches PayAction::Answer(Err(ApiError::Database(told))) && told@
                == detail@
        },
        (PayStage::Begin, _) => next.0 is Invoice && next.1 is SelectInvoice,
        (PayStage::Invoice, PayEvent::Invoice(None)) => ends_refused(
            next,
            404,
            "invoice_not_found"@,
            "invoice not found"@,
        ),
        (PayStage::Invoice, PayEvent::Invoice(Some(found))) => {
            &&& next.0 matches PayStage::Record { status } && status == found
            &&& next.1 is SelectRecord
        },
        (PayStage::Record { .. }, PayEvent::Record(Some(record))) => {
            if record.request_hash@ == request.request_hash@ {
                &&& next.0 matches PayStage::ReplayRollback { reply } && replays(record, reply)
                &&& next.1 is Rollback
            } else {
                ends_for_a_reused_key(next)
            }
        },
        (PayStage::Record { status }, PayEvent::Record(None)) => if status is Paid {
            ends_refused(next, 409, "invoice_not_payable"@, "invoice is already paid"@)
        } else {
            next.0 is Pending && next.1 is SelectPending
        },
        (PayStage::ReplayRollback { reply }, PayEvent::Succeeded) => {
            &&& next.0 is Done
            &&& next.1 matches PayAction::Answer(Ok(told)) && told.status == reply.status
                && told.body@ == reply.body@
        },
        (PayStage::Pending, PayEvent::Pending(Some(_))) => ends_refused(
            next,
            409,
            "payment_in_progress"@,
            "another payment is already processing"@,
        ),
        (PayStage::Pending, PayEvent::Pending(None)) => {
            &&& next.0 matches PayStage::Attempt { attempt_id } && attempt_id == fresh
            &&& next.1 matches PayAction::InsertAttempt(id) && id == fresh
        },
        (PayStage::Attempt { attempt_id }, PayEvent::Succeeded) => {
            &&& next.0 matches PayStage::Key { attempt_id: kept } && kept == attempt_id
            &&& next.1 matches PayAction::InsertKey(id) && id == attempt_id
        },
        (PayStage::Key { .. }, PayEvent::KeyTaken) => next.0 is ConflictRollback
            && next.1 is Rollback,
        (PayStage::Key { attempt_id }, PayEvent::Succeeded) => {
            &&& next.0 matches PayStage::Commit { attempt_id: kept } && kept == attempt_id
            &&& next.1 is Commit
        },
        (PayStage::ConflictRollback, PayEvent::Succeeded) => next.0 is Winner
            && next.1 is SelectRecord,
        (PayStage::Winner, PayEvent::Record(Some(record))) => {
            if record.request_hash@ == request.request_hash@ {
                &&& next.0 is Done
                &&& next.1 matches PayAction::Answer(Ok(reply)) && replays(record, reply)
            } else {
                ends_for_a_reused_key(next)
            }
        },
        (PayStage::Winner, PayEvent::Record(None)) => {
            &&& next.0 is Done
            &&& next.1 matches PayAction::Answer(Err(ApiError::Internal(told))) && told@
                == "idempotency record missing after unique-key conflict"@
        },
        (PayStage::Commit { attempt_id }, PayEvent::Succeeded) => {
            &&& next.0 matches PayStage::Charge { attempt_id: kept } && kept == attempt_id
            &&& next.1 matches PayAction::PostCharge(id) && id == attempt_id
        },
        _ => true,
    }
}

/// What follows in a payment after its charge was asked for: an answer with a
/// code from 200 to 299 is read, and what it says of the charge settles the
/// attempt or leaves it under way; any other code, and no answer, leave it under
/// way.
pub open spec fn follows_charge(
    stage: PayStage,
    event: PayEvent,
    next: (PayStage, PayAction),
) -> bool {
    match (stage, event) {
        (PayStage::Charge { attempt_id }, PayEvent::PspStatus(code)) => {
            if 200 <= code <= 299 {
                &&& next.0 matches PayStage::ChargeReply { attempt_id: kept } && kept
                    == attempt_id
                &&& next.1 is ReadReply
            } else {
                ends_under_way(next, attempt_id)
            }
        },
        (PayStage::Charge { attempt_id }, PayEvent::PspSilent) => ends_under_way(next, attempt_id),
        (PayStage::ChargeReply { attempt_id }, PayEvent::PspReply(reply)) => {
            if reply.status@ == "succeeded"@ || reply.status@ == "failed"@ {
                &&& next.0 is Done
                &&& next.1 matches PayAction::Finalize(id, verdict) && id == attempt_id
                    && is_verdict(verdict, reply)
            } else {
                ends_under_way(next, attempt_id)
            }
        },
        (PayStage::ChargeReply { .. }, PayEvent::PspUnreadable(detail)) => {
            &&& next.0 is Done
            &&& next.1 matches PayAction::Answer(Err(ApiError::Internal(told))) && told@
                == detail@
        },
        _ => true,
    }
}

/// Each step of a payment is the one that follows.
pub proof fn payment_takes_the_step_that_follows(
    request: PayRequest,
    stage: PayStage,
    event: PayEvent,
    fresh: Uuid,
    next: (PayStage, PayAction),
)
    requires
        is_awaited(stage, event),
        call_ensures(pay_invoice_with, (&request, stage, event, fresh), next),
    ensures
        follows(request, stage, event, fresh, next),
        follows_charge(stage, event, next),
{
    step_follows(request, stage, event, fresh, next);
}

proof fn step_follows(
    request: PayRequest,
    stage: PayStage,
    event: PayEvent,
    fresh: Uuid,
    next: (PayStage, PayAction),
)
    requires
        is_awaited(stage, event),
        (next.0@, next.1@) == next_payment(request@, stage@, event@, fresh),
    ensures
        follows(request, stage, event, fresh, next),
        follows_charge(stage, event, next),
{
    status_texts_differ();
}

/// With an id that is drawn, each step of a payment is the one that follows too,
/// and an attempt gets an id of version 4.
pub proof fn drawn_payment_takes_the_step_that_follows(
    request: PayRequest,
    stage: PayStage,
    event: PayEvent,
    next: (PayStage, PayAction),
)
    requires
        is_awaited(stage, event),
        call_ensures(pay_invoice, (&request, stage, event), next),
    ensures
        exists|fresh: Uuid| #[trigger]
            follows(request, stage, event, fresh, next) && (stage is Pending ==> is_v4(fresh)),
        follows_charge(stage, event, next),
{
    let fresh = choose|fresh: Uuid|
        (stage@ is Pending ==> is_v4(fresh)) && (next.0@, next.1@) == #[trigger] next_payment(
            request@,
            stage@,
            event@,
            fresh,
        );
    step_follows(request, stage, event, fresh, next);
    assert(follows(request, stage, event, fresh, next));
}

/// It makes no difference by which code a charge was refused, nor whether the
/// provider answered: the client is told that the attempt is under way.
pub proof fn unanswered_charges_are_alike(
    request: PayRequest,
    attempt_id: Uuid,
    code: u16,
    fresh: Uuid,
    answered: (PayStage, PayAction),
    unanswered: (PayStage, PayAction),
)
    requires
        code < 200 || code > 299,
        call_ensures(
            pay_invoice_with,
            (&request, PayStage::Charge { attempt_id }, PayEvent::PspStatus(code), fresh),
            answered,
        ),
        call_ensures(
            pay_invoice_with,
            (&request, PayStage::Charge { attempt_id }, PayEvent::PspSilent, fresh),
            unanswered,
        ),
    ensures
        ends_under_way(answered, attempt_id),
        ends_under_way(unanswered, attempt_id),
{
}

/// The reply that a request is given, and the reply that the same request is
/// given again once the payment is completed, are what the key holds: a request
/// with the same fingerprint is never refused for its key, and one with another
/// always is.
pub proof fn key_answers_its_own_request_only(
    request: PayRequest,
    status: InvoiceStatus,
    record: IdempotencyRecord,
    fresh: Uuid,
    next: (PayStage, PayAction),
)
    requires
        call_ensures(
            pay_invoice_with,
            (
                &request,
                PayStage::Record { status },
                PayEvent::Record(Some(record)),
                fresh,
            ),
            next,
        ),
    ensures
        ends_for_a_reused_key(next) <==> record.request_hash@ != request.request_hash@,
        record.request_hash@ == request.request_hash@ <==> next.0 is ReplayRollback,
{
}

/// A completed payment is replied with the status and the body that were stored
/// for it, whatever they are; and one that is not completed is accepted.
pub proof fn completed_payment_is_replied_exactly(
    record: IdempotencyRecord,
    status: i32,
    body: String,
    reply: HttpReply,
)
    requires
        record.response_status == Some(status),
        100 <= status <= 999,
        record.response_body == Some(body),
        call_ensures(response_from_idempotency_record, (record,), reply),
    ensures
        record.state@ == "completed"@ ==> reply.status == status && reply.body@ == body@,
        record.state@ != "completed"@ ==> reply.status == 202,
{
}

/// The attempt that a payment inserts is the one that it enters the key for,
/// commits, and asks the provider to charge.
pub proof fn charge_is_for_the_inserted_attempt(
    request: PayRequest,
    fresh: Uuid,
    other: Uuid,
    inserted: (PayStage, PayAction),
    keyed: (PayStage, PayAction),
    committed: (PayStage, PayAction),
    charged: (PayStage, PayAction),
)
    requires
        call_ensures(
            pay_invoice_with,
            (&request, PayStage::Pending, PayEvent::Pending(None), fresh),
            inserted,
        ),
        call_ensures(
            pay_invoice_with,
            (&request, inserted.0, PayEvent::Succeeded, other),
            keyed,
        ),
        call_ensures(
            pay_invoice_with,
            (&request, keyed.0, PayEvent::Succeeded, other),
            committed,
        ),
        call_ensures(
            pay_invoice_with,
            (&request, committed.0, PayEvent::Succeeded, other),
            charged,
        ),
    ensures
        inserted.1 == PayAction::InsertAttempt(fresh),
        keyed.1 == PayAction::InsertKey(fresh),
        committed.1 is Commit,
        charged.1 == PayAction::PostCharge(fresh),
        charged.0 == (PayStage::Charge { attempt_id: fresh }),
{
}

/// An invoice that is paid, and one with a payment under way, are never charged
/// under a new key; every other one is, whatever its status.
pub proof fn only_payable_invoices_get_an_attempt(
    request: PayRequest,
    status: InvoiceStatus,
    pending: Option<Uuid>,
    fresh: Uuid,
    looked: (PayStage, PayAction),
    tried: (PayStage, PayAction),
)
    requires
        call_ensures(
            pay_invoice_with,
            (&request, PayStage::Record { status }, PayEvent::Record(None), fresh),
            looked,
        ),
        call_ensures(
            pay_invoice_with,
            (&request, PayStage::Pending, PayEvent::Pending(pending), fresh),
            tried,
        ),
    ensures
        looked.1 is SelectPending <==> !(status is Paid),
        looked.1 is Answer <==> status is Paid,
        tried.1 is InsertAttempt <==> pending is None,
        tried.1 is Answer <==> pending is Some,
{
}

/// A charge that the provider says succeeded is settled as one, a charge that it
/// says failed is settled as that with the provider's code, and any other is left
/// under way.
pub proof fn provider_s_word_settles_the_charge(
    request: PayRequest,
    attempt_id: Uuid,
    reply: PspReply,
    fresh: Uuid,
    next: (PayStage, PayAction),
)
    requires
        call_ensures(
            pay_invoice_with,
            (&request, PayStage::ChargeReply { attempt_id }, PayEvent::PspReply(reply), fresh),
            next,
        ),
    ensures
        match next.1 {
            PayAction::Finalize(id, verdict) => {
                &&& id == attempt_id
                &&& verdict.succeeded ==> reply.status@ == "succeeded"@
                    && verdict.failure_code is None
                &&& !verdict.succeeded ==> reply.status@ == "failed"@ && (
                verdict.failure_code is Some <==> reply.code is Some)
                &&& !verdict.succeeded && reply.code is Some ==> verdict.failure_code->Some_0@
                    == reply.code->Some_0@
                &&& verdict.psp_ref is Some <==> reply.psp_ref is Some
                &&& reply.psp_ref is Some ==> verdict.psp_ref->Some_0@ == reply.psp_ref->Some_0@
            },
            PayAction::Answer(Ok(told)) => {
                &&& reply.status@ != "succeeded"@ && reply.status@ != "failed"@
                &&& told.status == 202
            },
            _ => false,
        },
{
    status_texts_differ();
}

}
