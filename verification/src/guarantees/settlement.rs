//! Settlement: the outcome of a charge, as the client, the receivers and the
//! books are told it.
use vstd::prelude::*;

use crate::error::ApiError;
use crate::guarantees::answers::{same_optional, tells, text_or_null};
use crate::guarantees::payments::{replays, says_processing};
use crate::ids::{uuid_text, uuid_text_is_injective, Uuid};
use crate::ledger::status_texts_differ;
use crate::models::{copy_optional, PaymentResponse, PspReply};
use crate::services::payments::Verdict;
use crate::services::settlement::{
    awaits, finalize_payment, settlement, AttemptRow, SettleAction, SettleEvent, SettleStage,
    Settlement,
};
use crate::text::{
    json_optional, json_optional_ends_itself, json_string, json_string_ends_itself, opt_text,
};

verus! {

/// What an outcome says.
pub struct Outcome {
    pub failure_code: Option<String>,
    pub invoice_id: Uuid,
    pub invoice_status: Seq<char>,
    pub payment_attempt_id: Uuid,
    pub payment_status: Seq<char>,
    pub psp_ref: Option<String>,
}

/// Whether a text is the JSON document of an outcome: the members by their names,
/// each with its own value.
pub open spec fn is_document(body: Seq<char>, outcome: Outcome) -> bool {
    body == "{\"failure_code\":"@ + text_or_null(outcome.failure_code) + ",\"invoice_id\":"@
        + json_string(uuid_text(outcome.invoice_id)) + ",\"invoice_status\":"@ + json_string(
        outcome.invoice_status,
    ) + ",\"payment_attempt_id\":"@ + json_string(uuid_text(outcome.payment_attempt_id))
        + ",\"payment_status\":"@ + json_string(outcome.payment_status) + ",\"psp_ref\":"@
        + text_or_null(outcome.psp_ref) + "}"@
}

/// The outcome that a response tells.
pub open spec fn told_by(response: PaymentResponse) -> Outcome {
    Outcome {
        failure_code: response.failure_code,
        invoice_id: response.invoice_id,
        invoice_status: response.invoice_status@,
        payment_attempt_id: response.payment_attempt_id,
        payment_status: response.payment_status@,
        psp_ref: response.psp_ref,
    }
}

/// The outcome of an attempt under a verdict. A success pays the invoice, a failure
/// leaves it open; `psp_ref` and the failure code are those of the verdict.
pub open spec fn outcome_of(attempt_id: Uuid, row: AttemptRow, verdict: Verdict) -> Outcome {
    Outcome {
        failure_code: verdict.failure_code,
        invoice_id: row.invoice_id,
        invoice_status: if verdict.succeeded {
            "paid"@
        } else {
            "open"@
        },
        payment_attempt_id: attempt_id,
        payment_status: if verdict.succeeded {
            "succeeded"@
        } else {
            "failed"@
        },
        psp_ref: verdict.psp_ref,
    }
}

/// The document of an outcome holds each member's own value.
pub proof fn document_holds_the_outcome(response: PaymentResponse, body: String)
    requires
        call_ensures(PaymentResponse::body, (&response,), body),
    ensures
        is_document(body@, told_by(response)),
{
}

/// The document of an outcome determines the outcome: two outcomes with the same
/// document have the same failure code, reference, statuses and ids.
pub proof fn document_tells_the_outcome(
    a: PaymentResponse,
    body_a: String,
    b: PaymentResponse,
    body_b: String,
)
    requires
        call_ensures(PaymentResponse::body, (&a,), body_a),
        call_ensures(PaymentResponse::body, (&b,), body_b),
        body_a@ == body_b@,
    ensures
        a.failure_code is Some <==> b.failure_code is Some,
        a.failure_code is Some ==> a.failure_code->Some_0@ == b.failure_code->Some_0@,
        a.psp_ref is Some <==> b.psp_ref is Some,
        a.psp_ref is Some ==> a.psp_ref->Some_0@ == b.psp_ref->Some_0@,
        a.invoice_id == b.invoice_id,
        a.payment_attempt_id == b.payment_attempt_id,
        a.invoice_status@ == b.invoice_status@,
        a.payment_status@ == b.payment_status@,
{
    outcomes_are_alike(told_by(a), told_by(b), body_a@);
}

proof fn moved(a: Seq<char>, b: Seq<char>, c: Seq<char>)
    ensures
        (a + b) + c == a + (b + c),
{
    assert((a + b) + c =~= a + (b + c));
}

/// The document of an outcome, put together from its end.
proof fn document_from_its_end(outcome: Outcome, body: Seq<char>)
    requires
        is_document(body, outcome),
    ensures
        body == "{\"failure_code\":"@ + (json_optional(opt_text(outcome.failure_code)) + (
        ",\"invoice_id\":"@ + (json_string(uuid_text(outcome.invoice_id)) + (
        ",\"invoice_status\":"@ + (json_string(outcome.invoice_status) + (
        ",\"payment_attempt_id\":"@ + (json_string(uuid_text(outcome.payment_attempt_id)) + (
        ",\"payment_status\":"@ + (json_string(outcome.payment_status) + (",\"psp_ref\":"@ + (
        json_optional(opt_text(outcome.psp_ref)) + "}"@))))))))))),
{
    let p1 = "{\"failure_code\":"@;
    let p2 = json_optional(opt_text(outcome.failure_code));
    let p3 = ",\"invoice_id\":"@;
    let p4 = json_string(uuid_text(outcome.invoice_id));
    let p5 = ",\"invoice_status\":"@;
    let p6 = json_string(outcome.invoice_status);
    let p7 = ",\"payment_attempt_id\":"@;
    let p8 = json_string(uuid_text(outcome.payment_attempt_id));
    let p9 = ",\"payment_status\":"@;
    let p10 = json_string(outcome.payment_status);
    let p11 = ",\"psp_ref\":"@;
    let p12 = json_optional(opt_text(outcome.psp_ref));
    let q12 = p12 + "}"@;
    let q11 = p11 + q12;
    let q10 = p10 + q11;
    let q9 = p9 + q10;
    let q8 = p8 + q9;
    let q7 = p7 + q8;
    let q6 = p6 + q7;
    let q5 = p5 + q6;
    let q4 = p4 + q5;
    let q3 = p3 + q4;
    moved(p1 + p2 + p3 + p4 + p5 + p6 + p7 + p8 + p9 + p10 + p11, p12, "}"@);
    moved(p1 + p2 + p3 + p4 + p5 + p6 + p7 + p8 + p9 + p10, p11, q12);
    moved(p1 + p2 + p3 + p4 + p5 + p6 + p7 + p8 + p9, p10, q11);
    moved(p1 + p2 + p3 + p4 + p5 + p6 + p7 + p8, p9, q10);
    moved(p1 + p2 + p3 + p4 + p5 + p6 + p7, p8, q9);
    moved(p1 + p2 + p3 + p4 + p5 + p6, p7, q8);
    moved(p1 + p2 + p3 + p4 + p5, p6, q7);
    moved(p1 + p2 + p3 + p4, p5, q6);
    moved(p1 + p2 + p3, p4, q5);
    moved(p1 + p2, p3, q4);
    moved(p1, p2, q3);
}

proof fn outcomes_are_alike(a: Outcome, b: Outcome, body: Seq<char>)
    requires
        is_document(body, a),
        is_document(body, b),
    ensures
        same_optional(a.failure_code, b.failure_code),
        same_optional(a.psp_ref, b.psp_ref),
        a.invoice_id == b.invoice_id,
        a.payment_attempt_id == b.payment_attempt_id,
        a.invoice_status == b.invoice_status,
        a.payment_status == b.payment_status,
{
    let (name1, name2, name3) = (
        "{\"failure_code\":"@,
        ",\"invoice_id\":"@,
        ",\"invoice_status\":"@,
    );
    let (name4, name5, name6) = (
        ",\"payment_attempt_id\":"@,
        ",\"payment_status\":"@,
        ",\"psp_ref\":"@,
    );
    let (id_a, id_b) = (uuid_text(a.invoice_id), uuid_text(b.invoice_id));
    let (own_a, own_b) = (uuid_text(a.payment_attempt_id), uuid_text(b.payment_attempt_id));
    let (code_a, code_b) = (opt_text(a.failure_code), opt_text(b.failure_code));
    let (ref_a, ref_b) = (opt_text(a.psp_ref), opt_text(b.psp_ref));
    let (six_a, six_b) = (
        name6 + (json_optional(ref_a) + "}"@),
        name6 + (json_optional(ref_b) + "}"@),
    );
    let (five_a, five_b) = (
        name5 + (json_string(a.payment_status) + six_a),
        name5 + (json_string(b.payment_status) + six_b),
    );
    let (four_a, four_b) = (
        name4 + (json_string(own_a) + five_a),
        name4 + (json_string(own_b) + five_b),
    );
    let (three_a, three_b) = (
        name3 + (json_string(a.invoice_status) + four_a),
        name3 + (json_string(b.invoice_status) + four_b),
    );
    let (two_a, two_b) = (
        name2 + (json_string(id_a) + three_a),
        name2 + (json_string(id_b) + three_b),
    );
    document_from_its_end(a, body);
    document_from_its_end(b, body);
    behind(name1, json_optional(code_a) + two_a, json_optional(code_b) + two_b);
    json_optional_ends_itself(code_a, code_b, two_a, two_b);
    behind(name2, json_string(id_a) + three_a, json_string(id_b) + three_b);
    json_string_ends_itself(id_a, id_b, three_a, three_b);
    uuid_text_is_injective(a.invoice_id, b.invoice_id);
    behind(
        name3,
        json_string(a.invoice_status) + four_a,
        json_string(b.invoice_status) + four_b,
    );
    json_string_ends_itself(a.invoice_status, b.invoice_status, four_a, four_b);
    behind(name4, json_string(own_a) + five_a, json_string(own_b) + five_b);
    json_string_ends_itself(own_a, own_b, five_a, five_b);
    uuid_text_is_injective(a.payment_attempt_id, b.payment_attempt_id);
    behind(
        name5,
        json_string(a.payment_status) + six_a,
        json_string(b.payment_status) + six_b,
    );
    json_string_ends_itself(a.payment_status, b.payment_status, six_a, six_b);
    behind(name6, json_optional(ref_a) + "}"@, json_optional(ref_b) + "}"@);
    json_optional_ends_itself(ref_a, ref_b, "}"@, "}"@);
}

/// What stands behind the same text is the same.
proof fn behind(name: Seq<char>, a: Seq<char>, b: Seq<char>)
    requires
        name + a == name + b,
    ensures
        a == b,
{
    let n = name.len() as int;
    assert((name + a).skip(n) == a);
    assert((name + b).skip(n) == b);
}

/// Whether a settlement is that of an attempt with a verdict. A success pays the
/// invoice, and is answered with 200; a failure leaves it open, and is answered
/// with 402. The reply, which is also the event's document, holds the provider's
/// own reference and failure code.
pub open spec fn writes(
    written: Settlement,
    attempt_id: Uuid,
    row: AttemptRow,
    verdict: Verdict,
) -> bool {
    &&& written.attempt_id == attempt_id
    &&& written.invoice_id == row.invoice_id
    &&& written.business_id == row.business_id
    &&& written.pays_invoice == verdict.succeeded
    &&& same_optional(written.psp_ref, verdict.psp_ref)
    &&& same_optional(written.failure_code, verdict.failure_code)
    &&& written.payment_status@ == if verdict.succeeded {
        "succeeded"@
    } else {
        "failed"@
    }
    &&& written.response_status == if verdict.succeeded {
        200
    } else {
        402int
    }
    &&& written.event_type@ == if verdict.succeeded {
        "invoice.paid"@
    } else {
        "invoice.payment_failed"@
    }
    &&& is_document(written.response_body@, outcome_of(attempt_id, row, verdict))
}

/// What is written for a verdict is the verdict.
pub proof fn settlement_writes_the_verdict(
    attempt_id: Uuid,
    row: AttemptRow,
    verdict: Verdict,
    written: Settlement,
)
    requires
        call_ensures(settlement, (attempt_id, &row, &verdict), written),
    ensures
        writes(written, attempt_id, row, verdict),
{
}

/// Two settlements of attempts with the same reply are of the same attempt on the
/// same invoice, under the same verdict. So what the client and the receivers read
/// are the failure code and the `psp_ref` that came with it.
pub proof fn settlement_tells_the_verdict(
    attempt_a: Uuid,
    row_a: AttemptRow,
    verdict_a: Verdict,
    written_a: Settlement,
    attempt_b: Uuid,
    row_b: AttemptRow,
    verdict_b: Verdict,
    written_b: Settlement,
)
    requires
        call_ensures(settlement, (attempt_a, &row_a, &verdict_a), written_a),
        call_ensures(settlement, (attempt_b, &row_b, &verdict_b), written_b),
        written_a.response_body@ == written_b.response_body@,
    ensures
        attempt_a == attempt_b,
        row_a.invoice_id == row_b.invoice_id,
        verdict_a.succeeded == verdict_b.succeeded,
        same_optional(verdict_a.failure_code, verdict_b.failure_code),
        same_optional(verdict_a.psp_ref, verdict_b.psp_ref),
{
    status_texts_differ();
    outcomes_are_alike(
        outcome_of(attempt_a, row_a, verdict_a),
        outcome_of(attempt_b, row_b, verdict_b),
        written_a.response_body@,
    );
}

/// Whether a settlement at a stage waits for an event.
pub open spec fn is_awaited(stage: SettleStage, event: SettleEvent) -> bool {
    match event {
        SettleEvent::DatabaseError(_) => !(stage is Done),
        SettleEvent::Succeeded => stage is Begin || stage is ReplayRollback || stage is Write
            || stage is Commit,
        SettleEvent::Attempt(_) => stage is Attempt,
        SettleEvent::Record(_) => stage is Record,
    }
}

/// Whether an event is awaited is told, and an awaited event can be handed in.
pub proof fn awaited_events_are_taken(
    attempt_id: Uuid,
    verdict: Verdict,
    stage: SettleStage,
    event: SettleEvent,
    told: bool,
)
    requires
        call_ensures(awaits, (&stage, &event), told),
    ensures
        told <==> is_awaited(stage, event),
        told ==> call_requires(finalize_payment, (attempt_id, &verdict, stage, event)),
{
}

/// Whether a settlement ends with a refusal.
pub open spec fn ends_refused(
    next: (SettleStage, SettleAction),
    status: int,
    code: Seq<char>,
    message: Seq<char>,
) -> bool {
    &&& next.0 is Done
    &&& next.1 matches SettleAction::Answer(Err(error)) && tells(error, status, code, message)
}

/// What follows in a settlement: an event at a stage, and the next stage with the
/// next action.
pub open spec fn follows(
    attempt_id: Uuid,
    verdict: Verdict,
    stage: SettleStage,
    event: SettleEvent,
    next: (SettleStage, SettleAction),
) -> bool {
    match (stage, event) {
        (_, SettleEvent::DatabaseError(detail)) => {
            &&& next.0 is Done
            &&& next.1 matches SettleAction::Answer(Err(ApiError::Database(told))) && told@
                == detail@
        },
        (SettleStage::Begin, _) => next.0 is Attempt && next.1 is SelectAttempt,
        (SettleStage::Attempt, SettleEvent::Attempt(None)) => ends_refused(
            next,
            404,
            "payment_attempt_not_found"@,
            "payment attempt not found"@,
        ),
        (SettleStage::Attempt, SettleEvent::Attempt(Some(row))) => {
            if row.status@ != "pending"@ {
                next.0 is Record && next.1 is SelectRecord
            } else if verdict.succeeded && row.invoice_status@ != "open"@ {
                ends_refused(next, 409, "invoice_not_payable"@, "invoice is no longer open"@)
            } else {
                &&& next.1 matches SettleAction::Write(written) && writes(
                    written,
                    attempt_id,
                    row,
                    verdict,
                ) && (next.0 matches SettleStage::Write { reply } && reply.status
                    == written.response_status && reply.body@ == written.response_body@)
            }
        },
        (SettleStage::Record, SettleEvent::Record(record)) => {
            &&& next.0 matches SettleStage::ReplayRollback { reply } && match record {
                Some(record) => replays(record, reply),
                None => says_processing(reply, Some(attempt_id)),
            }
            &&& next.1 is Rollback
        },
        (SettleStage::ReplayRollback { reply }, SettleEvent::Succeeded) => {
            &&& next.0 is Done
            &&& next.1 matches SettleAction::Answer(Ok(told)) && told.status == reply.status
                && told.body@ == reply.body@
        },
        (SettleStage::Write { reply }, SettleEvent::Succeeded) => {
            &&& next.0 matches SettleStage::Commit { reply: kept } && kept.status
                == reply.status && kept.body@ == reply.body@
            &&& next.1 is Commit
        },
        (SettleStage::Commit { reply }, SettleEvent::Succeeded) => {
            &&& next.0 is Done
            &&& next.1 matches SettleAction::Answer(Ok(told)) && told.status == reply.status
                && told.body@ == reply.body@
        },
        _ => true,
    }
}

/// Each step of a settlement is the one that follows.
pub proof fn settlement_takes_the_step_that_follows(
    attempt_id: Uuid,
    verdict: Verdict,
    stage: SettleStage,
    event: SettleEvent,
    next: (SettleStage, SettleAction),
)
    requires
        is_awaited(stage, event),
        call_ensures(finalize_payment, (attempt_id, &verdict, stage, event), next),
    ensures
        follows(attempt_id, verdict, stage, event, next),
{
}

/// A copy of an optional text, and of a reply of the provider, is the same.
pub proof fn copies_are_alike(
    value: Option<String>,
    copy: Option<String>,
    reply: PspReply,
    reply_copy: PspReply,
)
    requires
        call_ensures(copy_optional, (&value,), copy),
        call_ensures(PspReply::clone, (&reply,), reply_copy),
    ensures
        same_optional(copy, value),
        reply_copy.status@ == reply.status@,
        same_optional(reply_copy.psp_ref, reply.psp_ref),
        same_optional(reply_copy.code, reply.code),
{
}

/// The reply to a settled attempt, and the event for it, start with the failure
/// code that the charge failed with, as a JSON string; where there is none they say
/// `null`. And they end with the provider's `psp_ref` in the same way.
pub proof fn settlement_tells_the_failure_code(
    attempt_id: Uuid,
    row: AttemptRow,
    verdict: Verdict,
    written: Settlement,
)
    requires
        call_ensures(settlement, (attempt_id, &row, &verdict), written),
    ensures
        verdict.failure_code matches Some(code) ==> ("{\"failure_code\":"@ + json_string(code@)
            + ",\"invoice_id\":"@).is_prefix_of(written.response_body@),
        verdict.failure_code is None ==> ("{\"failure_code\":"@ + "null"@
            + ",\"invoice_id\":"@).is_prefix_of(written.response_body@),
        verdict.psp_ref matches Some(psp_ref) ==> (",\"psp_ref\":"@ + json_string(psp_ref@)
            + "}"@).is_suffix_of(written.response_body@),
        verdict.psp_ref is None ==> (",\"psp_ref\":"@ + "null"@ + "}"@).is_suffix_of(
            written.response_body@,
        ),
{
    let outcome = outcome_of(attempt_id, row, verdict);
    let body = written.response_body@;
    let (name1, name2, name6) = ("{\"failure_code\":"@, ",\"invoice_id\":"@, ",\"psp_ref\":"@);
    let code = text_or_null(verdict.failure_code);
    let psp_ref = text_or_null(verdict.psp_ref);
    document_from_its_end(outcome, body);
    starts_with(name1, code, name2, json_string(uuid_text(row.invoice_id)) + (
    ",\"invoice_status\":"@ + (json_string(outcome.invoice_status) + (",\"payment_attempt_id\":"@
        + (json_string(uuid_text(attempt_id)) + (",\"payment_status\":"@ + (json_string(
        outcome.payment_status,
    ) + (name6 + (psp_ref + "}"@)))))))));
    let front = "{\"failure_code\":"@ + code + ",\"invoice_id\":"@ + json_string(
        uuid_text(row.invoice_id),
    ) + ",\"invoice_status\":"@ + json_string(outcome.invoice_status)
        + ",\"payment_attempt_id\":"@ + json_string(uuid_text(attempt_id))
        + ",\"payment_status\":"@ + json_string(outcome.payment_status);
    ends_with(front, name6, psp_ref, "}"@);
}

proof fn starts_with(a: Seq<char>, b: Seq<char>, c: Seq<char>, rest: Seq<char>)
    ensures
        (a + b + c).is_prefix_of(a + (b + (c + rest))),
{
    assert(a + (b + (c + rest)) =~= (a + b + c) + rest);
    assert(((a + b + c) + rest).subrange(0, (a + b + c).len() as int) =~= a + b + c);
}

proof fn ends_with(front: Seq<char>, a: Seq<char>, b: Seq<char>, c: Seq<char>)
    ensures
        (a + b + c).is_suffix_of(front + a + b + c),
{
    let text = front + a + b + c;
    assert(text =~= front + (a + b + c));
    assert(text.subrange(front.len() as int, text.len() as int) =~= a + b + c);
}

}
