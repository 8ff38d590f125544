//! Settlement: what happens to a payment attempt once the provider's verdict
//! is known.
use vstd::prelude::*;
use vstd::string::*;

use crate::error::{client_error, ApiError, ErrorView};
use crate::http::{HttpReply, ReplyView, CONFLICT, NOT_FOUND, OK, PAYMENT_REQUIRED};
use crate::ids::Uuid;
use crate::models::{copy_optional, payment_body, PaymentResponse, PaymentView};
use crate::services::payments::{
    answer_view, opt_record, processing_reply_view, processing_response, record_reply_view,
    response_from_idempotency_record, IdempotencyRecord, RecordView, Verdict, VerdictView,
};
use crate::text::{opt_text, same_text};

verus! {

/// A payment attempt with its invoice, as the database has them.
#[derive(Debug)]
pub struct AttemptRow {
    pub status: String,
    pub invoice_id: Uuid,
    pub business_id: Uuid,
    pub invoice_status: String,
}

/// What an attempt row says.
pub struct AttemptRowView {
    pub status: Seq<char>,
    pub invoice_id: Uuid,
    pub business_id: Uuid,
    pub invoice_status: Seq<char>,
}

impl View for AttemptRow {
    type V = AttemptRowView;

    open spec fn view(&self) -> AttemptRowView {
        AttemptRowView {
            status: self.status@,
            invoice_id: self.invoice_id,
            business_id: self.business_id,
            invoice_status: self.invoice_status@,
        }
    }
}

/// The view of an optional attempt row.
pub open spec fn opt_attempt_row(row: Option<AttemptRow>) -> Option<AttemptRowView> {
    match row {
        Some(row) => Some(row@),
        None => None,
    }
}

/// All that a settlement writes, in one transaction: the attempt's status,
/// reference and failure code; the invoice's status, where it is paid; the
/// reply under the idempotency key; and an event for the business.
#[derive(Debug)]
pub struct Settlement {
    pub attempt_id: Uuid,
    pub invoice_id: Uuid,
    pub business_id: Uuid,
    pub payment_status: &'static str,
    pub pays_invoice: bool,
    pub psp_ref: Option<String>,
    pub failure_code: Option<String>,
    pub response_status: u16,
    pub response_body: String,
    pub event_type: &'static str,
}

/// What a settlement says.
pub struct SettlementView {
    pub attempt_id: Uuid,
    pub invoice_id: Uuid,
    pub business_id: Uuid,
    pub payment_status: Seq<char>,
    pub pays_invoice: bool,
    pub psp_ref: Option<Seq<char>>,
    pub failure_code: Option<Seq<char>>,
    pub response_status: u16,
    pub response_body: Seq<char>,
    pub event_type: Seq<char>,
}

impl View for Settlement {
    type V = SettlementView;

    open spec fn view(&self) -> SettlementView {
        SettlementView {
            attempt_id: self.attempt_id,
            invoice_id: self.invoice_id,
            business_id: self.business_id,
            payment_status: self.payment_status@,
            pays_invoice: self.pays_invoice,
            psp_ref: opt_text(self.psp_ref),
            failure_code: opt_text(self.failure_code),
            response_status: self.response_status,
            response_body: self.response_body@,
            event_type: self.event_type@,
        }
    }
}

/// What the settlement of a pending attempt writes. The reply under the
/// idempotency key and the event carry the same body.
pub open spec fn settlement_view(
    attempt_id: Uuid,
    row: AttemptRowView,
    verdict: VerdictView,
) -> SettlementView {
    let payment_status = if verdict.succeeded {
        "succeeded"@
    } else {
        "failed"@
    };
    SettlementView {
        attempt_id,
        invoice_id: row.invoice_id,
        business_id: row.business_id,
        payment_status,
        pays_invoice: verdict.succeeded,
        psp_ref: verdict.psp_ref,
        failure_code: verdict.failure_code,
        response_status: if verdict.succeeded {
            OK
        } else {
            PAYMENT_REQUIRED
        },
        response_body: payment_body(
            PaymentView {
                invoice_id: row.invoice_id,
                payment_attempt_id: attempt_id,
                payment_status,
                invoice_status: if verdict.succeeded {
                    "paid"@
                } else {
                    "open"@
                },
                psp_ref: verdict.psp_ref,
                failure_code: verdict.failure_code,
            },
        ),
        event_type: if verdict.succeeded {
            "invoice.paid"@
        } else {
            "invoice.payment_failed"@
        },
    }
}

/// The reply that a settlement is answered with.
pub open spec fn settlement_reply(settlement: SettlementView) -> ReplyView {
    ReplyView { status: settlement.response_status, body: settlement.response_body }
}

/// How far a settlement is: which answer it waits for.
#[derive(Debug)]
pub enum SettleStage {
    Begin,
    Attempt,
    Record,
    ReplayRollback { reply: HttpReply },
    Write { reply: HttpReply },
    Commit { reply: HttpReply },
    Done,
}

/// What a stage says.
pub enum SettleStageView {
    Begin,
    Attempt,
    Record,
    ReplayRollback { reply: ReplyView },
    Write { reply: ReplyView },
    Commit { reply: ReplyView },
    Done,
}

impl View for SettleStage {
    type V = SettleStageView;

    open spec fn view(&self) -> SettleStageView {
        match *self {
            SettleStage::Begin => SettleStageView::Begin,
            SettleStage::Attempt => SettleStageView::Attempt,
            SettleStage::Record => SettleStageView::Record,
            SettleStage::ReplayRollback { reply } => SettleStageView::ReplayRollback {
                reply: reply@,
            },
            SettleStage::Write { reply } => SettleStageView::Write { reply: reply@ },
            SettleStage::Commit { reply } => SettleStageView::Commit { reply: reply@ },
            SettleStage::Done => SettleStageView::Done,
        }
    }
}

/// What came of the last action of a settlement.
#[derive(Debug)]
pub enum SettleEvent {
    /// The database did what it was asked.
    Succeeded,
    /// The attempt with its invoice, where there is one.
    Attempt(Option<AttemptRow>),
    /// The row of the attempt's idempotency key, where there is one.
    Record(Option<IdempotencyRecord>),
    /// The database failed.
    DatabaseError(String),
}

/// What an event says.
pub enum SettleEventView {
    Succeeded,
    Attempt(Option<AttemptRowView>),
    Record(Option<RecordView>),
    DatabaseError(Seq<char>),
}

impl View for SettleEvent {
    type V = SettleEventView;

    open spec fn view(&self) -> SettleEventView {
        match *self {
            SettleEvent::Succeeded => SettleEventView::Succeeded,
            SettleEvent::Attempt(row) => SettleEventView::Attempt(opt_attempt_row(row)),
            SettleEvent::Record(record) => SettleEventView::Record(opt_record(record)),
            SettleEvent::DatabaseError(detail) => SettleEventView::DatabaseError(detail@),
        }
    }
}

/// What a settlement does next.
#[derive(Debug)]
pub enum SettleAction {
    /// Begin a transaction.
    Begin,
    /// Lock the attempt and its invoice, and read them.
    SelectAttempt,
    /// Read the row of the attempt's idempotency key.
    SelectRecord,
    /// Write the settlement.
    Write(Settlement),
    Rollback,
    Commit,
    /// Answer.
    Answer(Result<HttpReply, ApiError>),
}

/// What an action says.
pub enum SettleActionView {
    Begin,
    SelectAttempt,
    SelectRecord,
    Write(SettlementView),
    Rollback,
    Commit,
    Answer(Result<ReplyView, ErrorView>),
}

impl View for SettleAction {
    type V = SettleActionView;

    open spec fn view(&self) -> SettleActionView {
        match *self {
            SettleAction::Begin => SettleActionView::Begin,
            SettleAction::SelectAttempt => SettleActionView::SelectAttempt,
            SettleAction::SelectRecord => SettleActionView::SelectRecord,
            SettleAction::Write(settlement) => SettleActionView::Write(settlement@),
            SettleAction::Rollback => SettleActionView::Rollback,
            SettleAction::Commit => SettleActionView::Commit,
            SettleAction::Answer(answer) => SettleActionView::Answer(answer_view(answer)),
        }
    }
}

/// Whether an event can be what a stage waits for.
pub open spec fn settle_awaits(stage: SettleStageView, event: SettleEventView) -> bool {
    match stage {
        SettleStageView::Begin
        | SettleStageView::ReplayRollback { .. }
        | SettleStageView::Write { .. }
        | SettleStageView::Commit { .. } => event is Succeeded || event is DatabaseError,
        SettleStageView::Attempt => event is Attempt || event is DatabaseError,
        SettleStageView::Record => event is Record || event is DatabaseError,
        SettleStageView::Done => false,
    }
}

/// Whether an event can be what a stage waits for.
pub fn awaits(stage: &SettleStage, event: &SettleEvent) -> (result: bool)
    ensures
        result == settle_awaits(stage@, event@),
{
    match (stage, event) {
        (SettleStage::Done, _) => false,
        (_, SettleEvent::DatabaseError(_)) => true,
        (SettleStage::Attempt, SettleEvent::Attempt(_)) => true,
        (SettleStage::Attempt, _) => false,
        (SettleStage::Record, SettleEvent::Record(_)) => true,
        (SettleStage::Record, _) => false,
        (_, SettleEvent::Succeeded) => true,
        _ => false,
    }
}

/// The error for an attempt that there is not.
pub open spec fn attempt_not_found_view() -> ErrorView {
    client_error(NOT_FOUND, "payment_attempt_not_found"@, "payment attempt not found"@)
}

/// The error for a success on an invoice that is not open.
pub open spec fn no_longer_open_view() -> ErrorView {
    client_error(CONFLICT, "invoice_not_payable"@, "invoice is no longer open"@)
}

/// The end of a settlement.
pub open spec fn settle_answered(answer: Result<ReplyView, ErrorView>) -> (
    SettleStageView,
    SettleActionView,
) {
    (SettleStageView::Done, SettleActionView::Answer(answer))
}

/// The next stage and action of the settlement of an attempt.
pub open spec fn next_settlement(
    attempt_id: Uuid,
    verdict: VerdictView,
    stage: SettleStageView,
    event: SettleEventView,
) -> (SettleStageView, SettleActionView) {
    match (stage, event) {
        (_, SettleEventView::DatabaseError(detail)) => settle_answered(
            Err(ErrorView::Database(detail)),
        ),
        (SettleStageView::Begin, _) => (SettleStageView::Attempt, SettleActionView::SelectAttempt),
        (SettleStageView::Attempt, SettleEventView::Attempt(None)) => settle_answered(
            Err(attempt_not_found_view()),
        ),
        (SettleStageView::Attempt, SettleEventView::Attempt(Some(row))) => if row.status
            != "pending"@ {
            (SettleStageView::Record, SettleActionView::SelectRecord)
        } else if verdict.succeeded && row.invoice_status != "open"@ {
            settle_answered(Err(no_longer_open_view()))
        } else {
            let settlement = settlement_view(attempt_id, row, verdict);
            (
                SettleStageView::Write { reply: settlement_reply(settlement) },
                SettleActionView::Write(settlement),
            )
        },
        (SettleStageView::Record, SettleEventView::Record(record)) => (
            SettleStageView::ReplayRollback {
                reply: match record {
                    Some(record) => record_reply_view(record),
                    None => processing_reply_view(Some(attempt_id)),
                },
            },
            SettleActionView::Rollback,
        ),
        (SettleStageView::ReplayRollback { reply }, _) => settle_answered(Ok(reply)),
        (SettleStageView::Write { reply }, _) => (
            SettleStageView::Commit { reply },
            SettleActionView::Commit,
        ),
        (SettleStageView::Commit { reply }, _) => settle_answered(Ok(reply)),
        (_, _) => arbitrary(),
    }
}

/// What the settlement of a pending attempt writes.
pub fn settlement(attempt_id: Uuid, row: &AttemptRow, verdict: &Verdict) -> (result: Settlement)
    ensures
        result@ == settlement_view(attempt_id, row@, verdict@),
{
    let payment_status = if verdict.succeeded {
        "succeeded"
    } else {
        "failed"
    };
    let invoice_status = if verdict.succeeded {
        "paid"
    } else {
        "open"
    };
    let response = PaymentResponse {
        invoice_id: row.invoice_id,
        payment_attempt_id: attempt_id,
        payment_status: payment_status.to_owned(),
        invoice_status: invoice_status.to_owned(),
        psp_ref: copy_optional(&verdict.psp_ref),
        failure_code: copy_optional(&verdict.failure_code),
    };
    Settlement {
        attempt_id,
        invoice_id: row.invoice_id,
        business_id: row.business_id,
        payment_status,
        pays_invoice: verdict.succeeded,
        psp_ref: copy_optional(&verdict.psp_ref),
        failure_code: copy_optional(&verdict.failure_code),
        response_status: if verdict.succeeded {
            OK
        } else {
            PAYMENT_REQUIRED
        },
        response_body: response.body(),
        event_type: if verdict.succeeded {
            "invoice.paid"
        } else {
            "invoice.payment_failed"
        },
    }
}

/// A copy of a settlement's reply.
fn reply_to(settlement: &Settlement) -> (result: HttpReply)
    ensures
        result@ == settlement_reply(settlement@),
{
    HttpReply {
        status: settlement.response_status,
        body: settlement.response_body.as_str().to_owned(),
    }
}

/// The next stage and action of the settlement of an attempt.
pub fn finalize_payment(
    attempt_id: Uuid,
    verdict: &Verdict,
    stage: SettleStage,
    event: SettleEvent,
) -> (result: (SettleStage, SettleAction))
    requires
        settle_awaits(stage@, event@),
    ensures
        (result.0@, result.1@) == next_settlement(attempt_id, verdict@, stage@, event@),
{
    match (stage, event) {
        (_, SettleEvent::DatabaseError(detail)) => (
            SettleStage::Done,
            SettleAction::Answer(Err(ApiError::db(detail))),
        ),
        (SettleStage::Begin, _) => (SettleStage::Attempt, SettleAction::SelectAttempt),
        (SettleStage::Attempt, SettleEvent::Attempt(Some(row))) => {
            if !same_text(row.status.as_str(), "pending") {
                (SettleStage::Record, SettleAction::SelectRecord)
            } else if verdict.succeeded && !same_text(row.invoice_status.as_str(), "open") {
                (
                    SettleStage::Done,
                    SettleAction::Answer(
                        Err(
                            ApiError::client(
                                CONFLICT,
                                "invoice_not_payable",
                                "invoice is no longer open",
                            ),
                        ),
                    ),
                )
            } else {
                let settlement = settlement(attempt_id, &row, verdict);
                let reply = reply_to(&settlement);
                (SettleStage::Write { reply }, SettleAction::Write(settlement))
            }
        },
        (SettleStage::Attempt, _) => (
            SettleStage::Done,
            SettleAction::Answer(
                Err(
                    ApiError::client(
                        NOT_FOUND,
                        "payment_attempt_not_found",
                        "payment attempt not found",
                    ),
                ),
            ),
        ),
        (SettleStage::Record, SettleEvent::Record(Some(record))) => (
            SettleStage::ReplayRollback { reply: response_from_idempotency_record(record) },
            SettleAction::Rollback,
        ),
        (SettleStage::Record, _) => (
            SettleStage::ReplayRollback { reply: processing_response(Some(attempt_id)) },
            SettleAction::Rollback,
        ),
        (SettleStage::ReplayRollback { reply }, _) => (
            SettleStage::Done,
            SettleAction::Answer(Ok(reply)),
        ),
        (SettleStage::Write { reply }, _) => (SettleStage::Commit { reply }, SettleAction::Commit),
        (SettleStage::Commit { reply }, _) => (SettleStage::Done, SettleAction::Answer(Ok(reply))),
        (SettleStage::Done, _) => (SettleStage::Done, SettleAction::Rollback),
    }
}

}
