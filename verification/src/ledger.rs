//! A model of the books: the invoices, payment attempts, idempotency keys and
//! events that the database holds, what the payment and settlement workflows
//! make of them, and what holds of them whatever happens.
use vstd::prelude::*;

use crate::error::ErrorView;
use crate::http::{ReplyView, ACCEPTED, OK, PAYMENT_REQUIRED};
use crate::ids::Uuid;
use crate::models::{payment_body, LineItemView, PaymentView, PspReplyView};
use crate::services::invoices::{created_payload, DraftView};
use crate::services::payments::{
    already_paid_view, invoice_not_found_view, invoice_status, key_reused_view, next_payment,
    payment_in_progress_view, processing_reply_view, record_answer, record_reply_view,
    request_fingerprint, InvoiceStatus, PayActionView, PayEventView, PayStageView,
    RecordView, RequestView, VerdictView,
};
use crate::services::recovery::{
    counts_as_failure, given_up_view, recovered, ChargeEventView, PendingAttempt,
    RecoveryActionView, RECOVERY_LIMIT,
};
use crate::services::settlement::{
    attempt_not_found_view, next_settlement, no_longer_open_view, settlement_reply,
    settlement_view, AttemptRowView, SettleActionView, SettleEventView, SettleStageView,
    SettlementView,
};

verus! {

// The books.

/// How far a payment attempt is.
pub enum AttemptState {
    Pending,
    Succeeded,
    Failed,
}

/// An invoice in the books, with its lines in the order in which they were
/// entered.
pub struct InvoiceEntry {
    pub business_id: Uuid,
    pub customer_id: Uuid,
    pub currency: Seq<char>,
    pub total_cents: i64,
    pub due_date: i32,
    pub created_at: i64,
    pub line_items: Seq<LineItemView>,
    pub paid: bool,
}

/// A payment attempt in the books.
pub struct AttemptEntry {
    pub invoice_id: Uuid,
    pub card_token: Seq<char>,
    pub state: AttemptState,
    pub psp_ref: Option<Seq<char>>,
    pub failure_code: Option<Seq<char>>,
}

/// A webhook endpoint in the books.
pub struct EndpointEntry {
    pub business_id: Uuid,
    pub url: Seq<char>,
    pub secret_ciphertext: Seq<char>,
    pub active: bool,
    pub created_at: i64,
}

/// An event in the outbox.
pub struct EventEntry {
    pub business_id: Uuid,
    pub event_type: Seq<char>,
    pub payload: Seq<char>,
}

/// The books.
pub struct Ledger {
    pub invoices: Map<Uuid, InvoiceEntry>,
    pub attempts: Map<Uuid, AttemptEntry>,
    pub keys: Map<(Uuid, Seq<char>), RecordView>,
    pub events: Seq<EventEntry>,
    pub endpoints: Map<Uuid, EndpointEntry>,
}

/// The status text of an invoice.
pub open spec fn invoice_text(paid: bool) -> Seq<char> {
    if paid {
        "paid"@
    } else {
        "open"@
    }
}

/// The status text of an attempt.
pub open spec fn attempt_text(state: AttemptState) -> Seq<char> {
    match state {
        AttemptState::Pending => "pending"@,
        AttemptState::Succeeded => "succeeded"@,
        AttemptState::Failed => "failed"@,
    }
}

/// The state that a verdict leads to.
pub open spec fn settled_state(verdict: VerdictView) -> AttemptState {
    if verdict.succeeded {
        AttemptState::Succeeded
    } else {
        AttemptState::Failed
    }
}

/// The books before anything happened.
pub open spec fn empty_ledger() -> Ledger {
    Ledger {
        invoices: Map::empty(),
        attempts: Map::empty(),
        keys: Map::empty(),
        events: Seq::empty(),
        endpoints: Map::empty(),
    }
}

impl Ledger {
    /// Whether an attempt is pending on an invoice.
    pub open spec fn pending_on(self, attempt_id: Uuid, invoice_id: Uuid) -> bool {
        &&& self.attempts.contains_key(attempt_id)
        &&& self.attempts[attempt_id].state is Pending
        &&& self.attempts[attempt_id].invoice_id == invoice_id
    }

    /// The invoice's pending attempt, where there is one.
    pub open spec fn pending(self, invoice_id: Uuid) -> Option<Uuid> {
        if exists|id: Uuid| self.pending_on(id, invoice_id) {
            Some(choose|id: Uuid| self.pending_on(id, invoice_id))
        } else {
            None
        }
    }

    /// The business's invoice, where there is one.
    pub open spec fn invoice(self, business_id: Uuid, invoice_id: Uuid) -> Option<InvoiceEntry> {
        if self.invoices.contains_key(invoice_id) && self.invoices[invoice_id].business_id
            == business_id {
            Some(self.invoices[invoice_id])
        } else {
            None
        }
    }

    /// The row of an idempotency key, where there is one.
    pub open spec fn record(self, business_id: Uuid, key: Seq<char>) -> Option<RecordView> {
        if self.keys.contains_key((business_id, key)) {
            Some(self.keys[(business_id, key)])
        } else {
            None
        }
    }

    /// Whether a key stands for an attempt.
    pub open spec fn stands_for(self, key: (Uuid, Seq<char>), attempt_id: Uuid) -> bool {
        self.keys.contains_key(key) && self.keys[key].payment_attempt_id == Some(attempt_id)
    }

    /// The row of the key that stands for an attempt, where there is one.
    pub open spec fn record_of(self, attempt_id: Uuid) -> Option<RecordView> {
        if exists|key: (Uuid, Seq<char>)| self.stands_for(key, attempt_id) {
            Some(self.keys[choose|key: (Uuid, Seq<char>)| self.stands_for(key, attempt_id)])
        } else {
            None
        }
    }

    /// The attempt with its invoice, as the database shows them.
    pub open spec fn row(self, attempt_id: Uuid) -> Option<AttemptRowView> {
        if self.attempts.contains_key(attempt_id) {
            let attempt = self.attempts[attempt_id];
            let invoice = self.invoices[attempt.invoice_id];
            Some(
                AttemptRowView {
                    status: attempt_text(attempt.state),
                    invoice_id: attempt.invoice_id,
                    business_id: invoice.business_id,
                    invoice_status: invoice_text(invoice.paid),
                },
            )
        } else {
            None
        }
    }

    /// The books with a new pending attempt.
    pub open spec fn with_attempt(self, request: RequestView, attempt_id: Uuid) -> Ledger {
        Ledger {
            attempts: self.attempts.insert(
                attempt_id,
                AttemptEntry {
                    invoice_id: request.invoice_id,
                    card_token: request.card_token,
                    state: AttemptState::Pending,
                    psp_ref: None,
                    failure_code: None,
                },
            ),
            ..self
        }
    }

    /// The books with a new idempotency key.
    pub open spec fn with_key(self, request: RequestView, attempt_id: Uuid) -> Ledger {
        Ledger {
            keys: self.keys.insert(
                (request.business_id, request.idempotency_key),
                RecordView {
                    request_hash: request.request_hash,
                    state: "processing"@,
                    payment_attempt_id: Some(attempt_id),
                    response_status: None,
                    response_body: None,
                },
            ),
            ..self
        }
    }

    /// The books with a settlement written.
    pub open spec fn with_settlement(self, settlement: SettlementView) -> Ledger {
        let attempt = self.attempts[settlement.attempt_id];
        let invoice = self.invoices[settlement.invoice_id];
        Ledger {
            attempts: self.attempts.insert(
                settlement.attempt_id,
                AttemptEntry {
                    state: if settlement.payment_status == "succeeded"@ {
                        AttemptState::Succeeded
                    } else {
                        AttemptState::Failed
                    },
                    psp_ref: settlement.psp_ref,
                    failure_code: settlement.failure_code,
                    ..attempt
                },
            ),
            invoices: if settlement.pays_invoice {
                self.invoices.insert(
                    settlement.invoice_id,
                    InvoiceEntry { paid: true, ..invoice },
                )
            } else {
                self.invoices
            },
            keys: self.keys.map_values(
                |record: RecordView|
                    if record.payment_attempt_id == Some(settlement.attempt_id) {
                        RecordView {
                            state: "completed"@,
                            response_status: Some(settlement.response_status as i32),
                            response_body: Some(settlement.response_body),
                            ..record
                        }
                    } else {
                        record
                    },
            ),
            events: self.events.push(
                EventEntry {
                    business_id: settlement.business_id,
                    event_type: settlement.event_type,
                    payload: settlement.response_body,
                },
            ),
            ..self
        }
    }
}

// What the workflows make of the books.

/// What comes of a payment request, up to the call of the provider.
pub enum Admission {
    Answered(Result<ReplyView, ErrorView>),
    Charged(Uuid),
}

/// The books after a payment request, and what came of it: where the business
/// has no such invoice, where the key is known, where the invoice is paid and
/// where a payment is under way, the request is answered and the books stay as
/// they are; otherwise an attempt is entered under the key, and charged.
pub open spec fn pay(ledger: Ledger, request: RequestView, fresh: Uuid) -> (Ledger, Admission) {
    match ledger.invoice(request.business_id, request.invoice_id) {
        None => (ledger, Admission::Answered(Err(invoice_not_found_view()))),
        Some(invoice) => match ledger.record(request.business_id, request.idempotency_key) {
            Some(record) => (ledger, Admission::Answered(record_answer(record, request))),
            None => if invoice.paid {
                (ledger, Admission::Answered(Err(already_paid_view())))
            } else if ledger.pending(request.invoice_id) is Some {
                (ledger, Admission::Answered(Err(payment_in_progress_view())))
            } else {
                (
                    ledger.with_attempt(request, fresh).with_key(request, fresh),
                    Admission::Charged(fresh),
                )
            },
        },
    }
}

/// The books after a verdict on an attempt, and the answer: a pending attempt
/// is settled, and a settled one is answered with what its key holds.
pub open spec fn settle(ledger: Ledger, attempt_id: Uuid, verdict: VerdictView) -> (
    Ledger,
    Result<ReplyView, ErrorView>,
) {
    match ledger.row(attempt_id) {
        None => (ledger, Err(attempt_not_found_view())),
        Some(row) => if !(ledger.attempts[attempt_id].state is Pending) {
            (
                ledger,
                Ok(
                    match ledger.record_of(attempt_id) {
                        Some(record) => record_reply_view(record),
                        None => processing_reply_view(Some(attempt_id)),
                    },
                ),
            )
        } else if verdict.succeeded && ledger.invoices[row.invoice_id].paid {
            (ledger, Err(no_longer_open_view()))
        } else {
            let settlement = settlement_view(attempt_id, row, verdict);
            (ledger.with_settlement(settlement), Ok(settlement_reply(settlement)))
        },
    }
}

/// What is entered for a new invoice: the draft, with a time and an id for each
/// of its lines.
pub open spec fn invoice_entry(
    business_id: Uuid,
    draft: DraftView,
    created_at: i64,
    line_ids: Seq<Uuid>,
) -> InvoiceEntry {
    InvoiceEntry {
        business_id,
        customer_id: draft.customer_id,
        currency: draft.currency,
        total_cents: draft.total_cents,
        due_date: draft.due_date,
        created_at,
        line_items: Seq::new(
            draft.line_items.len(),
            |i: int|
                LineItemView {
                    id: line_ids[i],
                    description: draft.line_items[i].description,
                    quantity: draft.line_items[i].quantity,
                    unit_amount_cents: draft.line_items[i].unit_amount_cents,
                    line_total_cents: draft.line_items[i].line_total_cents,
                },
        ),
        paid: false,
    }
}

/// The books with a new invoice, and the event for it.
pub open spec fn create_invoice(
    ledger: Ledger,
    business_id: Uuid,
    draft: DraftView,
    invoice_id: Uuid,
    created_at: i64,
    line_ids: Seq<Uuid>,
) -> Ledger {
    Ledger {
        invoices: ledger.invoices.insert(
            invoice_id,
            invoice_entry(business_id, draft, created_at, line_ids),
        ),
        events: ledger.events.push(
            EventEntry {
                business_id,
                event_type: "invoice.created"@,
                payload: created_payload(invoice_id, draft.total_cents),
            },
        ),
        ..ledger
    }
}

/// The books with a new webhook endpoint, which is active.
pub open spec fn create_endpoint(
    ledger: Ledger,
    business_id: Uuid,
    endpoint_id: Uuid,
    url: Seq<char>,
    secret_ciphertext: Seq<char>,
    created_at: i64,
) -> Ledger {
    Ledger {
        endpoints: ledger.endpoints.insert(
            endpoint_id,
            EndpointEntry { business_id, url, secret_ciphertext, active: true, created_at },
        ),
        ..ledger
    }
}

// The workflows, step by step, against the books.

/// What an open transaction has written and not committed yet.
pub enum Written {
    Nothing,
    Attempt(Uuid),
    AttemptAndKey(Uuid),
}

/// What a transaction sees: what is committed, and what it has written.
pub open spec fn seen(committed: Ledger, written: Written, request: RequestView) -> Ledger {
    match written {
        Written::Nothing => committed,
        Written::Attempt(id) => committed.with_attempt(request, id),
        Written::AttemptAndKey(id) => committed.with_attempt(request, id).with_key(request, id),
    }
}

/// What the database makes of an action of a payment: what is committed after it, what the
/// transaction has written, and the answer.
pub open spec fn perform_payment(
    committed: Ledger,
    written: Written,
    request: RequestView,
    action: PayActionView,
) -> (Ledger, Written, PayEventView) {
    let view = seen(committed, written, request);
    match action {
        PayActionView::SelectInvoice => (
            committed,
            written,
            PayEventView::Invoice(
                match view.invoice(request.business_id, request.invoice_id) {
                    Some(invoice) => Some(invoice_status(invoice_text(invoice.paid))),
                    None => None,
                },
            ),
        ),
        PayActionView::SelectRecord => (
            committed,
            written,
            PayEventView::Record(view.record(request.business_id, request.idempotency_key)),
        ),
        PayActionView::SelectPending => (
            committed,
            written,
            PayEventView::Pending(view.pending(request.invoice_id)),
        ),
        PayActionView::InsertAttempt(id) => (
            committed,
            Written::Attempt(id),
            PayEventView::Succeeded,
        ),
        PayActionView::InsertKey(id) => if committed.record(
            request.business_id,
            request.idempotency_key,
        ) is Some {
            (committed, written, PayEventView::KeyTaken)
        } else {
            (committed, Written::AttemptAndKey(id), PayEventView::Succeeded)
        },
        PayActionView::Commit => (view, Written::Nothing, PayEventView::Succeeded),
        _ => (committed, Written::Nothing, PayEventView::Succeeded),
    }
}

/// The run of a payment from a stage and an action, up to the answer or the
/// call of the provider, in so many steps at most.
pub open spec fn run_payment(
    committed: Ledger,
    written: Written,
    request: RequestView,
    stage: PayStageView,
    action: PayActionView,
    fresh: Uuid,
    steps: nat,
) -> (Ledger, PayActionView)
    decreases steps,
{
    if steps == 0 || action is Answer || action is PostCharge {
        (committed, action)
    } else {
        let (committed, written, event) = perform_payment(committed, written, request, action);
        let (stage, action) = next_payment(request, stage, event, fresh);
        run_payment(committed, written, request, stage, action, fresh, (steps - 1) as nat)
    }
}

/// What came of a payment request, as the last action of its run.
pub open spec fn admission_action(admission: Admission) -> PayActionView {
    match admission {
        Admission::Answered(answer) => PayActionView::Answer(answer),
        Admission::Charged(id) => PayActionView::PostCharge(id),
    }
}

/// The run of the payment workflow, alone with the books, does what `pay` says
/// of them: what is committed at its end, and what it ends in.
pub proof fn payment_runs_as_pay(ledger: Ledger, request: RequestView, fresh: Uuid)
    ensures
        run_payment(
            ledger,
            Written::Nothing,
            request,
            PayStageView::Begin,
            PayActionView::Begin,
            fresh,
            8,
        ) == (pay(ledger, request, fresh).0, admission_action(pay(ledger, request, fresh).1)),
{
    reveal_with_fuel(run_payment, 9);
    reveal_strlit("open");
    reveal_strlit("paid");
    assert("open"@.len() == 4 && "open"@[0] == 'o' && "paid"@[0] == 'p');
    let invoice = ledger.invoice(request.business_id, request.invoice_id);
    assert(invoice matches Some(entry) ==> (invoice_status(invoice_text(entry.paid))
        == InvoiceStatus::Paid <==> entry.paid));
}

/// A key can be taken by a request for another invoice while a payment is on
/// its way to enter it. Then the payment leaves no trace in the books, and is
/// answered from the winner's row: with its reply where the requests are the
/// same, and with a conflict where they are not.
pub proof fn lost_race_answers_from_the_winner(
    committed: Ledger,
    request: RequestView,
    attempt_id: Uuid,
)
    requires
        committed.record(request.business_id, request.idempotency_key) is Some,
    ensures
        run_payment(
            committed,
            Written::Attempt(attempt_id),
            request,
            PayStageView::Key { attempt_id },
            PayActionView::InsertKey(attempt_id),
            attempt_id,
            4,
        ) == (
            committed,
            PayActionView::Answer(
                record_answer(
                    committed.record(request.business_id, request.idempotency_key)->0,
                    request,
                ),
            ),
        ),
{
    reveal_with_fuel(run_payment, 5);
}

/// What the database makes of an action of a settlement, where its transaction
/// has written a settlement or nothing yet.
pub open spec fn perform_settlement(
    committed: Ledger,
    written: Option<SettlementView>,
    attempt_id: Uuid,
    action: SettleActionView,
) -> (Ledger, Option<SettlementView>, SettleEventView) {
    let view = match written {
        None => committed,
        Some(settlement) => committed.with_settlement(settlement),
    };
    match action {
        SettleActionView::SelectAttempt => (
            committed,
            written,
            SettleEventView::Attempt(view.row(attempt_id)),
        ),
        SettleActionView::SelectRecord => (
            committed,
            written,
            SettleEventView::Record(view.record_of(attempt_id)),
        ),
        SettleActionView::Write(settlement) => (
            committed,
            Some(settlement),
            SettleEventView::Succeeded,
        ),
        SettleActionView::Commit => (view, None, SettleEventView::Succeeded),
        _ => (committed, None, SettleEventView::Succeeded),
    }
}

/// The run of a settlement from a stage and an action, up to the answer, in so
/// many steps at most.
pub open spec fn run_settlement(
    committed: Ledger,
    written: Option<SettlementView>,
    attempt_id: Uuid,
    verdict: VerdictView,
    stage: SettleStageView,
    action: SettleActionView,
    steps: nat,
) -> (Ledger, SettleActionView)
    decreases steps,
{
    if steps == 0 || action is Answer {
        (committed, action)
    } else {
        let (committed, written, event) = perform_settlement(
            committed,
            written,
            attempt_id,
            action,
        );
        let (stage, action) = next_settlement(attempt_id, verdict, stage, event);
        run_settlement(
            committed,
            written,
            attempt_id,
            verdict,
            stage,
            action,
            (steps - 1) as nat,
        )
    }
}

/// The run of the settlement workflow does what `settle` says of the books.
pub proof fn settlement_runs_as_settle(ledger: Ledger, attempt_id: Uuid, verdict: VerdictView)
    ensures
        run_settlement(
            ledger,
            None,
            attempt_id,
            verdict,
            SettleStageView::Begin,
            SettleActionView::Begin,
            5,
        ) == (
            settle(ledger, attempt_id, verdict).0,
            SettleActionView::Answer(settle(ledger, attempt_id, verdict).1),
        ),
{
    reveal_with_fuel(run_settlement, 6);
    status_texts_differ();
}

/// The status texts tell the states apart.
pub proof fn status_texts_differ()
    ensures
        "open"@ != "paid"@,
        "pending"@ != "succeeded"@,
        "pending"@ != "failed"@,
        "succeeded"@ != "failed"@,
        "processing"@ != "completed"@,
{
    reveal_strlit("open");
    reveal_strlit("paid");
    reveal_strlit("pending");
    reveal_strlit("succeeded");
    reveal_strlit("failed");
    reveal_strlit("processing");
    reveal_strlit("completed");
    assert("open"@[0] != "paid"@[0]);
    assert("pending"@[0] != "succeeded"@[0]);
    assert("pending"@[0] != "failed"@[0]);
    assert("succeeded"@[0] != "failed"@[0]);
    assert("processing"@[0] != "completed"@[0]);
}

// What holds of the books.

impl Ledger {
    /// Whether an attempt has paid an invoice.
    pub open spec fn paid_by(self, attempt_id: Uuid, invoice_id: Uuid) -> bool {
        &&& self.attempts.contains_key(attempt_id)
        &&& self.attempts[attempt_id].state is Succeeded
        &&& self.attempts[attempt_id].invoice_id == invoice_id
    }

    /// The reply that the settlement of an attempt is answered with.
    pub open spec fn settled_reply(self, attempt_id: Uuid) -> ReplyView {
        let attempt = self.attempts[attempt_id];
        let succeeded = attempt.state is Succeeded;
        ReplyView {
            status: if succeeded {
                OK
            } else {
                PAYMENT_REQUIRED
            },
            body: payment_body(
                PaymentView {
                    invoice_id: attempt.invoice_id,
                    payment_attempt_id: attempt_id,
                    payment_status: attempt_text(attempt.state),
                    invoice_status: invoice_text(succeeded),
                    psp_ref: attempt.psp_ref,
                    failure_code: attempt.failure_code,
                },
            ),
        }
    }

    /// Whether the row of a key agrees with the attempt that it stands for: it
    /// has the fingerprint of the attempt's request, is processing while the
    /// attempt is pending, and holds the reply of the settlement from then on.
    pub open spec fn key_fits(self, key: (Uuid, Seq<char>)) -> bool {
        let record = self.keys[key];
        &&& record.payment_attempt_id matches Some(id) && {
            let attempt = self.attempts[id];
            &&& self.attempts.contains_key(id)
            &&& self.invoices[attempt.invoice_id].business_id == key.0
            &&& record.request_hash == request_fingerprint(attempt.invoice_id, attempt.card_token)
            &&& if attempt.state is Pending {
                record.state == "processing"@
            } else {
                &&& record.state == "completed"@
                &&& record.response_status == Some(self.settled_reply(id).status as i32)
                &&& record.response_body == Some(self.settled_reply(id).body)
            }
        }
    }

    /// The books are in order: every attempt is for an invoice, and an invoice
    /// has one attempt at most that has not failed; an invoice is paid exactly
    /// where an attempt succeeded; and every attempt has one key, which agrees
    /// with it.
    pub open spec fn well_formed(self) -> bool {
        &&& forall|id: Uuid| #[trigger]
            self.attempts.contains_key(id) ==> self.invoices.contains_key(
                self.attempts[id].invoice_id,
            )
        &&& forall|a: Uuid, b: Uuid|
            #![trigger self.attempts[a], self.attempts[b]]
            self.attempts.contains_key(a) && self.attempts.contains_key(b)
                && self.attempts[a].invoice_id == self.attempts[b].invoice_id && !(
            self.attempts[a].state is Failed) && !(self.attempts[b].state is Failed) ==> a == b
        &&& forall|id: Uuid| #[trigger]
            self.attempts.contains_key(id) && self.attempts[id].state is Succeeded
                ==> self.invoices[self.attempts[id].invoice_id].paid
        &&& forall|invoice_id: Uuid| #[trigger]
            self.invoices.contains_key(invoice_id) && self.invoices[invoice_id].paid ==> exists|
                id: Uuid,
            | #[trigger]
                self.paid_by(id, invoice_id)
        &&& forall|key: (Uuid, Seq<char>)| #[trigger]
            self.keys.contains_key(key) ==> self.key_fits(key)
        &&& forall|a: (Uuid, Seq<char>), b: (Uuid, Seq<char>), id: Uuid|
            #![trigger self.stands_for(a, id), self.stands_for(b, id)]
            self.stands_for(a, id) && self.stands_for(b, id) ==> a == b
        &&& forall|id: Uuid| #[trigger]
            self.attempts.contains_key(id) ==> exists|key: (Uuid, Seq<char>)| #[trigger]
                self.stands_for(key, id)
    }
}

/// Something that happens to the books.
pub enum Step {
    CreateInvoice {
        business_id: Uuid,
        draft: DraftView,
        invoice_id: Uuid,
        created_at: i64,
        line_ids: Seq<Uuid>,
    },
    CreateEndpoint {
        business_id: Uuid,
        endpoint_id: Uuid,
        url: Seq<char>,
        secret_ciphertext: Seq<char>,
        created_at: i64,
    },
    Pay { request: RequestView, fresh: Uuid },
    Settle { attempt_id: Uuid, verdict: VerdictView },
}

/// Whether a step can happen: the ids it brings are new, and a request has the
/// fingerprint of what it asks for.
pub open spec fn can_happen(ledger: Ledger, step: Step) -> bool {
    match step {
        Step::CreateInvoice { invoice_id, .. } => !ledger.invoices.contains_key(invoice_id),
        Step::CreateEndpoint { endpoint_id, .. } => !ledger.endpoints.contains_key(endpoint_id),
        Step::Pay { request, fresh } => request.well_formed() && !ledger.attempts.contains_key(
            fresh,
        ),
        Step::Settle { .. } => true,
    }
}

/// The books after a step.
pub open spec fn after_step(ledger: Ledger, step: Step) -> Ledger {
    match step {
        Step::CreateInvoice { business_id, draft, invoice_id, created_at, line_ids } => {
            create_invoice(ledger, business_id, draft, invoice_id, created_at, line_ids)
        },
        Step::CreateEndpoint { business_id, endpoint_id, url, secret_ciphertext, created_at } => {
            create_endpoint(ledger, business_id, endpoint_id, url, secret_ciphertext, created_at)
        },
        Step::Pay { request, fresh } => pay(ledger, request, fresh).0,
        Step::Settle { attempt_id, verdict } => settle(ledger, attempt_id, verdict).0,
    }
}

/// The books after a number of steps.
pub open spec fn after(ledger: Ledger, steps: Seq<Step>) -> Ledger
    decreases steps.len(),
{
    if steps.len() == 0 {
        ledger
    } else {
        after_step(after(ledger, steps.drop_last()), steps.last())
    }
}

/// Whether a number of steps can happen, one after the other.
pub open spec fn all_can_happen(ledger: Ledger, steps: Seq<Step>) -> bool
    decreases steps.len(),
{
    steps.len() == 0 || (all_can_happen(ledger, steps.drop_last()) && can_happen(
        after(ledger, steps.drop_last()),
        steps.last(),
    ))
}

/// The settlement of a pending attempt in books that are in order: what becomes
/// of the attempt, of its invoice and of the keys.
proof fn settlement_in_order(ledger: Ledger, attempt_id: Uuid, verdict: VerdictView)
    requires
        ledger.well_formed(),
        ledger.attempts.contains_key(attempt_id),
        ledger.attempts[attempt_id].state is Pending,
    ensures
        !ledger.invoices[ledger.attempts[attempt_id].invoice_id].paid,
        ({
            let next = settle(ledger, attempt_id, verdict).0;
            let attempt = ledger.attempts[attempt_id];
            &&& next.attempts == ledger.attempts.insert(
                attempt_id,
                AttemptEntry {
                    state: settled_state(verdict),
                    psp_ref: verdict.psp_ref,
                    failure_code: verdict.failure_code,
                    ..attempt
                },
            )
            &&& next.settled_reply(attempt_id) == settle(ledger, attempt_id, verdict).1->Ok_0
            &&& settle(ledger, attempt_id, verdict).1 is Ok
            &&& next.keys.dom() == ledger.keys.dom()
            &&& forall|key: (Uuid, Seq<char>)| #[trigger]
                ledger.keys.contains_key(key) ==> next.keys[key].payment_attempt_id
                    == ledger.keys[key].payment_attempt_id && next.keys[key].request_hash
                    == ledger.keys[key].request_hash && (ledger.keys[key].payment_attempt_id
                    != Some(attempt_id) ==> next.keys[key] == ledger.keys[key])
        }),
{
    status_texts_differ();
    let invoice_id = ledger.attempts[attempt_id].invoice_id;
    if ledger.invoices[invoice_id].paid {
        let other = choose|id: Uuid| ledger.paid_by(id, invoice_id);
        assert(ledger.paid_by(other, invoice_id));
        assert(ledger.attempts[other].invoice_id == ledger.attempts[attempt_id].invoice_id);
    }
}

/// Whatever can happen keeps the books in order.
pub proof fn steps_keep_the_books_in_order(ledger: Ledger, step: Step)
    requires
        ledger.well_formed(),
        can_happen(ledger, step),
    ensures
        after_step(ledger, step).well_formed(),
{
    let next = after_step(ledger, step);
    match step {
        Step::CreateInvoice { .. } | Step::CreateEndpoint { .. } => {
            assert forall|key: (Uuid, Seq<char>)| #[trigger]
                next.keys.contains_key(key) implies next.key_fits(key) by {
                assert(ledger.keys.contains_key(key));
                assert(ledger.key_fits(key));
            }
            assert forall|id: Uuid| #[trigger]
                next.invoices.contains_key(id) && next.invoices[id].paid implies exists|a: Uuid|
             #[trigger]
                next.paid_by(a, id) by {
                assert(ledger.invoices.contains_key(id));
                let a = choose|a: Uuid| ledger.paid_by(a, id);
                assert(next.paid_by(a, id));
            }
            assert forall|a: (Uuid, Seq<char>), b: (Uuid, Seq<char>), id: Uuid|
                #![trigger next.stands_for(a, id), next.stands_for(b, id)]
                next.stands_for(a, id) && next.stands_for(b, id) implies a == b by {
                assert(ledger.stands_for(a, id) && ledger.stands_for(b, id));
            }
            assert forall|id: Uuid| #[trigger] next.attempts.contains_key(id) implies exists|
                key: (Uuid, Seq<char>),
            | #[trigger]
                next.stands_for(key, id) by {
                assert(ledger.attempts.contains_key(id));
                let key = choose|key: (Uuid, Seq<char>)| ledger.stands_for(key, id);
                assert(next.stands_for(key, id));
            }
        },
        Step::Pay { request, fresh } => {
            if pay(ledger, request, fresh).1 is Charged {
                admission_keeps_order(ledger, request, fresh);
            }
        },
        Step::Settle { attempt_id, verdict } => {
            if ledger.attempts.contains_key(attempt_id)
                && ledger.attempts[attempt_id].state is Pending {
                settlement_keeps_order(ledger, attempt_id, verdict);
            }
        },
    }
}

proof fn admission_keeps_order(ledger: Ledger, request: RequestView, fresh: Uuid)
    requires
        ledger.well_formed(),
        request.well_formed(),
        !ledger.attempts.contains_key(fresh),
        pay(ledger, request, fresh).1 is Charged,
    ensures
        pay(ledger, request, fresh).0.well_formed(),
{
    let next = pay(ledger, request, fresh).0;
    let new_key = (request.business_id, request.idempotency_key);
    assert(!ledger.keys.contains_key(new_key));
    assert forall|a: Uuid, b: Uuid|
        #![trigger next.attempts[a], next.attempts[b]]
        next.attempts.contains_key(a) && next.attempts.contains_key(b)
            && next.attempts[a].invoice_id == next.attempts[b].invoice_id && !(
        next.attempts[a].state is Failed) && !(next.attempts[b].state is Failed) implies a == b by {
        if a != b {
            if a != fresh && b != fresh {
                assert(ledger.attempts[a] == next.attempts[a]);
                assert(ledger.attempts[b] == next.attempts[b]);
            } else {
                let other = if a == fresh {
                    b
                } else {
                    a
                };
                assert(ledger.attempts.contains_key(other));
                assert(!ledger.pending_on(other, request.invoice_id));
                assert(ledger.attempts[other].state is Succeeded);
                assert(false);
            }
        }
    }
    assert forall|key: (Uuid, Seq<char>)| #[trigger]
        next.keys.contains_key(key) implies next.key_fits(key) by {
        if key != new_key {
            assert(ledger.keys.contains_key(key));
            assert(ledger.key_fits(key));
        }
    }
    assert forall|id: Uuid| #[trigger]
        next.invoices.contains_key(id) && next.invoices[id].paid implies exists|a: Uuid| #[trigger]
        next.paid_by(a, id) by {
        assert(ledger.invoices.contains_key(id));
        let a = choose|a: Uuid| ledger.paid_by(a, id);
        assert(next.paid_by(a, id));
    }
    assert forall|a: (Uuid, Seq<char>), b: (Uuid, Seq<char>), id: Uuid|
        #![trigger next.stands_for(a, id), next.stands_for(b, id)]
        next.stands_for(a, id) && next.stands_for(b, id) implies a == b by {
        if a != new_key {
            assert(ledger.stands_for(a, id));
            assert(ledger.key_fits(a));
        }
        if b != new_key {
            assert(ledger.stands_for(b, id));
            assert(ledger.key_fits(b));
        }
    }
    assert forall|id: Uuid| #[trigger] next.attempts.contains_key(id) implies exists|
        key: (Uuid, Seq<char>),
    | #[trigger]
        next.stands_for(key, id) by {
        if id == fresh {
            assert(next.stands_for(new_key, id));
        } else {
            assert(ledger.attempts.contains_key(id));
            let key = choose|key: (Uuid, Seq<char>)| ledger.stands_for(key, id);
            assert(ledger.stands_for(key, id));
            assert(next.stands_for(key, id));
        }
    }
}

proof fn settlement_keeps_order(ledger: Ledger, attempt_id: Uuid, verdict: VerdictView)
    requires
        ledger.well_formed(),
        ledger.attempts.contains_key(attempt_id),
        ledger.attempts[attempt_id].state is Pending,
    ensures
        settle(ledger, attempt_id, verdict).0.well_formed(),
{
    settlement_in_order(ledger, attempt_id, verdict);
    let next = settle(ledger, attempt_id, verdict).0;
    let invoice_id = ledger.attempts[attempt_id].invoice_id;
    status_texts_differ();
    assert forall|a: Uuid, b: Uuid|
        #![trigger next.attempts[a], next.attempts[b]]
        next.attempts.contains_key(a) && next.attempts.contains_key(b)
            && next.attempts[a].invoice_id == next.attempts[b].invoice_id && !(
        next.attempts[a].state is Failed) && !(next.attempts[b].state is Failed) implies a == b by {
        assert(ledger.attempts[a].invoice_id == ledger.attempts[b].invoice_id);
    }
    assert forall|key: (Uuid, Seq<char>)| #[trigger]
        next.keys.contains_key(key) implies next.key_fits(key) by {
        assert(ledger.keys.contains_key(key));
        assert(ledger.key_fits(key));
    }
    assert forall|id: Uuid| #[trigger]
        next.invoices.contains_key(id) && next.invoices[id].paid implies exists|a: Uuid| #[trigger]
        next.paid_by(a, id) by {
        assert(ledger.invoices.contains_key(id));
        if ledger.invoices[id].paid {
            let a = choose|a: Uuid| ledger.paid_by(a, id);
            assert(next.paid_by(a, id));
        } else {
            assert(next.paid_by(attempt_id, id));
        }
    }
    assert forall|a: (Uuid, Seq<char>), b: (Uuid, Seq<char>), id: Uuid|
        #![trigger next.stands_for(a, id), next.stands_for(b, id)]
        next.stands_for(a, id) && next.stands_for(b, id) implies a == b by {
        assert(ledger.stands_for(a, id) && ledger.stands_for(b, id));
    }
    assert forall|id: Uuid| #[trigger] next.attempts.contains_key(id) implies exists|
        key: (Uuid, Seq<char>),
    | #[trigger]
        next.stands_for(key, id) by {
        assert(ledger.attempts.contains_key(id));
        let key = choose|key: (Uuid, Seq<char>)| ledger.stands_for(key, id);
        assert(ledger.keys.contains_key(key));
        assert(next.stands_for(key, id));
    }
}

/// From empty books, or from books in order, whatever happens leaves them in
/// order.
pub proof fn the_books_stay_in_order(ledger: Ledger, steps: Seq<Step>)
    requires
        ledger.well_formed() || ledger == empty_ledger(),
        all_can_happen(ledger, steps),
    ensures
        after(ledger, steps).well_formed(),
    decreases steps.len(),
{
    if steps.len() > 0 {
        the_books_stay_in_order(ledger, steps.drop_last());
        steps_keep_the_books_in_order(after(ledger, steps.drop_last()), steps.last());
    }
}

// What stays.

impl Ledger {
    /// Whether nothing is lost or undone from these books to later ones: every
    /// invoice stays as it is but that it may be paid, and a paid one stays
    /// paid; every attempt stays, and a settled one as it is; every key stays
    /// with its attempt and its fingerprint, and a completed one as it is; the
    /// events stay in their order; and every endpoint stays as it is.
    pub open spec fn leads_to(self, later: Ledger) -> bool {
        &&& forall|id: Uuid| #[trigger]
            self.invoices.contains_key(id) ==> later.invoices.contains_key(id)
                && later.invoices[id] == (InvoiceEntry {
                paid: later.invoices[id].paid,
                ..self.invoices[id]
            }) && (self.invoices[id].paid ==> later.invoices[id].paid)
        &&& forall|id: Uuid| #[trigger]
            self.attempts.contains_key(id) ==> later.attempts.contains_key(id)
                && later.attempts[id].invoice_id == self.attempts[id].invoice_id
                && later.attempts[id].card_token == self.attempts[id].card_token && (
            self.attempts[id].state is Pending || later.attempts[id] == self.attempts[id])
        &&& forall|key: (Uuid, Seq<char>)| #[trigger]
            self.keys.contains_key(key) ==> later.keys.contains_key(key)
                && later.keys[key].payment_attempt_id == self.keys[key].payment_attempt_id
                && later.keys[key].request_hash == self.keys[key].request_hash && (
            self.keys[key].state != "completed"@ || later.keys[key] == self.keys[key])
        &&& self.events.is_prefix_of(later.events)
        &&& forall|id: Uuid| #[trigger]
            self.endpoints.contains_key(id) ==> later.endpoints.contains_key(id)
                && later.endpoints[id] == self.endpoints[id]
    }
}

/// Where nothing is undone from the first books to the second, nor from there
/// to the third, nothing is undone from the first to the third.
pub proof fn leads_on(first: Ledger, second: Ledger, third: Ledger)
    requires
        first.leads_to(second),
        second.leads_to(third),
    ensures
        first.leads_to(third),
{
    assert forall|id: Uuid| #[trigger]
        first.invoices.contains_key(id) implies third.invoices.contains_key(id)
        && third.invoices[id] == (InvoiceEntry {
        paid: third.invoices[id].paid,
        ..first.invoices[id]
    }) && (first.invoices[id].paid ==> third.invoices[id].paid) by {
        assert(second.invoices.contains_key(id));
    }
    assert forall|id: Uuid| #[trigger]
        first.endpoints.contains_key(id) implies third.endpoints.contains_key(id)
        && third.endpoints[id] == first.endpoints[id] by {
        assert(second.endpoints.contains_key(id));
    }
    assert forall|id: Uuid| #[trigger]
        first.attempts.contains_key(id) implies third.attempts.contains_key(id)
        && third.attempts[id].invoice_id == first.attempts[id].invoice_id
        && third.attempts[id].card_token == first.attempts[id].card_token && (
    first.attempts[id].state is Pending || third.attempts[id] == first.attempts[id]) by {
        assert(second.attempts.contains_key(id));
    }
    assert forall|key: (Uuid, Seq<char>)| #[trigger]
        first.keys.contains_key(key) implies third.keys.contains_key(key)
        && third.keys[key].payment_attempt_id == first.keys[key].payment_attempt_id
        && third.keys[key].request_hash == first.keys[key].request_hash && (
    first.keys[key].state != "completed"@ || third.keys[key] == first.keys[key]) by {
        assert(second.keys.contains_key(key));
    }
}

/// A step undoes nothing.
pub proof fn step_leads_on(ledger: Ledger, step: Step)
    requires
        ledger.well_formed(),
        can_happen(ledger, step),
    ensures
        ledger.leads_to(after_step(ledger, step)),
{
    status_texts_differ();
    let next = after_step(ledger, step);
    if let Step::Settle { attempt_id, verdict } = step {
        if ledger.attempts.contains_key(attempt_id)
            && ledger.attempts[attempt_id].state is Pending {
            settlement_in_order(ledger, attempt_id, verdict);
            assert forall|key: (Uuid, Seq<char>)| #[trigger]
                ledger.keys.contains_key(key) implies next.keys.contains_key(key)
                && next.keys[key].payment_attempt_id == ledger.keys[key].payment_attempt_id
                && next.keys[key].request_hash == ledger.keys[key].request_hash && (
            ledger.keys[key].state != "completed"@ || next.keys[key] == ledger.keys[key]) by {
                assert(ledger.key_fits(key));
            }
        }
    }
}

/// Whatever happens, nothing in the books is lost or undone. So an invoice that
/// is paid stays paid.
pub proof fn nothing_is_undone(ledger: Ledger, steps: Seq<Step>)
    requires
        ledger.well_formed(),
        all_can_happen(ledger, steps),
    ensures
        after(ledger, steps).well_formed(),
        ledger.leads_to(after(ledger, steps)),
    decreases steps.len(),
{
    if steps.len() > 0 {
        let before = after(ledger, steps.drop_last());
        let last = after(ledger, steps);
        nothing_is_undone(ledger, steps.drop_last());
        steps_keep_the_books_in_order(before, steps.last());
        step_leads_on(before, steps.last());
        leads_on(ledger, before, last);
    }
}

// What a client can rely on.

/// The row of the key of a settled attempt gives the settlement's reply.
proof fn completed_record_replies(ledger: Ledger, key: (Uuid, Seq<char>))
    requires
        ledger.well_formed(),
        ledger.keys.contains_key(key),
    ensures
        ({
            let id = ledger.keys[key].payment_attempt_id->0;
            record_reply_view(ledger.keys[key]) == if ledger.attempts[id].state is Pending {
                processing_reply_view(Some(id))
            } else {
                ledger.settled_reply(id)
            }
        }),
{
    status_texts_differ();
    assert(ledger.key_fits(key));
}

/// A settled attempt is left alone: a further verdict on it changes nothing,
/// and is answered with the reply of the settlement.
pub proof fn settled_attempt_is_left_alone(
    ledger: Ledger,
    attempt_id: Uuid,
    verdict: VerdictView,
)
    requires
        ledger.well_formed(),
        ledger.attempts.contains_key(attempt_id),
        !(ledger.attempts[attempt_id].state is Pending),
    ensures
        settle(ledger, attempt_id, verdict) == (
            ledger,
            Ok::<ReplyView, ErrorView>(ledger.settled_reply(attempt_id)),
        ),
{
    let key = choose|key: (Uuid, Seq<char>)| ledger.stands_for(key, attempt_id);
    assert(ledger.stands_for(key, attempt_id));
    completed_record_replies(ledger, key);
}

/// The verdict on a pending attempt always settles it: success pays the
/// invoice, failure leaves it open. The reply, and the one event that the
/// business is told it by, carry the same body.
pub proof fn verdict_settles_a_pending_attempt(
    ledger: Ledger,
    attempt_id: Uuid,
    verdict: VerdictView,
)
    requires
        ledger.well_formed(),
        ledger.attempts.contains_key(attempt_id),
        ledger.attempts[attempt_id].state is Pending,
    ensures
        ({
            let (next, answer) = settle(ledger, attempt_id, verdict);
            let invoice_id = ledger.attempts[attempt_id].invoice_id;
            let invoice = ledger.invoices[invoice_id];
            &&& answer == Ok::<ReplyView, ErrorView>(next.settled_reply(attempt_id))
            &&& next.attempts[attempt_id].state == settled_state(verdict)
            &&& answer->Ok_0.status == if verdict.succeeded {
                OK
            } else {
                PAYMENT_REQUIRED
            }
            &&& next.invoices == if verdict.succeeded {
                ledger.invoices.insert(invoice_id, InvoiceEntry { paid: true, ..invoice })
            } else {
                ledger.invoices
            }
            &&& !invoice.paid
            &&& next.pending(invoice_id) is None
            &&& next.events == ledger.events.push(
                EventEntry {
                    business_id: invoice.business_id,
                    event_type: if verdict.succeeded {
                        "invoice.paid"@
                    } else {
                        "invoice.payment_failed"@
                    },
                    payload: answer->Ok_0.body,
                },
            )
        }),
{
    settlement_in_order(ledger, attempt_id, verdict);
    let next = settle(ledger, attempt_id, verdict).0;
    let invoice_id = ledger.attempts[attempt_id].invoice_id;
    assert forall|id: Uuid| !next.pending_on(id, invoice_id) by {
        if next.pending_on(id, invoice_id) {
            assert(ledger.attempts[id].invoice_id == ledger.attempts[attempt_id].invoice_id);
        }
    }
}

/// The same request under the same key is answered, at any time after its
/// settlement and whatever happened in between, with the very reply of the
/// settlement; and nothing is charged or entered for it.
pub proof fn replay_is_exact(
    ledger: Ledger,
    request: RequestView,
    fresh: Uuid,
    between: Seq<Step>,
    verdict: VerdictView,
    later: Seq<Step>,
    other_fresh: Uuid,
)
    requires
        ledger.well_formed(),
        can_happen(ledger, Step::Pay { request, fresh }),
        pay(ledger, request, fresh).1 is Charged,
        all_can_happen(pay(ledger, request, fresh).0, between),
        all_can_happen(
            settle(after(pay(ledger, request, fresh).0, between), fresh, verdict).0,
            later,
        ),
    ensures
        ({
            let (settled, answer) = settle(
                after(pay(ledger, request, fresh).0, between),
                fresh,
                verdict,
            );
            let end = after(settled, later);
            &&& answer is Ok
            &&& pay(end, request, other_fresh) == (end, Admission::Answered(answer))
        }),
{
    let admitted = pay(ledger, request, fresh).0;
    let key = (request.business_id, request.idempotency_key);
    steps_keep_the_books_in_order(ledger, Step::Pay { request, fresh });
    assert(admitted.stands_for(key, fresh));
    nothing_is_undone(admitted, between);
    let waited = after(admitted, between);
    assert(waited.stands_for(key, fresh));
    let (settled, answer) = settle(waited, fresh, verdict);
    steps_keep_the_books_in_order(waited, Step::Settle { attempt_id: fresh, verdict });
    step_leads_on(waited, Step::Settle { attempt_id: fresh, verdict });
    assert(admitted.attempts.contains_key(fresh));
    if waited.attempts[fresh].state is Pending {
        verdict_settles_a_pending_attempt(waited, fresh, verdict);
    } else {
        settled_attempt_is_left_alone(waited, fresh, verdict);
    }
    assert(answer == Ok::<ReplyView, ErrorView>(settled.settled_reply(fresh)));
    nothing_is_undone(settled, later);
    let end = after(settled, later);
    assert(settled.keys.contains_key(key));
    assert(settled.attempts.contains_key(fresh));
    completed_record_replies(end, key);
    assert(end.settled_reply(fresh) == settled.settled_reply(fresh));
    assert(admitted.invoices.contains_key(request.invoice_id));
    assert(waited.invoices.contains_key(request.invoice_id));
    assert(settled.invoices.contains_key(request.invoice_id));
}

/// The same request under the same key, while its payment is under way, is
/// told so, with the attempt that stands for it; and nothing is charged or
/// entered for it.
pub proof fn retry_while_pending_is_told_so(
    ledger: Ledger,
    request: RequestView,
    fresh: Uuid,
    between: Seq<Step>,
    other_fresh: Uuid,
)
    requires
        ledger.well_formed(),
        can_happen(ledger, Step::Pay { request, fresh }),
        pay(ledger, request, fresh).1 is Charged,
        all_can_happen(pay(ledger, request, fresh).0, between),
        after(pay(ledger, request, fresh).0, between).attempts[fresh].state is Pending,
    ensures
        ({
            let now = after(pay(ledger, request, fresh).0, between);
            &&& pay(now, request, other_fresh) == (
                now,
                Admission::Answered(Ok(processing_reply_view(Some(fresh)))),
            )
            &&& processing_reply_view(Some(fresh)).status == ACCEPTED
        }),
{
    let admitted = pay(ledger, request, fresh).0;
    let key = (request.business_id, request.idempotency_key);
    steps_keep_the_books_in_order(ledger, Step::Pay { request, fresh });
    assert(admitted.stands_for(key, fresh));
    nothing_is_undone(admitted, between);
    let now = after(admitted, between);
    assert(now.stands_for(key, fresh));
    completed_record_replies(now, key);
    assert(admitted.invoices.contains_key(request.invoice_id));
}

/// A key stands for one request of a business for good: under it, a request
/// for another invoice, or with another card token, is refused as soon as its
/// fingerprint is another one, whatever happened in between; and nothing is
/// charged or entered for it.
pub proof fn reused_key_is_refused(
    ledger: Ledger,
    request: RequestView,
    fresh: Uuid,
    later: Seq<Step>,
    other: RequestView,
    other_fresh: Uuid,
)
    requires
        ledger.well_formed(),
        can_happen(ledger, Step::Pay { request, fresh }),
        pay(ledger, request, fresh).1 is Charged,
        all_can_happen(pay(ledger, request, fresh).0, later),
        other.business_id == request.business_id,
        other.idempotency_key == request.idempotency_key,
        other.request_hash != request.request_hash,
        after(pay(ledger, request, fresh).0, later).invoice(
            other.business_id,
            other.invoice_id,
        ) is Some,
    ensures
        ({
            let now = after(pay(ledger, request, fresh).0, later);
            pay(now, other, other_fresh) == (now, Admission::Answered(Err(key_reused_view())))
        }),
{
    let admitted = pay(ledger, request, fresh).0;
    steps_keep_the_books_in_order(ledger, Step::Pay { request, fresh });
    assert(admitted.keys.contains_key((request.business_id, request.idempotency_key)));
    nothing_is_undone(admitted, later);
}

/// While an attempt on an invoice is pending, a request to pay it under a key
/// that is not known yet is refused; and nothing is charged or entered for it.
pub proof fn one_payment_at_a_time(
    ledger: Ledger,
    attempt_id: Uuid,
    request: RequestView,
    fresh: Uuid,
)
    requires
        ledger.well_formed(),
        ledger.pending_on(attempt_id, request.invoice_id),
        ledger.invoice(request.business_id, request.invoice_id) is Some,
        ledger.record(request.business_id, request.idempotency_key) is None,
    ensures
        pay(ledger, request, fresh) == (
            ledger,
            Admission::Answered(Err(payment_in_progress_view())),
        ),
{
    let invoice_id = request.invoice_id;
    if ledger.invoices[invoice_id].paid {
        let other = choose|id: Uuid| ledger.paid_by(id, invoice_id);
        assert(ledger.paid_by(other, invoice_id));
        assert(ledger.attempts[other].invoice_id == ledger.attempts[attempt_id].invoice_id);
    }
}

/// An invoice is paid once: from its payment on, whatever happens, it stays
/// paid, one attempt on it has succeeded and none is pending, and a request to
/// pay it under a key that is not known yet is refused; and nothing is charged
/// or entered for it.
pub proof fn an_invoice_is_paid_once(
    ledger: Ledger,
    later: Seq<Step>,
    request: RequestView,
    fresh: Uuid,
    a: Uuid,
    b: Uuid,
)
    requires
        ledger.well_formed(),
        ledger.invoice(request.business_id, request.invoice_id) matches Some(invoice)
            && invoice.paid,
        all_can_happen(ledger, later),
    ensures
        ({
            let now = after(ledger, later);
            &&& now.invoices[request.invoice_id].paid
            &&& now.paid_by(a, request.invoice_id) && now.paid_by(b, request.invoice_id) ==> a == b
            &&& !now.pending_on(a, request.invoice_id)
            &&& now.record(request.business_id, request.idempotency_key) is None ==> pay(
                now,
                request,
                fresh,
            ) == (now, Admission::Answered(Err(already_paid_view())))
        }),
{
    nothing_is_undone(ledger, later);
    let now = after(ledger, later);
    let invoice_id = request.invoice_id;
    assert(ledger.invoices.contains_key(invoice_id));
    let payer = choose|id: Uuid| now.paid_by(id, invoice_id);
    assert(now.paid_by(payer, invoice_id));
    assert(now.paid_by(a, invoice_id) || now.pending_on(a, invoice_id) ==> a == payer) by {
        assert(now.attempts[payer].invoice_id == invoice_id);
        assert(now.attempts[a].invoice_id == now.attempts[a].invoice_id);
    }
    assert(now.paid_by(b, invoice_id) ==> b == payer) by {
        assert(now.attempts[b].invoice_id == now.attempts[b].invoice_id);
    }
}

/// After a failed attempt the invoice is open, and a request to pay it under a
/// key that is not known yet is charged.
pub proof fn failure_leaves_the_invoice_payable(
    ledger: Ledger,
    attempt_id: Uuid,
    verdict: VerdictView,
    request: RequestView,
    fresh: Uuid,
)
    requires
        ledger.well_formed(),
        ledger.pending_on(attempt_id, request.invoice_id),
        !verdict.succeeded,
        ledger.invoice(request.business_id, request.invoice_id) is Some,
        ledger.record(request.business_id, request.idempotency_key) is None,
    ensures
        pay(settle(ledger, attempt_id, verdict).0, request, fresh).1 == Admission::Charged(fresh),
{
    verdict_settles_a_pending_attempt(ledger, attempt_id, verdict);
    settlement_in_order(ledger, attempt_id, verdict);
    let next = settle(ledger, attempt_id, verdict).0;
    assert(next.keys.dom() == ledger.keys.dom());
    assert(!ledger.keys.dom().contains((request.business_id, request.idempotency_key)));
}

/// A payment whose provider does not answer in time is accepted and stays
/// pending; once the provider says that the charge succeeded, recovery pays
/// the invoice, and the reply to the request is then that of a success.
pub proof fn timeout_is_reconciled(
    ledger: Ledger,
    request: RequestView,
    fresh: Uuid,
    between: Seq<Step>,
    attempt: PendingAttempt,
    reply: PspReplyView,
    other_fresh: Uuid,
)
    requires
        ledger.well_formed(),
        can_happen(ledger, Step::Pay { request, fresh }),
        pay(ledger, request, fresh).1 is Charged,
        all_can_happen(pay(ledger, request, fresh).0, between),
        after(pay(ledger, request, fresh).0, between).attempts[fresh].state is Pending,
        attempt.id == fresh,
        reply.status == "succeeded"@,
    ensures
        next_payment(
            request,
            PayStageView::Charge { attempt_id: fresh },
            PayEventView::PspSilent,
            fresh,
        ) == (
            PayStageView::Done,
            PayActionView::Answer(Ok(processing_reply_view(Some(fresh)))),
        ),
        ({
            let verdict = VerdictView {
                succeeded: true,
                psp_ref: reply.psp_ref,
                failure_code: None,
            };
            let (paid, answer) = settle(
                after(pay(ledger, request, fresh).0, between),
                fresh,
                verdict,
            );
            &&& recovered(attempt, ChargeEventView::Reply(reply)) == RecoveryActionView::Finalize(
                fresh,
                verdict,
            )
            &&& paid.invoices[request.invoice_id].paid
            &&& answer matches Ok(reply) && reply.status == OK
            &&& pay(paid, request, other_fresh) == (paid, Admission::Answered(answer))
        }),
{
    let verdict = VerdictView { succeeded: true, psp_ref: reply.psp_ref, failure_code: None };
    let admitted = pay(ledger, request, fresh).0;
    steps_keep_the_books_in_order(ledger, Step::Pay { request, fresh });
    nothing_is_undone(admitted, between);
    let waited = after(admitted, between);
    assert(admitted.attempts.contains_key(fresh));
    verdict_settles_a_pending_attempt(waited, fresh, verdict);
    let none = Seq::<Step>::empty();
    assert(after(settle(waited, fresh, verdict).0, none) == settle(waited, fresh, verdict).0);
    replay_is_exact(ledger, request, fresh, between, verdict, none, other_fresh);
}

/// A pending attempt that is given up fails because the provider is
/// unavailable: the invoice stays open, and the reply to the request is then
/// that of a failure.
pub proof fn giving_up_fails_the_attempt(
    ledger: Ledger,
    attempt: PendingAttempt,
    event: ChargeEventView,
)
    requires
        ledger.well_formed(),
        ledger.attempts.contains_key(attempt.id),
        ledger.attempts[attempt.id].state is Pending,
        counts_as_failure(event),
        attempt.recovery_attempts + 1 >= RECOVERY_LIMIT,
    ensures
        recovered(attempt, event) == RecoveryActionView::Finalize(attempt.id, given_up_view()),
        ({
            let (next, answer) = settle(ledger, attempt.id, given_up_view());
            &&& next.invoices == ledger.invoices
            &&& next.attempts[attempt.id].state is Failed
            &&& next.attempts[attempt.id].failure_code == Some("psp_unavailable"@)
            &&& answer matches Ok(reply) && reply.status == PAYMENT_REQUIRED
        }),
{
    verdict_settles_a_pending_attempt(ledger, attempt.id, given_up_view());
    settlement_in_order(ledger, attempt.id, given_up_view());
}

}
