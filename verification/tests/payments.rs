use std::collections::HashMap;

use invoice_service::controllers::payments::pay_invoice as take_request;
use invoice_service::error::ApiError;
use invoice_service::http::HttpReply;
use invoice_service::ids::Uuid;
use invoice_service::mock_psp::{ChargeStep, PspState};
use invoice_service::models::{PayInput, PspReply};
use invoice_service::services::payments::{
    awaits, charge_url, charges_url, hash_payment_request, is_unique_violation, pay_invoice,
    payment_request, processing_response, response_from_idempotency_record, stored_response,
    verdict_of, IdempotencyRecord, InvoiceStatus, PayAction, PayEvent, PayRequest, PayStage,
    Verdict,
};
use invoice_service::services::recovery::{
    recover_attempt, schedule_recovery, ChargeEvent, PendingAttempt, RecoveryAction,
};
use invoice_service::services::settlement::{
    awaits as settle_awaits, finalize_payment, AttemptRow, SettleAction, SettleEvent, SettleStage,
    Settlement,
};

const BUSINESS: Uuid = Uuid { bits: 7 };
const INVOICE: Uuid = Uuid {
    bits: 0x00112233_4455_6677_8899_aabbccddeeff,
};
const OTHER_INVOICE: Uuid = Uuid { bits: 12 };

#[derive(Clone)]
struct Attempt {
    id: Uuid,
    invoice_id: Uuid,
    card_token: String,
    status: String,
    psp_ref: Option<String>,
    failure_code: Option<String>,
}

#[derive(Clone)]
struct Key {
    request_hash: String,
    state: String,
    attempt_id: Uuid,
    response_status: Option<i32>,
    response_body: Option<String>,
}

/// The tables, in memory.
#[derive(Clone, Default)]
struct Books {
    invoices: HashMap<u128, (u128, String)>,
    attempts: Vec<Attempt>,
    keys: HashMap<(u128, String), Key>,
    events: Vec<(u128, String, String)>,
}

impl Books {
    fn with_invoices() -> Books {
        let mut books = Books::default();
        for id in [INVOICE, OTHER_INVOICE] {
            books
                .invoices
                .insert(id.bits, (BUSINESS.bits, "open".to_string()));
        }
        books
    }

    fn record(&self, request: &PayRequest) -> Option<IdempotencyRecord> {
        let key = (request.business_id.bits, request.idempotency_key.clone());
        self.keys.get(&key).map(to_record)
    }

    fn invoice_status(&self, id: Uuid) -> &str {
        &self.invoices[&id.bits].1
    }

    fn write(&mut self, settlement: &Settlement) {
        for attempt in self.attempts.iter_mut() {
            if attempt.id == settlement.attempt_id && attempt.status == "pending" {
                attempt.status = settlement.payment_status.to_string();
                attempt.psp_ref = settlement.psp_ref.clone();
                attempt.failure_code = settlement.failure_code.clone();
            }
        }
        if settlement.pays_invoice {
            let invoice = self.invoices.get_mut(&settlement.invoice_id.bits).unwrap();
            invoice.1 = "paid".to_string();
        }
        for key in self.keys.values_mut() {
            if key.attempt_id == settlement.attempt_id {
                key.state = "completed".to_string();
                key.response_status = Some(i32::from(settlement.response_status));
                key.response_body = Some(settlement.response_body.clone());
            }
        }
        self.events.push((
            settlement.business_id.bits,
            settlement.event_type.to_string(),
            settlement.response_body.clone(),
        ));
    }
}

fn to_record(key: &Key) -> IdempotencyRecord {
    IdempotencyRecord {
        request_hash: key.request_hash.clone(),
        state: key.state.clone(),
        payment_attempt_id: Some(key.attempt_id),
        response_status: key.response_status,
        response_body: key.response_body.clone(),
    }
}

/// A payment that is on its way, with what its transaction has written.
struct Run {
    request: PayRequest,
    stage: PayStage,
    action: PayAction,
    written: Books,
}

impl Run {
    fn new(request: PayRequest) -> Run {
        Run {
            request,
            stage: PayStage::Begin,
            action: PayAction::Begin,
            written: Books::default(),
        }
    }

    fn next(&mut self, event: PayEvent) {
        let stage = std::mem::replace(&mut self.stage, PayStage::Done);
        assert!(awaits(&stage, &event));
        let (stage, action) = pay_invoice(&self.request, stage, event);
        self.stage = stage;
        self.action = action;
    }

    /// Performs one action on the books.
    fn step(&mut self, books: &mut Books) {
        let event = match &self.action {
            PayAction::Begin | PayAction::Rollback => {
                self.written = Books::default();
                PayEvent::Succeeded
            }
            PayAction::SelectInvoice => PayEvent::Invoice(
                books
                    .invoices
                    .get(&self.request.invoice_id.bits)
                    .filter(|invoice| invoice.0 == self.request.business_id.bits)
                    .map(|invoice| InvoiceStatus::parse(&invoice.1)),
            ),
            PayAction::SelectRecord => PayEvent::Record(books.record(&self.request)),
            PayAction::SelectPending => PayEvent::Pending(
                books
                    .attempts
                    .iter()
                    .find(|attempt| {
                        attempt.invoice_id == self.request.invoice_id && attempt.status == "pending"
                    })
                    .map(|attempt| attempt.id),
            ),
            PayAction::InsertAttempt(id) => {
                let attempt = Attempt {
                    id: *id,
                    invoice_id: self.request.invoice_id,
                    card_token: self.request.card_token.clone(),
                    status: "pending".to_string(),
                    psp_ref: None,
                    failure_code: None,
                };
                self.written.attempts.push(attempt);
                PayEvent::Succeeded
            }
            PayAction::InsertKey(id) => {
                if books.record(&self.request).is_some() {
                    PayEvent::KeyTaken
                } else {
                    self.written.keys.insert(
                        (
                            self.request.business_id.bits,
                            self.request.idempotency_key.clone(),
                        ),
                        Key {
                            request_hash: self.request.request_hash.clone(),
                            state: "processing".to_string(),
                            attempt_id: *id,
                            response_status: None,
                            response_body: None,
                        },
                    );
                    PayEvent::Succeeded
                }
            }
            PayAction::Commit => {
                let written = std::mem::take(&mut self.written);
                books.attempts.extend(written.attempts);
                books.keys.extend(written.keys);
                PayEvent::Succeeded
            }
            other => panic!("not an action on the books: {other:?}"),
        };
        self.next(event);
    }

    /// Whether the payment is at the call of the provider, or at the answer.
    fn is_admitted(&self) -> bool {
        matches!(
            self.action,
            PayAction::PostCharge(_) | PayAction::Answer(_) | PayAction::Finalize(_, _)
        )
    }

    /// Runs up to the call of the provider, or to the answer.
    fn admitted(&mut self, books: &mut Books) {
        while !self.is_admitted() {
            self.step(books);
        }
    }

    /// Whether the payment holds the lock on its invoice.
    fn holds_lock(&self) -> bool {
        matches!(
            self.stage,
            PayStage::Record { .. }
                | PayStage::ReplayRollback { .. }
                | PayStage::Pending
                | PayStage::Attempt { .. }
                | PayStage::Key { .. }
                | PayStage::ConflictRollback
                | PayStage::Commit { .. }
        )
    }

    /// Whether the database makes the payment wait for another one.
    fn waits_for(&self, other: &Run) -> bool {
        let key = (
            self.request.business_id.bits,
            self.request.idempotency_key.clone(),
        );
        match self.action {
            PayAction::SelectInvoice => {
                other.holds_lock() && other.request.invoice_id == self.request.invoice_id
            }
            PayAction::InsertKey(_) => other.written.keys.contains_key(&key),
            _ => false,
        }
    }

    /// Runs from the call of the provider to the answer.
    fn finish(mut self, books: &mut Books, psp: &mut PspState) -> Result<HttpReply, ApiError> {
        if let PayAction::PostCharge(id) = self.action {
            match charge(psp, id, &self.request.card_token) {
                None => self.next(PayEvent::PspSilent),
                Some(Err(code)) => self.next(PayEvent::PspStatus(code)),
                Some(Ok(reply)) => {
                    self.next(PayEvent::PspStatus(200));
                    assert!(matches!(self.action, PayAction::ReadReply));
                    self.next(PayEvent::PspReply(reply));
                }
            }
        }
        match self.action {
            PayAction::Answer(answer) => answer,
            PayAction::Finalize(id, verdict) => settle(books, id, &verdict),
            other => panic!("not the end of a payment: {other:?}"),
        }
    }
}

/// Lets payments act in turn, one action each, until all of them are at the call
/// of the provider or at the answer. Returns how often one had to wait.
fn act_in_turn(runs: &mut [Run], books: &mut Books) -> usize {
    let mut waits = 0;
    while !runs.iter().all(Run::is_admitted) {
        for i in 0..runs.len() {
            if runs[i].is_admitted() {
                continue;
            }
            if (0..runs.len()).any(|j| j != i && runs[i].waits_for(&runs[j])) {
                waits += 1;
            } else {
                runs[i].step(books);
            }
        }
    }
    waits
}

/// Asks the mock provider for a charge; nothing comes back where it takes
/// longer than the service waits.
fn charge(psp: &mut PspState, id: Uuid, card_token: &str) -> Option<Result<PspReply, u16>> {
    let input = PayInput {
        card_token: card_token.to_string(),
    };
    match psp.create_charge(Some(&id.text()), &input) {
        ChargeStep::Refused(reply) => Some(Err(reply.status)),
        ChargeStep::Known(reply) => Some(Ok(reply)),
        ChargeStep::Started {
            delay_millis,
            reply,
        } => {
            if delay_millis > 2000 {
                return None;
            }
            psp.complete_charge(&id.text(), reply);
            Some(Ok(psp.charge_or_processing(&id.text())))
        }
    }
}

fn settle(books: &mut Books, attempt_id: Uuid, verdict: &Verdict) -> Result<HttpReply, ApiError> {
    let mut stage = SettleStage::Begin;
    let mut action = SettleAction::Begin;
    let mut working = books.clone();
    loop {
        let event = match action {
            SettleAction::Answer(answer) => return answer,
            SettleAction::Begin | SettleAction::Rollback => {
                working = books.clone();
                SettleEvent::Succeeded
            }
            SettleAction::SelectAttempt => SettleEvent::Attempt(
                working
                    .attempts
                    .iter()
                    .find(|attempt| attempt.id == attempt_id)
                    .map(|attempt| AttemptRow {
                        status: attempt.status.clone(),
                        invoice_id: attempt.invoice_id,
                        business_id: Uuid {
                            bits: working.invoices[&attempt.invoice_id.bits].0,
                        },
                        invoice_status: working.invoice_status(attempt.invoice_id).to_string(),
                    }),
            ),
            SettleAction::SelectRecord => SettleEvent::Record(
                working
                    .keys
                    .values()
                    .find(|key| key.attempt_id == attempt_id)
                    .map(to_record),
            ),
            SettleAction::Write(settlement) => {
                working.write(&settlement);
                SettleEvent::Succeeded
            }
            SettleAction::Commit => {
                *books = working.clone();
                SettleEvent::Succeeded
            }
        };
        assert!(settle_awaits(&stage, &event));
        let (next_stage, next_action) = finalize_payment(attempt_id, verdict, stage, event);
        stage = next_stage;
        action = next_action;
    }
}

fn request(invoice_id: Uuid, key: &str, card_token: &str) -> PayRequest {
    let input = PayInput {
        card_token: card_token.to_string(),
    };
    take_request(BUSINESS, invoice_id, Some(key), input).unwrap()
}

fn pay(
    books: &mut Books,
    psp: &mut PspState,
    request: PayRequest,
) -> Result<HttpReply, ApiError> {
    let mut run = Run::new(request);
    run.admitted(books);
    run.finish(books, psp)
}

fn client_error(answer: Result<HttpReply, ApiError>) -> (u16, &'static str, String) {
    match answer {
        Err(ApiError::Client {
            status,
            code,
            message,
        }) => (status, code, message),
        other => panic!("not a client error: {other:?}"),
    }
}

#[test]
fn concurrent_payment_has_one_attempt() {
    let mut books = Books::with_invoices();
    let mut psp = PspState::new();
    let mut runs: Vec<Run> = (0..8)
        .map(|i| Run::new(request(INVOICE, &format!("key-{i}"), "tok_success")))
        .collect();
    assert!(act_in_turn(&mut runs, &mut books) > 0);
    let mut successes = 0;
    for run in runs {
        match run.finish(&mut books, &mut psp) {
            Ok(reply) => {
                if reply.status == 200 {
                    successes += 1;
                }
            }
            Err(error) => assert_eq!(
                client_error(Err(error)),
                (
                    409,
                    "payment_in_progress",
                    "another payment is already processing".to_string()
                )
            ),
        }
    }
    assert_eq!(successes, 1);
    assert_eq!(books.invoice_status(INVOICE), "paid");
    assert_eq!(books.attempts.len(), 1);
}

#[test]
fn two_payments_in_turn_charge_once() {
    let mut books = Books::with_invoices();
    let mut psp = PspState::new();
    let mut runs = vec![
        Run::new(request(INVOICE, "a", "tok_success")),
        Run::new(request(INVOICE, "b", "tok_success")),
    ];
    for run in runs.iter_mut() {
        run.step(&mut books);
    }
    // Both are about to read the invoice; the second has to wait for the first.
    runs[0].step(&mut books);
    assert!(runs[1].waits_for(&runs[0]));
    assert!(act_in_turn(&mut runs, &mut books) > 0);
    assert!(matches!(runs[0].action, PayAction::PostCharge(_)));
    let mut answers = runs.into_iter().map(|run| run.finish(&mut books, &mut psp));
    assert_eq!(answers.next().unwrap().unwrap().status, 200);
    assert_eq!(
        client_error(answers.next().unwrap()).1,
        "payment_in_progress"
    );
    drop(answers);
    assert_eq!(books.attempts.len(), 1);
    assert_eq!(books.keys.len(), 1);
    assert_eq!(books.invoice_status(INVOICE), "paid");
}

#[test]
fn payment_beside_a_declined_one_is_charged_after_it_failed() {
    let mut books = Books::with_invoices();
    let mut psp = PspState::new();
    let mut declined = Run::new(request(INVOICE, "a", "tok_card_declined"));
    let mut early = Run::new(request(INVOICE, "b", "tok_success"));
    let mut late = Run::new(request(INVOICE, "c", "tok_success"));
    late.step(&mut books);
    declined.admitted(&mut books);
    assert!(matches!(declined.action, PayAction::PostCharge(_)));
    // The attempt is pending: another payment is not charged yet.
    early.admitted(&mut books);
    assert_eq!(
        client_error(early.finish(&mut books, &mut psp)).1,
        "payment_in_progress"
    );
    declined.finish(&mut books, &mut psp).unwrap();
    late.admitted(&mut books);
    assert!(matches!(late.action, PayAction::PostCharge(_)));
    assert_eq!(books.attempts[0].status, "failed");
    assert_eq!(late.finish(&mut books, &mut psp).unwrap().status, 200);
    let statuses: Vec<&str> = books.attempts.iter().map(|a| a.status.as_str()).collect();
    assert_eq!(statuses, ["failed", "succeeded"]);
    assert_eq!(books.invoice_status(INVOICE), "paid");
}

#[test]
fn same_key_on_two_invoices_in_turn_has_one_winner() {
    let mut books = Books::with_invoices();
    let mut psp = PspState::new();
    let mut runs = vec![
        Run::new(request(INVOICE, "shared", "tok_success")),
        Run::new(request(OTHER_INVOICE, "shared", "tok_success")),
    ];
    assert!(act_in_turn(&mut runs, &mut books) > 0);
    let mut charged = 0;
    for run in runs {
        match run.finish(&mut books, &mut psp) {
            Ok(reply) => {
                assert_eq!(reply.status, 200);
                charged += 1;
            }
            Err(error) => assert_eq!(client_error(Err(error)).1, "idempotency_key_reused"),
        }
    }
    assert_eq!(charged, 1);
    assert_eq!(books.attempts.len(), 1);
    assert_eq!(books.keys.len(), 1);
}

#[test]
fn idempotent_retry_replays_without_second_attempt() {
    let mut books = Books::with_invoices();
    let mut psp = PspState::new();
    let first = pay(
        &mut books,
        &mut psp,
        request(INVOICE, "idem-1", "tok_success"),
    )
    .unwrap();
    let second = pay(
        &mut books,
        &mut psp,
        request(INVOICE, "idem-1", "tok_success"),
    )
    .unwrap();
    assert_eq!(second.status, first.status);
    assert_eq!(second.body, first.body);
    assert_eq!(first.status, 200);
    assert_eq!(books.attempts.len(), 1);
    assert_eq!(psp.get_call_count(&books.attempts[0].id.text()), 1);
    assert_eq!(books.events.len(), 1);
    assert_eq!(books.events[0].1, "invoice.paid");
    assert_eq!(books.events[0].2, first.body);
}

#[test]
fn timeout_is_accepted_then_reconciled() {
    let mut books = Books::with_invoices();
    let mut psp = PspState::new();
    let reply = pay(
        &mut books,
        &mut psp,
        request(INVOICE, "slow", "tok_timeout"),
    )
    .unwrap();
    assert_eq!(reply.status, 202);
    assert_eq!(books.invoice_status(INVOICE), "open");
    let id = books.attempts[0].id;
    let attempt = PendingAttempt {
        id,
        recovery_attempts: 0,
    };

    // The charge is still under way.
    let charge = psp.get_charge(&id.text()).unwrap();
    assert_eq!(charge.status, "processing");
    assert!(matches!(
        recover_attempt(attempt, ChargeEvent::Status(200)),
        RecoveryAction::ReadReply
    ));
    match recover_attempt(attempt, ChargeEvent::Reply(charge.clone())) {
        RecoveryAction::RetryUncounted {
            id: again,
            delay_seconds,
        } => {
            assert_eq!(again, id);
            assert_eq!(delay_seconds, 5);
        }
        other => panic!("{other:?}"),
    }

    // The charge went through.
    let reference = charge.psp_ref.clone();
    psp.complete_charge(
        &id.text(),
        PspReply {
            status: "succeeded".to_string(),
            psp_ref: reference.clone(),
            code: None,
        },
    );
    let charge = psp.get_charge(&id.text()).unwrap();
    match recover_attempt(attempt, ChargeEvent::Reply(charge)) {
        RecoveryAction::Finalize(settled, verdict) => {
            assert_eq!(settled, id);
            assert_eq!(verdict.psp_ref, reference);
            assert_eq!(settle(&mut books, id, &verdict).unwrap().status, 200);
        }
        other => panic!("{other:?}"),
    }
    assert_eq!(books.invoice_status(INVOICE), "paid");
    let replay = pay(
        &mut books,
        &mut psp,
        request(INVOICE, "slow", "tok_timeout"),
    )
    .unwrap();
    assert_eq!(replay.status, 200);
}

#[test]
fn settlement_of_a_success_is_answered_and_announced() {
    let mut books = Books::with_invoices();
    let mut psp = PspState::new();
    let reply = pay(&mut books, &mut psp, request(INVOICE, "k", "tok_success")).unwrap();
    let attempt = books.attempts[0].clone();
    let body: serde_json::Value = serde_json::from_str(&reply.body).unwrap();
    assert_eq!(body.to_string(), reply.body);
    assert_eq!(
        body["invoice_id"],
        "00112233-4455-6677-8899-aabbccddeeff"
    );
    assert_eq!(body["payment_attempt_id"], attempt.id.text());
    assert_eq!(body["payment_status"], "succeeded");
    assert_eq!(body["invoice_status"], "paid");
    assert_eq!(body["psp_ref"], attempt.psp_ref.clone().unwrap());
    assert!(body["failure_code"].is_null());
    assert_eq!(attempt.card_token, "tok_success");
}

#[test]
fn decline_leaves_the_invoice_open_and_payable() {
    let mut books = Books::with_invoices();
    let mut psp = PspState::new();
    let reply = pay(
        &mut books,
        &mut psp,
        request(INVOICE, "demo-decline-1", "tok_card_declined"),
    )
    .unwrap();
    assert_eq!(reply.status, 402);
    let body: serde_json::Value = serde_json::from_str(&reply.body).unwrap();
    assert_eq!(body["failure_code"], "card_declined");
    assert_eq!(body["invoice_status"], "open");
    assert_eq!(books.invoice_status(INVOICE), "open");
    assert_eq!(books.events[0].1, "invoice.payment_failed");

    let again = pay(
        &mut books,
        &mut psp,
        request(INVOICE, "demo-success-1", "tok_success"),
    )
    .unwrap();
    assert_eq!(again.status, 200);
    let replay = pay(
        &mut books,
        &mut psp,
        request(INVOICE, "demo-decline-1", "tok_card_declined"),
    )
    .unwrap();
    assert_eq!((replay.status, replay.body), (402, reply.body));
    assert_eq!(books.attempts.len(), 2);
}

#[test]
fn retry_while_the_charge_is_under_way_is_told_so() {
    let mut books = Books::with_invoices();
    let mut psp = PspState::new();
    let first = pay(
        &mut books,
        &mut psp,
        request(INVOICE, "slow", "tok_timeout"),
    )
    .unwrap();
    let second = pay(
        &mut books,
        &mut psp,
        request(INVOICE, "slow", "tok_timeout"),
    )
    .unwrap();
    assert_eq!((second.status, &second.body), (202, &first.body));
    assert_eq!(
        second.body,
        format!(
            "{{\"payment_attempt_id\":\"{}\",\"status\":\"processing\"}}",
            books.attempts[0].id.text()
        )
    );
    assert_eq!(psp.get_call_count(&books.attempts[0].id.text()), 1);
}

#[test]
fn provider_errors_leave_the_payment_pending() {
    let mut books = Books::with_invoices();
    let mut psp = PspState::new();
    let reply = pay(
        &mut books,
        &mut psp,
        request(INVOICE, "k", "tok_network_error"),
    )
    .unwrap();
    assert_eq!(reply.status, 202);
    assert_eq!(books.attempts[0].status, "pending");
}

#[test]
fn reused_key_is_refused() {
    let mut books = Books::with_invoices();
    let mut psp = PspState::new();
    pay(&mut books, &mut psp, request(INVOICE, "k", "tok_success")).unwrap();
    let conflict = (
        409,
        "idempotency_key_reused",
        "key was used with a different request".to_string(),
    );
    let other_token = pay(&mut books, &mut psp, request(INVOICE, "k", "tok_timeout"));
    assert_eq!(client_error(other_token), conflict);
    let other_invoice = pay(
        &mut books,
        &mut psp,
        request(OTHER_INVOICE, "k", "tok_success"),
    );
    assert_eq!(client_error(other_invoice), conflict);
    assert_eq!(books.attempts.len(), 1);
}

#[test]
fn paid_invoice_is_not_paid_again() {
    let mut books = Books::with_invoices();
    let mut psp = PspState::new();
    pay(&mut books, &mut psp, request(INVOICE, "a", "tok_success")).unwrap();
    let again = pay(&mut books, &mut psp, request(INVOICE, "b", "tok_success"));
    assert_eq!(
        client_error(again),
        (
            409,
            "invoice_not_payable",
            "invoice is already paid".to_string()
        )
    );
    assert_eq!(books.attempts.len(), 1);
}

#[test]
fn unknown_invoice_is_not_found() {
    let mut books = Books::with_invoices();
    let mut psp = PspState::new();
    let unknown = pay(
        &mut books,
        &mut psp,
        request(Uuid { bits: 99 }, "a", "tok_success"),
    );
    assert_eq!(
        client_error(unknown),
        (404, "invoice_not_found", "invoice not found".to_string())
    );
    let mut foreign = request(INVOICE, "a", "tok_success");
    foreign.business_id = Uuid { bits: 8 };
    let foreign = pay(&mut books, &mut psp, foreign);
    assert_eq!(
        client_error(foreign),
        (404, "invoice_not_found", "invoice not found".to_string())
    );
}

#[test]
fn key_race_across_invoices_has_one_winner() {
    let mut books = Books::with_invoices();
    let mut psp = PspState::new();
    let mut loser = Run::new(request(INVOICE, "shared", "tok_success"));
    while !matches!(loser.action, PayAction::InsertKey(_)) {
        loser.step(&mut books);
    }
    pay(
        &mut books,
        &mut psp,
        request(OTHER_INVOICE, "shared", "tok_success"),
    )
    .unwrap();
    loser.admitted(&mut books);
    assert_eq!(
        client_error(loser.finish(&mut books, &mut psp)),
        (
            409,
            "idempotency_key_reused",
            "key was used with a different request".to_string()
        )
    );
    assert_eq!(books.attempts.len(), 1);
    assert_eq!(books.invoice_status(INVOICE), "open");
    assert_eq!(books.invoice_status(OTHER_INVOICE), "paid");
}

#[test]
fn lost_race_for_the_same_request_replays_the_winner() {
    let request = request(INVOICE, "k", "tok_success");
    let record = IdempotencyRecord {
        request_hash: request.request_hash.clone(),
        state: "completed".to_string(),
        payment_attempt_id: Some(Uuid { bits: 3 }),
        response_status: Some(402),
        response_body: Some("{\"a\":1}".to_string()),
    };
    let (_, action) = pay_invoice(&request, PayStage::Winner, PayEvent::Record(Some(record)));
    match action {
        PayAction::Answer(Ok(reply)) => {
            assert_eq!((reply.status, reply.body.as_str()), (402, "{\"a\":1}"))
        }
        other => panic!("{other:?}"),
    }
    let (_, action) = pay_invoice(&request, PayStage::Winner, PayEvent::Record(None));
    match action {
        PayAction::Answer(Err(ApiError::Internal(detail))) => assert_eq!(
            detail,
            "idempotency record missing after unique-key conflict"
        ),
        other => panic!("{other:?}"),
    }
}

#[test]
fn database_errors_end_a_payment() {
    let request = request(INVOICE, "k", "tok_success");
    let event = PayEvent::DatabaseError("gone".to_string());
    let (stage, action) = pay_invoice(&request, PayStage::Begin, event);
    assert!(matches!(stage, PayStage::Done));
    match action {
        PayAction::Answer(Err(ApiError::Database(detail))) => assert_eq!(detail, "gone"),
        other => panic!("{other:?}"),
    }
    let verdict = Verdict {
        succeeded: true,
        psp_ref: None,
        failure_code: None,
    };
    let event = SettleEvent::DatabaseError("gone".to_string());
    let (_, action) = finalize_payment(INVOICE, &verdict, SettleStage::Attempt, event);
    assert!(matches!(
        action,
        SettleAction::Answer(Err(ApiError::Database(_)))
    ));
}

#[test]
fn unreadable_reply_is_an_internal_error() {
    let request = request(INVOICE, "k", "tok_success");
    let stage = PayStage::ChargeReply {
        attempt_id: Uuid { bits: 3 },
    };
    let event = PayEvent::PspUnreadable("not JSON".to_string());
    let (_, action) = pay_invoice(&request, stage, event);
    match action {
        PayAction::Answer(Err(ApiError::Internal(detail))) => assert_eq!(detail, "not JSON"),
        other => panic!("{other:?}"),
    }
}

#[test]
fn stages_await_their_events_only() {
    assert!(awaits(&PayStage::Begin, &PayEvent::Succeeded));
    assert!(!awaits(&PayStage::Begin, &PayEvent::KeyTaken));
    assert!(awaits(
        &PayStage::Key {
            attempt_id: INVOICE
        },
        &PayEvent::KeyTaken
    ));
    assert!(!awaits(&PayStage::Done, &PayEvent::Succeeded));
    assert!(!settle_awaits(
        &SettleStage::Attempt,
        &SettleEvent::Succeeded
    ));
    assert!(settle_awaits(
        &SettleStage::Record,
        &SettleEvent::Record(None)
    ));
}

#[test]
fn settled_attempt_is_left_alone() {
    let mut books = Books::with_invoices();
    let mut psp = PspState::new();
    let reply = pay(&mut books, &mut psp, request(INVOICE, "k", "tok_success")).unwrap();
    let id = books.attempts[0].id;
    let late = Verdict {
        succeeded: false,
        psp_ref: None,
        failure_code: Some("psp_unavailable".to_string()),
    };
    let answer = settle(&mut books, id, &late).unwrap();
    assert_eq!((answer.status, answer.body), (200, reply.body));
    assert_eq!(books.attempts[0].status, "succeeded");
    assert_eq!(books.events.len(), 1);
}

#[test]
fn settlement_errors() {
    let mut books = Books::with_invoices();
    let success = Verdict {
        succeeded: true,
        psp_ref: None,
        failure_code: None,
    };
    assert_eq!(
        client_error(settle(&mut books, Uuid { bits: 1 }, &success)),
        (
            404,
            "payment_attempt_not_found",
            "payment attempt not found".to_string()
        )
    );
    let row = AttemptRow {
        status: "pending".to_string(),
        invoice_id: INVOICE,
        business_id: BUSINESS,
        invoice_status: "paid".to_string(),
    };
    let event = SettleEvent::Attempt(Some(row));
    let (_, action) = finalize_payment(Uuid { bits: 1 }, &success, SettleStage::Attempt, event);
    match action {
        SettleAction::Answer(answer) => assert_eq!(
            client_error(answer),
            (
                409,
                "invoice_not_payable",
                "invoice is no longer open".to_string()
            )
        ),
        other => panic!("{other:?}"),
    }
    let (stage, action) = finalize_payment(
        Uuid { bits: 1 },
        &success,
        SettleStage::Record,
        SettleEvent::Record(None),
    );
    assert!(matches!(action, SettleAction::Rollback));
    match stage {
        SettleStage::ReplayRollback { reply } => assert_eq!(reply.status, 202),
        other => panic!("{other:?}"),
    }
}

#[test]
fn recovery_gives_up_at_the_fourth_failure() {
    let mut attempt = PendingAttempt {
        id: INVOICE,
        recovery_attempts: 0,
    };
    for delay in [5, 20, 60] {
        match recover_attempt(attempt, ChargeEvent::Silent) {
            RecoveryAction::Retry {
                recovery_attempts,
                delay_seconds,
                ..
            } => {
                assert_eq!(delay_seconds, delay);
                assert_eq!(recovery_attempts, attempt.recovery_attempts + 1);
                attempt.recovery_attempts = recovery_attempts;
            }
            other => panic!("{other:?}"),
        }
    }
    match recover_attempt(attempt, ChargeEvent::Status(404)) {
        RecoveryAction::Finalize(id, verdict) => {
            assert_eq!(id, INVOICE);
            assert!(!verdict.succeeded);
            assert_eq!(verdict.psp_ref, None);
            assert_eq!(verdict.failure_code.as_deref(), Some("psp_unavailable"));
        }
        other => panic!("{other:?}"),
    }
    assert!(matches!(
        recover_attempt(attempt, ChargeEvent::Unreadable),
        RecoveryAction::RetryUncounted { .. }
    ));
    assert!(matches!(
        schedule_recovery(attempt, false),
        RecoveryAction::RetryUncounted { .. }
    ));
}

#[test]
fn failed_charges_keep_their_code() {
    let verdict = verdict_of(PspReply {
        status: "failed".to_string(),
        psp_ref: Some("r".to_string()),
        code: Some("c".to_string()),
    })
    .unwrap();
    assert!(!verdict.succeeded);
    assert_eq!(verdict.psp_ref.as_deref(), Some("r"));
    assert_eq!(verdict.failure_code.as_deref(), Some("c"));
    let verdict = verdict_of(PspReply {
        status: "succeeded".to_string(),
        psp_ref: None,
        code: Some("c".to_string()),
    })
    .unwrap();
    assert!(verdict.succeeded);
    assert_eq!(verdict.failure_code, None);
    assert!(verdict_of(PspReply {
        status: "processing".to_string(),
        psp_ref: None,
        code: None,
    })
    .is_none());
}

#[test]
fn request_fingerprints() {
    let input = PayInput {
        card_token: "tok_success".to_string(),
    };
    assert_eq!(
        hash_payment_request(INVOICE, &input).unwrap(),
        "9c3b46d5bcfc3a7b235fcf44419fb40edc3e567d34750bed4628b23942043ea9"
    );
    let input = PayInput {
        card_token: "a\"b\\c\n\u{e9}".to_string(),
    };
    assert_eq!(
        hash_payment_request(INVOICE, &input).unwrap(),
        "e3df640986c2575aed88448428f68911ef6a6e61e0acd82bb73417ed9c35b2d5"
    );
    let request = payment_request(BUSINESS, INVOICE, "k", input).unwrap();
    assert_eq!(
        request.request_hash,
        "e3df640986c2575aed88448428f68911ef6a6e61e0acd82bb73417ed9c35b2d5"
    );
    assert_eq!(request.idempotency_key, "k");
}

#[test]
fn stored_status_is_taken_modulo_sixteen_bits() {
    assert_eq!(stored_response(200, "{}".to_string()).status, 200);
    assert_eq!(stored_response(-65336, "{}".to_string()).status, 200);
    assert_eq!(stored_response(99, "{}".to_string()).status, 500);
    assert_eq!(stored_response(1000, "{}".to_string()).status, 500);
}

#[test]
fn records_reply_with_what_they_hold() {
    let record = |state: &str, status: Option<i32>, body: Option<&str>| IdempotencyRecord {
        request_hash: String::new(),
        state: state.to_string(),
        payment_attempt_id: None,
        response_status: status,
        response_body: body.map(|body| body.to_string()),
    };
    let reply = response_from_idempotency_record(record("processing", Some(200), Some("{}")));
    assert_eq!(reply.status, 202);
    assert_eq!(
        reply.body,
        "{\"payment_attempt_id\":null,\"status\":\"processing\"}"
    );
    assert_eq!(processing_response(None).body, reply.body);
    let reply = response_from_idempotency_record(record("completed", Some(402), Some("{}")));
    assert_eq!((reply.status, reply.body.as_str()), (402, "{}"));
    let reply = response_from_idempotency_record(record("completed", None, None));
    assert_eq!(
        (reply.status, reply.body.as_str()),
        (500, "{\"error\":{\"code\":\"missing_response\"}}")
    );
}

#[test]
fn provider_urls() {
    assert_eq!(charges_url("http://psp:1"), "http://psp:1/charges");
    assert_eq!(
        charge_url("http://psp:1", INVOICE),
        "http://psp:1/charges/00112233-4455-6677-8899-aabbccddeeff"
    );
}

#[test]
fn unique_violations_are_told_by_their_code() {
    assert!(is_unique_violation(Some("23505")));
    assert!(!is_unique_violation(Some("23503")));
    assert!(!is_unique_violation(None));
}

#[test]
fn payment_requests_are_checked() {
    let input = |card_token: &str| PayInput {
        card_token: card_token.to_string(),
    };
    let missing = (
        422,
        "missing_idempotency_key",
        "Idempotency-Key is required".to_string(),
    );
    for header in [None, Some(""), Some(" \t ")] {
        let error = take_request(BUSINESS, INVOICE, header, input("t")).unwrap_err();
        assert_eq!(client_error(Err(error)), missing);
    }
    let long = "k".repeat(201);
    let error = take_request(BUSINESS, INVOICE, Some(&long), input("t")).unwrap_err();
    assert_eq!(client_error(Err(error)), missing);
    let error = take_request(BUSINESS, INVOICE, Some("k"), input(" \n")).unwrap_err();
    assert_eq!(
        client_error(Err(error)),
        (
            422,
            "invalid_card_token",
            "card_token is required".to_string()
        )
    );
    let padded = format!("  {}  ", "k".repeat(200));
    let request = take_request(BUSINESS, INVOICE, Some(&padded), input(" t ")).unwrap();
    assert_eq!(request.idempotency_key, "k".repeat(200));
    assert_eq!(request.card_token, " t ");
}
