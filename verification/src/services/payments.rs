//! Payments: admission, the call of the payment provider, settlement and
//! recovery.
use vstd::prelude::*;
use vstd::string::*;
use vstd::utf8::*;

use crate::crypto::{digest, hex_encode, hex_text, sha256};
use crate::error::{client_error, ApiError, ErrorView};
use crate::http::{
    is_status_code, is_success, is_success_code, HttpReply, ReplyView, ACCEPTED, CONFLICT,
    INTERNAL_SERVER_ERROR, NOT_FOUND,
};
use crate::ids::{is_v4, uuid_text, uuid_text_is_injective, uuid_text_len, Uuid};
use crate::models::{PayInput, PspReply, PspReplyView};
use crate::text::{
    json_string, json_string_is_injective, opt_text, quote, same_text, serialize_json_string,
};

verus! {

// What identifies a payment request.

/// What the fingerprint of a payment request is taken of: the method, the path
/// with the invoice, and the body.
pub open spec fn request_text(invoice_id: Uuid, card_token: Seq<char>) -> Seq<char> {
    "POST:/invoices/"@ + uuid_text(invoice_id) + "/pay:"@ + "{\"card_token\":"@ + json_string(
        card_token,
    ) + "}"@
}

/// The fingerprint of a payment request.
pub open spec fn request_fingerprint(invoice_id: Uuid, card_token: Seq<char>) -> Seq<char> {
    hex_text(sha256(encode_utf8(request_text(invoice_id, card_token))))
}

/// Two payment requests with the same text are for the same invoice and the
/// same card token: what the fingerprint is taken of tells requests apart.
pub proof fn request_text_is_injective(
    invoice_a: Uuid,
    token_a: Seq<char>,
    invoice_b: Uuid,
    token_b: Seq<char>,
)
    requires
        encode_utf8(request_text(invoice_a, token_a)) == encode_utf8(
            request_text(invoice_b, token_b),
        ),
    ensures
        invoice_a == invoice_b,
        token_a == token_b,
{
    let a = request_text(invoice_a, token_a);
    let b = request_text(invoice_b, token_b);
    encode_utf8_decode_utf8(a);
    encode_utf8_decode_utf8(b);
    assert(a == b);
    uuid_text_len(invoice_a);
    uuid_text_len(invoice_b);
    reveal_strlit("POST:/invoices/");
    reveal_strlit("/pay:");
    reveal_strlit("{\"card_token\":");
    reveal_strlit("}");
    let head = "POST:/invoices/"@.len() as int;
    let body = head + 36 + "/pay:"@.len() + "{\"card_token\":"@.len();
    assert(a.subrange(head, head + 36) == uuid_text(invoice_a));
    assert(b.subrange(head, head + 36) == uuid_text(invoice_b));
    assert(a.subrange(body, a.len() - 1) == json_string(token_a));
    assert(b.subrange(body, b.len() - 1) == json_string(token_b));
    uuid_text_is_injective(invoice_a, invoice_b);
    json_string_is_injective(token_a, token_b);
}

/// The fingerprint of a payment request.
pub fn hash_payment_request(invoice_id: Uuid, input: &PayInput) -> (result: Result<
    String,
    ApiError,
>)
    ensures
        result is Ok,
        result->Ok_0@ == request_fingerprint(invoice_id, input.card_token@),
        result->Ok_0@.len() == 64,
{
    let token = match serialize_json_string(input.card_token.as_str()) {
        Ok(token) => token,
        Err(_) => return Err(ApiError::Internal("card token".to_owned())),
    };
    let id = invoice_id.text();
    let text = "POST:/invoices/".to_owned().concat(id.as_str()).concat("/pay:");
    let text = text.concat("{\"card_token\":").concat(token.as_str()).concat("}");
    let hash = digest(text.as_str().as_bytes());
    Ok(hex_encode(&hash))
}

// What is stored under an idempotency key.

/// The row that an idempotency key stands for.
#[derive(Debug)]
pub struct IdempotencyRecord {
    pub request_hash: String,
    pub state: String,
    pub payment_attempt_id: Option<Uuid>,
    pub response_status: Option<i32>,
    pub response_body: Option<String>,
}

/// What a row of an idempotency key says.
pub struct RecordView {
    pub request_hash: Seq<char>,
    pub state: Seq<char>,
    pub payment_attempt_id: Option<Uuid>,
    pub response_status: Option<i32>,
    pub response_body: Option<Seq<char>>,
}

impl View for IdempotencyRecord {
    type V = RecordView;

    open spec fn view(&self) -> RecordView {
        RecordView {
            request_hash: self.request_hash@,
            state: self.state@,
            payment_attempt_id: self.payment_attempt_id,
            response_status: self.response_status,
            response_body: opt_text(self.response_body),
        }
    }
}

/// The reply while a payment is under way.
pub open spec fn processing_reply_view(attempt_id: Option<Uuid>) -> ReplyView {
    ReplyView {
        status: ACCEPTED,
        body: "{\"payment_attempt_id\":"@ + (match attempt_id {
            Some(id) => json_string(uuid_text(id)),
            None => "null"@,
        }) + ",\"status\":\"processing\"}"@,
    }
}

/// The reply while a payment is under way.
pub fn processing_response(attempt_id: Option<Uuid>) -> (result: HttpReply)
    ensures
        result@ == processing_reply_view(attempt_id),
{
    let id = match attempt_id {
        Some(id) => {
            let text = id.text();
            quote(text.as_str())
        },
        None => "null".to_owned(),
    };
    let text = "{\"payment_attempt_id\":".to_owned().concat(id.as_str());
    HttpReply { status: ACCEPTED, body: text.concat(",\"status\":\"processing\"}") }
}

/// A stored status and body as a reply. The status is taken modulo 2^16, and
/// what is no status code after that is answered as an internal error.
pub open spec fn stored_reply_view(status: i32, body: Seq<char>) -> ReplyView {
    let code = status as int % 0x1_0000;
    ReplyView {
        status: if is_status_code(code) { code as u16 } else { INTERNAL_SERVER_ERROR },
        body,
    }
}

/// A stored status and body as a reply.
pub fn stored_response(status: i32, body: String) -> (result: HttpReply)
    ensures
        result@ == stored_reply_view(status, body@),
{
    #[verifier::truncate]
    let code: u16 = status as u16;
    assert(code as int == status as int % 0x1_0000) by {
        assert(status as u16 == status % 0x1_0000) by (bit_vector);
    }
    if 100 <= code && code <= 999 {
        HttpReply { status: code, body }
    } else {
        HttpReply { status: INTERNAL_SERVER_ERROR, body }
    }
}

/// The reply that a stored row gives: the stored response where the payment is
/// completed, and the word that it is under way before that.
pub open spec fn record_reply_view(record: RecordView) -> ReplyView {
    if record.state != "completed"@ {
        processing_reply_view(record.payment_attempt_id)
    } else {
        stored_reply_view(
            match record.response_status {
                Some(status) => status,
                None => 500,
            },
            match record.response_body {
                Some(body) => body,
                None => "{\"error\":{\"code\":\"missing_response\"}}"@,
            },
        )
    }
}

/// The reply that a stored row gives.
pub fn response_from_idempotency_record(record: IdempotencyRecord) -> (result: HttpReply)
    ensures
        result@ == record_reply_view(record@),
{
    if !same_text(record.state.as_str(), "completed") {
        return processing_response(record.payment_attempt_id);
    }
    let status: i32 = match record.response_status {
        Some(status) => status,
        None => 500,
    };
    let body = match record.response_body {
        Some(body) => body,
        None => "{\"error\":{\"code\":\"missing_response\"}}".to_owned(),
    };
    stored_response(status, body)
}

// Statuses.

/// The status of an invoice row. An invoice is `open` until it is `paid`.
#[derive(Clone, Copy, Debug, PartialEq, Eq, Structural)]
pub enum InvoiceStatus {
    Open,
    Paid,
    Other,
}

/// What an invoice's status text stands for.
pub open spec fn invoice_status(text: Seq<char>) -> InvoiceStatus {
    if text == "open"@ {
        InvoiceStatus::Open
    } else if text == "paid"@ {
        InvoiceStatus::Paid
    } else {
        InvoiceStatus::Other
    }
}

impl InvoiceStatus {
    /// Reads the status text of an invoice row.
    pub fn parse(text: &str) -> (result: InvoiceStatus)
        ensures
            result == invoice_status(text@),
    {
        if same_text(text, "open") {
            InvoiceStatus::Open
        } else if same_text(text, "paid") {
            InvoiceStatus::Paid
        } else {
            InvoiceStatus::Other
        }
    }
}

// What the provider said.

/// How a charge ended.
#[derive(Debug)]
pub struct Verdict {
    pub succeeded: bool,
    pub psp_ref: Option<String>,
    pub failure_code: Option<String>,
}

/// What a verdict says.
pub struct VerdictView {
    pub succeeded: bool,
    pub psp_ref: Option<Seq<char>>,
    pub failure_code: Option<Seq<char>>,
}

impl View for Verdict {
    type V = VerdictView;

    open spec fn view(&self) -> VerdictView {
        VerdictView {
            succeeded: self.succeeded,
            psp_ref: opt_text(self.psp_ref),
            failure_code: opt_text(self.failure_code),
        }
    }
}

/// The verdict of an optional verdict.
pub open spec fn opt_verdict(verdict: Option<Verdict>) -> Option<VerdictView> {
    match verdict {
        Some(verdict) => Some(verdict@),
        None => None,
    }
}

/// The verdict in a provider's reply: none while the charge is neither
/// `succeeded` nor `failed`, and no failure code where it succeeded.
pub open spec fn reply_verdict(reply: PspReplyView) -> Option<VerdictView> {
    if reply.status == "succeeded"@ {
        Some(VerdictView { succeeded: true, psp_ref: reply.psp_ref, failure_code: None })
    } else if reply.status == "failed"@ {
        Some(VerdictView { succeeded: false, psp_ref: reply.psp_ref, failure_code: reply.code })
    } else {
        None
    }
}

/// The verdict in a provider's reply.
pub fn verdict_of(reply: PspReply) -> (result: Option<Verdict>)
    ensures
        opt_verdict(result) == reply_verdict(reply@),
{
    if same_text(reply.status.as_str(), "succeeded") {
        Some(Verdict { succeeded: true, psp_ref: reply.psp_ref, failure_code: None })
    } else if same_text(reply.status.as_str(), "failed") {
        Some(Verdict { succeeded: false, psp_ref: reply.psp_ref, failure_code: reply.code })
    } else {
        None
    }
}

/// Where a charge is created at the provider.
pub fn charges_url(psp_url: &str) -> (result: String)
    ensures
        result@ == psp_url@ + "/charges"@,
{
    psp_url.to_owned().concat("/charges")
}

/// Where the charge of a payment attempt is looked up at the provider.
pub fn charge_url(psp_url: &str, attempt_id: Uuid) -> (result: String)
    ensures
        result@ == psp_url@ + "/charges/"@ + uuid_text(attempt_id),
{
    let id = attempt_id.text();
    psp_url.to_owned().concat("/charges/").concat(id.as_str())
}

// Admission of a payment.

/// A request to pay an invoice, with its fingerprint.
#[derive(Debug)]
pub struct PayRequest {
    pub business_id: Uuid,
    pub invoice_id: Uuid,
    pub idempotency_key: String,
    pub request_hash: String,
    pub card_token: String,
}

/// What a payment request says.
pub struct RequestView {
    pub business_id: Uuid,
    pub invoice_id: Uuid,
    pub idempotency_key: Seq<char>,
    pub request_hash: Seq<char>,
    pub card_token: Seq<char>,
}

impl View for PayRequest {
    type V = RequestView;

    open spec fn view(&self) -> RequestView {
        RequestView {
            business_id: self.business_id,
            invoice_id: self.invoice_id,
            idempotency_key: self.idempotency_key@,
            request_hash: self.request_hash@,
            card_token: self.card_token@,
        }
    }
}

impl RequestView {
    /// The fingerprint is that of the invoice and the card token.
    pub open spec fn well_formed(self) -> bool {
        self.request_hash == request_fingerprint(self.invoice_id, self.card_token)
    }
}

/// Makes a payment request.
pub fn payment_request(
    business_id: Uuid,
    invoice_id: Uuid,
    idempotency_key: &str,
    input: PayInput,
) -> (result: Result<PayRequest, ApiError>)
    ensures
        result is Ok,
        result->Ok_0@ == (RequestView {
            business_id,
            invoice_id,
            idempotency_key: idempotency_key@,
            request_hash: request_fingerprint(invoice_id, input.card_token@),
            card_token: input.card_token@,
        }),
        result->Ok_0@.well_formed(),
{
    match hash_payment_request(invoice_id, &input) {
        Ok(request_hash) => Ok(
            PayRequest {
                business_id,
                invoice_id,
                idempotency_key: idempotency_key.to_owned(),
                request_hash,
                card_token: input.card_token,
            },
        ),
        Err(error) => Err(error),
    }
}

/// How far a payment is: which answer it waits for.
#[derive(Debug)]
pub enum PayStage {
    Begin,
    Invoice,
    Record { status: InvoiceStatus },
    ReplayRollback { reply: HttpReply },
    Pending,
    Attempt { attempt_id: Uuid },
    Key { attempt_id: Uuid },
    ConflictRollback,
    Winner,
    Commit { attempt_id: Uuid },
    Charge { attempt_id: Uuid },
    ChargeReply { attempt_id: Uuid },
    Done,
}

/// What a stage says.
pub enum PayStageView {
    Begin,
    Invoice,
    Record { status: InvoiceStatus },
    ReplayRollback { reply: ReplyView },
    Pending,
    Attempt { attempt_id: Uuid },
    Key { attempt_id: Uuid },
    ConflictRollback,
    Winner,
    Commit { attempt_id: Uuid },
    Charge { attempt_id: Uuid },
    ChargeReply { attempt_id: Uuid },
    Done,
}

impl View for PayStage {
    type V = PayStageView;

    open spec fn view(&self) -> PayStageView {
        match *self {
            PayStage::Begin => PayStageView::Begin,
            PayStage::Invoice => PayStageView::Invoice,
            PayStage::Record { status } => PayStageView::Record { status },
            PayStage::ReplayRollback { reply } => PayStageView::ReplayRollback { reply: reply@ },
            PayStage::Pending => PayStageView::Pending,
            PayStage::Attempt { attempt_id } => PayStageView::Attempt { attempt_id },
            PayStage::Key { attempt_id } => PayStageView::Key { attempt_id },
            PayStage::ConflictRollback => PayStageView::ConflictRollback,
            PayStage::Winner => PayStageView::Winner,
            PayStage::Commit { attempt_id } => PayStageView::Commit { attempt_id },
            PayStage::Charge { attempt_id } => PayStageView::Charge { attempt_id },
            PayStage::ChargeReply { attempt_id } => PayStageView::ChargeReply { attempt_id },
            PayStage::Done => PayStageView::Done,
        }
    }
}

/// What came of the last action of a payment.
#[derive(Debug)]
pub enum PayEvent {
    /// The database did what it was asked.
    Succeeded,
    /// The status of the business's invoice, where there is one.
    Invoice(Option<InvoiceStatus>),
    /// The row of the idempotency key, where there is one.
    Record(Option<IdempotencyRecord>),
    /// The invoice's pending attempt, where there is one.
    Pending(Option<Uuid>),
    /// The idempotency key was taken by another request in the meantime.
    KeyTaken,
    /// The database failed.
    DatabaseError(String),
    /// The provider could not be reached, or not in time.
    PspSilent,
    /// The status code of the provider's answer.
    PspStatus(u16),
    /// The provider's answer.
    PspReply(PspReply),
    /// The provider's answer could not be read.
    PspUnreadable(String),
}

/// What an event says.
pub enum PayEventView {
    Succeeded,
    Invoice(Option<InvoiceStatus>),
    Record(Option<RecordView>),
    Pending(Option<Uuid>),
    KeyTaken,
    DatabaseError(Seq<char>),
    PspSilent,
    PspStatus(u16),
    PspReply(PspReplyView),
    PspUnreadable(Seq<char>),
}

/// The view of an optional row.
pub open spec fn opt_record(record: Option<IdempotencyRecord>) -> Option<RecordView> {
    match record {
        Some(record) => Some(record@),
        None => None,
    }
}

impl View for PayEvent {
    type V = PayEventView;

    open spec fn view(&self) -> PayEventView {
        match *self {
            PayEvent::Succeeded => PayEventView::Succeeded,
            PayEvent::Invoice(status) => PayEventView::Invoice(status),
            PayEvent::Record(record) => PayEventView::Record(opt_record(record)),
            PayEvent::Pending(id) => PayEventView::Pending(id),
            PayEvent::KeyTaken => PayEventView::KeyTaken,
            PayEvent::DatabaseError(detail) => PayEventView::DatabaseError(detail@),
            PayEvent::PspSilent => PayEventView::PspSilent,
            PayEvent::PspStatus(code) => PayEventView::PspStatus(code),
            PayEvent::PspReply(reply) => PayEventView::PspReply(reply@),
            PayEvent::PspUnreadable(detail) => PayEventView::PspUnreadable(detail@),
        }
    }
}

/// What a payment does next.
#[derive(Debug)]
pub enum PayAction {
    /// Begin a transaction.
    Begin,
    /// Lock the business's invoice and read its status.
    SelectInvoice,
    /// Read the row of the idempotency key.
    SelectRecord,
    /// Read the invoice's pending attempt.
    SelectPending,
    /// Insert a pending attempt under this id.
    InsertAttempt(Uuid),
    /// Insert the idempotency key for the attempt with this id.
    InsertKey(Uuid),
    Rollback,
    Commit,
    /// Ask the provider for a charge, with the attempt's id as its key.
    PostCharge(Uuid),
    /// Read the provider's answer.
    ReadReply,
    /// Settle the attempt, and answer as the settlement does.
    Finalize(Uuid, Verdict),
    /// Answer the request.
    Answer(Result<HttpReply, ApiError>),
}

/// What an action says.
pub enum PayActionView {
    Begin,
    SelectInvoice,
    SelectRecord,
    SelectPending,
    InsertAttempt(Uuid),
    InsertKey(Uuid),
    Rollback,
    Commit,
    PostCharge(Uuid),
    ReadReply,
    Finalize(Uuid, VerdictView),
    Answer(Result<ReplyView, ErrorView>),
}

/// The view of an answer.
pub open spec fn answer_view(answer: Result<HttpReply, ApiError>) -> Result<ReplyView, ErrorView> {
    match answer {
        Ok(reply) => Ok(reply@),
        Err(error) => Err(error@),
    }
}

impl View for PayAction {
    type V = PayActionView;

    open spec fn view(&self) -> PayActionView {
        match *self {
            PayAction::Begin => PayActionView::Begin,
            PayAction::SelectInvoice => PayActionView::SelectInvoice,
            PayAction::SelectRecord => PayActionView::SelectRecord,
            PayAction::SelectPending => PayActionView::SelectPending,
            PayAction::InsertAttempt(id) => PayActionView::InsertAttempt(id),
            PayAction::InsertKey(id) => PayActionView::InsertKey(id),
            PayAction::Rollback => PayActionView::Rollback,
            PayAction::Commit => PayActionView::Commit,
            PayAction::PostCharge(id) => PayActionView::PostCharge(id),
            PayAction::ReadReply => PayActionView::ReadReply,
            PayAction::Finalize(id, verdict) => PayActionView::Finalize(id, verdict@),
            PayAction::Answer(answer) => PayActionView::Answer(answer_view(answer)),
        }
    }
}

/// Whether an event can be what a stage waits for.
pub open spec fn stage_awaits(stage: PayStageView, event: PayEventView) -> bool {
    match stage {
        PayStageView::Begin
        | PayStageView::ReplayRollback { .. }
        | PayStageView::Attempt { .. }
        | PayStageView::ConflictRollback
        | PayStageView::Commit { .. } => event is Succeeded || event is DatabaseError,
        PayStageView::Invoice => event is Invoice || event is DatabaseError,
        PayStageView::Record { .. } | PayStageView::Winner => event is Record
            || event is DatabaseError,
        PayStageView::Pending => event is Pending || event is DatabaseError,
        PayStageView::Key { .. } => event is Succeeded || event is KeyTaken
            || event is DatabaseError,
        PayStageView::Charge { .. } => event is PspSilent || event is PspStatus,
        PayStageView::ChargeReply { .. } => event is PspReply || event is PspUnreadable,
        PayStageView::Done => false,
    }
}

/// Whether an event can be what a stage waits for.
pub fn awaits(stage: &PayStage, event: &PayEvent) -> (result: bool)
    ensures
        result == stage_awaits(stage@, event@),
{
    match (stage, event) {
        (PayStage::Done, _) => false,
        (PayStage::Charge { .. }, PayEvent::PspSilent) => true,
        (PayStage::Charge { .. }, PayEvent::PspStatus(_)) => true,
        (PayStage::Charge { .. }, _) => false,
        (PayStage::ChargeReply { .. }, PayEvent::PspReply(_)) => true,
        (PayStage::ChargeReply { .. }, PayEvent::PspUnreadable(_)) => true,
        (PayStage::ChargeReply { .. }, _) => false,
        (_, PayEvent::DatabaseError(_)) => true,
        (PayStage::Invoice, PayEvent::Invoice(_)) => true,
        (PayStage::Invoice, _) => false,
        (PayStage::Record { .. }, PayEvent::Record(_)) => true,
        (PayStage::Record { .. }, _) => false,
        (PayStage::Winner, PayEvent::Record(_)) => true,
        (PayStage::Winner, _) => false,
        (PayStage::Pending, PayEvent::Pending(_)) => true,
        (PayStage::Pending, _) => false,
        (PayStage::Key { .. }, PayEvent::KeyTaken) => true,
        (_, PayEvent::Succeeded) => true,
        _ => false,
    }
}

/// The error for an invoice that the business does not have.
pub open spec fn invoice_not_found_view() -> ErrorView {
    client_error(NOT_FOUND, "invoice_not_found"@, "invoice not found"@)
}

/// The error for an idempotency key that stands for another request.
pub open spec fn key_reused_view() -> ErrorView {
    client_error(CONFLICT, "idempotency_key_reused"@, "key was used with a different request"@)
}

/// The error for an invoice that is paid already.
pub open spec fn already_paid_view() -> ErrorView {
    client_error(CONFLICT, "invoice_not_payable"@, "invoice is already paid"@)
}

/// The error for an invoice with a payment under way.
pub open spec fn payment_in_progress_view() -> ErrorView {
    client_error(CONFLICT, "payment_in_progress"@, "another payment is already processing"@)
}

/// The end of a payment.
pub open spec fn answered(answer: Result<ReplyView, ErrorView>) -> (PayStageView, PayActionView) {
    (PayStageView::Done, PayActionView::Answer(answer))
}

/// What a stored row means for a request: the row's reply where the
/// fingerprints agree, and a conflict where they do not.
pub open spec fn record_answer(record: RecordView, request: RequestView) -> Result<
    ReplyView,
    ErrorView,
> {
    if record.request_hash != request.request_hash {
        Err(key_reused_view())
    } else {
        Ok(record_reply_view(record))
    }
}

/// The next stage and action of a payment, where `fresh` is the id of a new
/// attempt.
pub open spec fn next_payment(
    request: RequestView,
    stage: PayStageView,
    event: PayEventView,
    fresh: Uuid,
) -> (PayStageView, PayActionView) {
    match (stage, event) {
        (_, PayEventView::DatabaseError(detail)) => answered(Err(ErrorView::Database(detail))),
        (PayStageView::Begin, _) => (PayStageView::Invoice, PayActionView::SelectInvoice),
        (PayStageView::Invoice, PayEventView::Invoice(None)) => answered(
            Err(invoice_not_found_view()),
        ),
        (PayStageView::Invoice, PayEventView::Invoice(Some(status))) => (
            PayStageView::Record { status },
            PayActionView::SelectRecord,
        ),
        (PayStageView::Record { status }, PayEventView::Record(Some(record))) => {
            match record_answer(record, request) {
                Ok(reply) => (PayStageView::ReplayRollback { reply }, PayActionView::Rollback),
                Err(error) => answered(Err(error)),
            }
        },
        (PayStageView::Record { status }, PayEventView::Record(None)) => if status
            == InvoiceStatus::Paid {
            answered(Err(already_paid_view()))
        } else {
            (PayStageView::Pending, PayActionView::SelectPending)
        },
        (PayStageView::ReplayRollback { reply }, _) => answered(Ok(reply)),
        (PayStageView::Pending, PayEventView::Pending(Some(_))) => answered(
            Err(payment_in_progress_view()),
        ),
        (PayStageView::Pending, PayEventView::Pending(None)) => (
            PayStageView::Attempt { attempt_id: fresh },
            PayActionView::InsertAttempt(fresh),
        ),
        (PayStageView::Attempt { attempt_id }, _) => (
            PayStageView::Key { attempt_id },
            PayActionView::InsertKey(attempt_id),
        ),
        (PayStageView::Key { attempt_id }, PayEventView::KeyTaken) => (
            PayStageView::ConflictRollback,
            PayActionView::Rollback,
        ),
        (PayStageView::Key { attempt_id }, _) => (
            PayStageView::Commit { attempt_id },
            PayActionView::Commit,
        ),
        (PayStageView::ConflictRollback, _) => (PayStageView::Winner, PayActionView::SelectRecord),
        (PayStageView::Winner, PayEventView::Record(Some(record))) => answered(
            record_answer(record, request),
        ),
        (PayStageView::Winner, _) => answered(
            Err(
                ErrorView::Internal("idempotency record missing after unique-key conflict"@),
            ),
        ),
        (PayStageView::Commit { attempt_id }, _) => (
            PayStageView::Charge { attempt_id },
            PayActionView::PostCharge(attempt_id),
        ),
        (PayStageView::Charge { attempt_id }, PayEventView::PspStatus(code)) => if is_success_code(
            code,
        ) {
            (PayStageView::ChargeReply { attempt_id }, PayActionView::ReadReply)
        } else {
            answered(Ok(processing_reply_view(Some(attempt_id))))
        },
        (PayStageView::Charge { attempt_id }, _) => answered(
            Ok(processing_reply_view(Some(attempt_id))),
        ),
        (PayStageView::ChargeReply { attempt_id }, PayEventView::PspReply(reply)) => {
            match reply_verdict(reply) {
                Some(verdict) => (PayStageView::Done, PayActionView::Finalize(attempt_id, verdict)),
                None => answered(Ok(processing_reply_view(Some(attempt_id)))),
            }
        },
        (PayStageView::ChargeReply { attempt_id }, PayEventView::PspUnreadable(detail)) => answered(
            Err(ErrorView::Internal(detail)),
        ),
        (_, _) => arbitrary(),
    }
}

/// Whether a payment at a stage waits for what comes of an action.
pub open spec fn waits_for(stage: PayStageView, action: PayActionView) -> bool {
    match stage {
        PayStageView::Begin => action is Begin,
        PayStageView::Invoice => action is SelectInvoice,
        PayStageView::Record { .. } | PayStageView::Winner => action is SelectRecord,
        PayStageView::ReplayRollback { .. } | PayStageView::ConflictRollback => action is Rollback,
        PayStageView::Pending => action is SelectPending,
        PayStageView::Attempt { attempt_id } => action == PayActionView::InsertAttempt(attempt_id),
        PayStageView::Key { attempt_id } => action == PayActionView::InsertKey(attempt_id),
        PayStageView::Commit { .. } => action is Commit,
        PayStageView::Charge { attempt_id } => action == PayActionView::PostCharge(attempt_id),
        PayStageView::ChargeReply { .. } => action is ReadReply,
        PayStageView::Done => action is Answer || action is Finalize,
    }
}

/// A payment waits for what comes of the action that it asked for, and is done
/// exactly where it answers or hands over to the settlement.
pub proof fn payment_waits_for_its_action(
    request: RequestView,
    stage: PayStageView,
    event: PayEventView,
    fresh: Uuid,
)
    requires
        stage_awaits(stage, event),
    ensures
        ({
            let (stage, action) = next_payment(request, stage, event, fresh);
            &&& waits_for(stage, action)
            &&& stage is Done <==> action is Answer || action is Finalize
        }),
{
}

/// No charge is asked for before the attempt and its key are committed, and
/// the charge carries the attempt's id as its key at the provider.
pub proof fn charge_follows_commit(
    request: RequestView,
    stage: PayStageView,
    event: PayEventView,
    fresh: Uuid,
)
    requires
        stage_awaits(stage, event),
    ensures
        next_payment(request, stage, event, fresh).1 matches PayActionView::PostCharge(id) ==> stage
            == (PayStageView::Commit { attempt_id: id }) && event is Succeeded,
{
}

fn ended(outcome: Result<HttpReply, ApiError>) -> (result: (PayStage, PayAction))
    ensures
        (result.0@, result.1@) == answered(answer_view(outcome)),
{
    (PayStage::Done, PayAction::Answer(outcome))
}

fn answer_from_record(record: IdempotencyRecord, request: &PayRequest) -> (result: Result<
    HttpReply,
    ApiError,
>)
    ensures
        answer_view(result) == record_answer(record@, request@),
{
    if !same_text(record.request_hash.as_str(), request.request_hash.as_str()) {
        Err(
            ApiError::client(
                CONFLICT,
                "idempotency_key_reused",
                "key was used with a different request",
            ),
        )
    } else {
        Ok(response_from_idempotency_record(record))
    }
}

/// The next stage and action of a payment, where `fresh` is the id of a new
/// attempt.
pub fn pay_invoice_with(
    request: &PayRequest,
    stage: PayStage,
    event: PayEvent,
    fresh: Uuid,
) -> (result: (PayStage, PayAction))
    requires
        stage_awaits(stage@, event@),
    ensures
        (result.0@, result.1@) == next_payment(request@, stage@, event@, fresh),
{
    match (stage, event) {
        (_, PayEvent::DatabaseError(detail)) => ended(Err(ApiError::db(detail))),
        (PayStage::Begin, _) => (PayStage::Invoice, PayAction::SelectInvoice),
        (PayStage::Invoice, PayEvent::Invoice(None)) => ended(
            Err(ApiError::client(NOT_FOUND, "invoice_not_found", "invoice not found")),
        ),
        (PayStage::Invoice, PayEvent::Invoice(Some(status))) => (
            PayStage::Record { status },
            PayAction::SelectRecord,
        ),
        (PayStage::Record { status }, PayEvent::Record(Some(record))) => match answer_from_record(
            record,
            request,
        ) {
            Ok(reply) => (PayStage::ReplayRollback { reply }, PayAction::Rollback),
            Err(error) => ended(Err(error)),
        },
        (PayStage::Record { status }, _) => if status == InvoiceStatus::Paid {
            ended(
                Err(
                    ApiError::client(CONFLICT, "invoice_not_payable", "invoice is already paid"),
                ),
            )
        } else {
            (PayStage::Pending, PayAction::SelectPending)
        },
        (PayStage::ReplayRollback { reply }, _) => ended(Ok(reply)),
        (PayStage::Pending, PayEvent::Pending(None)) => (
            PayStage::Attempt { attempt_id: fresh },
            PayAction::InsertAttempt(fresh),
        ),
        (PayStage::Pending, _) => ended(
            Err(
                ApiError::client(
                    CONFLICT,
                    "payment_in_progress",
                    "another payment is already processing",
                ),
            ),
        ),
        (PayStage::Attempt { attempt_id }, _) => (
            PayStage::Key { attempt_id },
            PayAction::InsertKey(attempt_id),
        ),
        (PayStage::Key { attempt_id }, PayEvent::KeyTaken) => (
            PayStage::ConflictRollback,
            PayAction::Rollback,
        ),
        (PayStage::Key { attempt_id }, _) => (PayStage::Commit { attempt_id }, PayAction::Commit),
        (PayStage::ConflictRollback, _) => (PayStage::Winner, PayAction::SelectRecord),
        (PayStage::Winner, PayEvent::Record(Some(record))) => ended(
            answer_from_record(record, request),
        ),
        (PayStage::Winner, _) => ended(
            Err(
                ApiError::Internal(
                    "idempotency record missing after unique-key conflict".to_owned(),
                ),
            ),
        ),
        (PayStage::Commit { attempt_id }, _) => (
            PayStage::Charge { attempt_id },
            PayAction::PostCharge(attempt_id),
        ),
        (PayStage::Charge { attempt_id }, PayEvent::PspStatus(code)) => if is_success(code) {
            (PayStage::ChargeReply { attempt_id }, PayAction::ReadReply)
        } else {
            ended(Ok(processing_response(Some(attempt_id))))
        },
        (PayStage::Charge { attempt_id }, _) => ended(Ok(processing_response(Some(attempt_id)))),
        (PayStage::ChargeReply { attempt_id }, PayEvent::PspReply(reply)) => match verdict_of(
            reply,
        ) {
            Some(verdict) => (PayStage::Done, PayAction::Finalize(attempt_id, verdict)),
            None => ended(Ok(processing_response(Some(attempt_id)))),
        },
        (PayStage::ChargeReply { attempt_id }, PayEvent::PspUnreadable(detail)) => ended(
            Err(ApiError::Internal(detail)),
        ),
        (stage, _) => (stage, PayAction::Rollback),
    }
}

/// The next stage and action of a payment, with a fresh id for a new attempt.
pub fn pay_invoice(request: &PayRequest, stage: PayStage, event: PayEvent) -> (result: (
    PayStage,
    PayAction,
))
    requires
        stage_awaits(stage@, event@),
    ensures
        exists|fresh: Uuid|
            (stage@ is Pending ==> is_v4(fresh)) && (result.0@, result.1@)
                == #[trigger] next_payment(request@, stage@, event@, fresh),
{
    let fresh = match stage {
        PayStage::Pending => Uuid::new_v4(),
        _ => Uuid::nil(),
    };
    pay_invoice_with(request, stage, event, fresh)
}

/// Whether a database error, by its code, says that a row with that key is
/// there already.
pub fn is_unique_violation(code: Option<&str>) -> (result: bool)
    ensures
        result == (code matches Some(code) && code@ == "23505"@),
{
    match code {
        Some(code) => same_text(code, "23505"),
        None => false,
    }
}

}
