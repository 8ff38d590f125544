//! What may be handed in: these functions take whatever their types allow.
use vstd::prelude::*;

use crate::auth::{
    authenticate, grant, hash_secret, hash_secret_with, parse_authorization, parse_seed_key,
    split_key, KeyRow,
};
use crate::config::settings;
use crate::controllers::webhooks::{
    check_url_parts, create_endpoint, endpoint_created, list_endpoints, validate_webhook_url,
    EndpointRow, NewEndpoint, UrlParts,
};
use crate::controllers::{customers, invoices as invoice_requests, payments as payment_requests};
use crate::error::ApiError;
use crate::http::is_success;
use crate::ids::Uuid;
use crate::mock_psp::{reply_for_token, reply_for_token_with, PspState};
use crate::models::{
    Customer, CustomerInput, EndpointInput, Invoice, InvoiceInput, InvoiceListQuery, LineItem,
    PayInput, PaymentAttempt, PaymentResponse, PspReply,
};
use crate::services::invoices::{
    create, created_event, entered, for_customer, validate_line_items, InvoiceDraft,
};
use crate::services::payments::{
    awaits, charge_url, charges_url, hash_payment_request, is_unique_violation, payment_request,
    processing_response, response_from_idempotency_record, stored_response, verdict_of,
    IdempotencyRecord, InvoiceStatus, PayEvent, PayStage, Verdict,
};
use crate::services::settlement::{settlement, AttemptRow, SettleEvent, SettleStage};
use crate::services::webhooks::{
    decrypt_secret, deliver_counted, encrypt_secret, sign_payload, wait_after_claim, ClaimOutcome,
    DeliveryJob,
};

verus! {

/// Every input for an invoice, and every row of one, is taken.
pub proof fn any_invoice_is_taken(
    input: InvoiceInput,
    draft: InvoiceDraft,
    customer_exists: bool,
    invoice: Invoice,
    line_items: Vec<LineItem>,
    payment_attempts: Vec<PaymentAttempt>,
    invoice_id: Uuid,
    total_cents: i64,
    query: InvoiceListQuery,
    row: Option<Invoice>,
)
    ensures
        call_requires(create, (input,)),
        call_requires(validate_line_items, (&input,)),
        call_requires(for_customer, (draft, customer_exists)),
        call_requires(entered, (invoice, line_items)),
        call_requires(created_event, (invoice_id, total_cents)),
        call_requires(invoice_requests::list, (query,)),
        call_requires(invoice_requests::get, (row,)),
        call_requires(invoice_requests::detail, (invoice, line_items, payment_attempts)),
{
}

/// Every input for a customer, and every row of one, is taken.
pub proof fn any_customer_is_taken(input: CustomerInput, row: Option<Customer>)
    ensures
        call_requires(customers::create, (input,)),
        call_requires(customers::get, (row,)),
{
}

/// Every request to pay is taken, and every row and reply that comes of it.
pub proof fn any_payment_is_taken(
    business_id: Uuid,
    invoice_id: Uuid,
    header: Option<&str>,
    key: &str,
    input: PayInput,
    attempt_id: Option<Uuid>,
    status: i32,
    body: String,
    record: IdempotencyRecord,
    reply: PspReply,
    stage: PayStage,
    event: PayEvent,
    code: Option<&str>,
)
    ensures
        call_requires(
            payment_requests::pay_invoice,
            (business_id, invoice_id, header, input),
        ),
        call_requires(payment_request, (business_id, invoice_id, key, input)),
        call_requires(hash_payment_request, (invoice_id, &input)),
        call_requires(processing_response, (attempt_id,)),
        call_requires(stored_response, (status, body)),
        call_requires(response_from_idempotency_record, (record,)),
        call_requires(verdict_of, (reply,)),
        call_requires(awaits, (&stage, &event)),
        call_requires(charges_url, (key,)),
        call_requires(charge_url, (key, invoice_id)),
        call_requires(is_unique_violation, (code,)),
        call_requires(InvoiceStatus::parse, (key,)),
{
}

/// Every verdict on every attempt is taken.
pub proof fn any_verdict_is_taken(
    attempt_id: Uuid,
    row: AttemptRow,
    verdict: Verdict,
    response: PaymentResponse,
    stage: SettleStage,
    event: SettleEvent,
)
    ensures
        call_requires(settlement, (attempt_id, &row, &verdict)),
        call_requires(PaymentResponse::body, (&response,)),
        call_requires(crate::services::settlement::awaits, (&stage, &event)),
{
}

/// Every secret, every delivery and every endpoint is taken.
pub proof fn any_delivery_is_taken(
    text: &str,
    key: &[u8; 32],
    timestamp: &str,
    event_id: Uuid,
    body: &[u8],
    job: DeliveryJob,
    now: i64,
    outcome: ClaimOutcome,
    parts: Option<UrlParts>,
    input: EndpointInput,
    endpoint: NewEndpoint,
    rows: Vec<EndpointRow>,
)
    ensures
        call_requires(encrypt_secret, (text, key)),
        call_requires(decrypt_secret, (text, key)),
        call_requires(sign_payload, (text, timestamp, event_id, body)),
        call_requires(deliver_counted, (&job, key, now)),
        call_requires(wait_after_claim, (outcome,)),
        call_requires(check_url_parts, (parts,)),
        call_requires(validate_webhook_url, (text,)),
        call_requires(create_endpoint, (input, key)),
        call_requires(endpoint_created, (endpoint, event_id, now)),
        call_requires(list_endpoints, (rows, now)),
{
}

/// Every header, every key and every secret is taken.
pub proof fn any_key_is_taken(
    header: Option<&str>,
    text: &str,
    salt: &str,
    row: Option<KeyRow>,
    accepted: bool,
    given: Option<String>,
)
    ensures
        call_requires(parse_authorization, (header,)),
        call_requires(split_key, (text,)),
        call_requires(parse_seed_key, (text,)),
        call_requires(grant, (row, accepted)),
        call_requires(authenticate, (text, row)),
        call_requires(hash_secret, (text,)),
        call_requires(hash_secret_with, (text, salt)),
        call_requires(settings, (given, given, given, given)),
{
}

/// Every error is answered, under every id; and every code is told apart.
pub proof fn any_error_is_answered(
    error: ApiError,
    request_id: Uuid,
    status: u16,
    code: &'static str,
    message: &str,
    detail: String,
)
    ensures
        call_requires(ApiError::reply, (&error, request_id)),
        call_requires(ApiError::into_response, (error,)),
        call_requires(ApiError::line, (&error,)),
        call_requires(ApiError::client, (status, code, message)),
        call_requires(ApiError::db, (detail,)),
        call_requires(is_success, (status,)),
{
}

/// The provider takes every card token, and every request for a charge whose key
/// can be counted once more.
pub proof fn any_charge_is_taken(
    card_token: &str,
    psp_ref: String,
    state: PspState,
    key: &str,
)
    ensures
        call_requires(reply_for_token_with, (card_token, psp_ref)),
        call_requires(reply_for_token, (card_token,)),
        call_requires(PspState::get_charge, (&state, key)),
        call_requires(PspState::charge_or_processing, (&state, key)),
        call_requires(PspState::get_call_count, (&state, key)),
        forall|provider: &mut PspState, key: Option<&str>, input: &PayInput, psp_ref: String|
            (key matches Some(key) ==> provider@.call_count(key@) < u64::MAX)
                ==> #[trigger] call_requires(
                PspState::create_charge_with,
                (provider, key, input, psp_ref),
            ),
        forall|provider: &mut PspState, key: Option<&str>, input: &PayInput|
            (key matches Some(key) ==> provider@.call_count(key@) < u64::MAX)
                ==> #[trigger] call_requires(PspState::create_charge, (provider, key, input)),
        forall|provider: &mut PspState, key: &str, reply: PspReply| #[trigger]
            call_requires(PspState::complete_charge, (provider, key, reply)),
{
}

}
