//! The data shapes of requests, responses and database rows.
//!
//! A point in time is a number of microseconds since 1970-01-01 00:00 UTC, and a
//! date is a number of days, where 0001-01-01 is day 1.
use vstd::prelude::*;
use vstd::string::*;

use crate::ids::{uuid_text, Uuid};
use crate::text::{json_optional, json_string, opt_text, quote, quote_optional};

verus! {

#[derive(Debug)]
pub struct Customer {
    pub id: Uuid,
    pub name: String,
    pub email: String,
    pub created_at: i64,
}

#[derive(Debug)]
pub struct CustomerInput {
    pub name: String,
    pub email: String,
}

#[derive(Debug)]
pub struct LineItemInput {
    pub description: String,
    pub quantity: i64,
    pub unit_amount_cents: i64,
}

#[derive(Debug)]
pub struct InvoiceInput {
    pub customer_id: Uuid,
    pub due_date: i32,
    pub line_items: Vec<LineItemInput>,
}

#[derive(Debug)]
pub struct Invoice {
    pub id: Uuid,
    pub customer_id: Uuid,
    pub status: String,
    pub currency: String,
    pub total_cents: i64,
    pub due_date: i32,
    pub created_at: i64,
}

/// What an invoice says.
pub struct InvoiceView {
    pub id: Uuid,
    pub customer_id: Uuid,
    pub status: Seq<char>,
    pub currency: Seq<char>,
    pub total_cents: i64,
    pub due_date: i32,
    pub created_at: i64,
}

impl View for Invoice {
    type V = InvoiceView;

    open spec fn view(&self) -> InvoiceView {
        InvoiceView {
            id: self.id,
            customer_id: self.customer_id,
            status: self.status@,
            currency: self.currency@,
            total_cents: self.total_cents,
            due_date: self.due_date,
            created_at: self.created_at,
        }
    }
}

#[derive(Debug)]
pub struct LineItem {
    pub id: Uuid,
    pub description: String,
    pub quantity: i64,
    pub unit_amount_cents: i64,
    pub line_total_cents: i64,
}

/// What a line item says.
pub struct LineItemView {
    pub id: Uuid,
    pub description: Seq<char>,
    pub quantity: i64,
    pub unit_amount_cents: i64,
    pub line_total_cents: i64,
}

impl View for LineItem {
    type V = LineItemView;

    open spec fn view(&self) -> LineItemView {
        LineItemView {
            id: self.id,
            description: self.description@,
            quantity: self.quantity,
            unit_amount_cents: self.unit_amount_cents,
            line_total_cents: self.line_total_cents,
        }
    }
}

#[derive(Debug)]
pub struct PaymentAttempt {
    pub id: Uuid,
    pub status: String,
    pub psp_ref: Option<String>,
    pub failure_code: Option<String>,
    pub created_at: i64,
    pub updated_at: i64,
}

/// What a payment attempt says.
pub struct AttemptView {
    pub id: Uuid,
    pub status: Seq<char>,
    pub psp_ref: Option<Seq<char>>,
    pub failure_code: Option<Seq<char>>,
    pub created_at: i64,
    pub updated_at: i64,
}

impl View for PaymentAttempt {
    type V = AttemptView;

    open spec fn view(&self) -> AttemptView {
        AttemptView {
            id: self.id,
            status: self.status@,
            psp_ref: opt_text(self.psp_ref),
            failure_code: opt_text(self.failure_code),
            created_at: self.created_at,
            updated_at: self.updated_at,
        }
    }
}

#[derive(Debug)]
pub struct InvoiceDetail {
    pub invoice: Invoice,
    pub line_items: Vec<LineItem>,
    pub payment_attempts: Vec<PaymentAttempt>,
}

/// What an invoice with its lines and its attempts says.
pub struct DetailView {
    pub invoice: InvoiceView,
    pub line_items: Seq<LineItemView>,
    pub payment_attempts: Seq<AttemptView>,
}

/// What line items say.
pub open spec fn line_item_views(items: Seq<LineItem>) -> Seq<LineItemView> {
    items.map_values(|item: LineItem| item@)
}

/// What payment attempts say.
pub open spec fn attempt_views(attempts: Seq<PaymentAttempt>) -> Seq<AttemptView> {
    attempts.map_values(|attempt: PaymentAttempt| attempt@)
}

impl View for InvoiceDetail {
    type V = DetailView;

    open spec fn view(&self) -> DetailView {
        DetailView {
            invoice: self.invoice@,
            line_items: line_item_views(self.line_items@),
            payment_attempts: attempt_views(self.payment_attempts@),
        }
    }
}

#[derive(Debug)]
pub struct InvoiceListQuery {
    pub status: Option<String>,
}

#[derive(Debug)]
pub struct PayInput {
    pub card_token: String,
}

/// The outcome of a payment, as the client and the webhook receivers read it.
#[derive(Debug)]
pub struct PaymentResponse {
    pub invoice_id: Uuid,
    pub payment_attempt_id: Uuid,
    pub payment_status: String,
    pub invoice_status: String,
    pub psp_ref: Option<String>,
    pub failure_code: Option<String>,
}

/// What a payment response says.
pub struct PaymentView {
    pub invoice_id: Uuid,
    pub payment_attempt_id: Uuid,
    pub payment_status: Seq<char>,
    pub invoice_status: Seq<char>,
    pub psp_ref: Option<Seq<char>>,
    pub failure_code: Option<Seq<char>>,
}

impl View for PaymentResponse {
    type V = PaymentView;

    open spec fn view(&self) -> PaymentView {
        PaymentView {
            invoice_id: self.invoice_id,
            payment_attempt_id: self.payment_attempt_id,
            payment_status: self.payment_status@,
            invoice_status: self.invoice_status@,
            psp_ref: opt_text(self.psp_ref),
            failure_code: opt_text(self.failure_code),
        }
    }
}

/// The JSON document of a payment response, its members in the order of their
/// names.
pub open spec fn payment_body(response: PaymentView) -> Seq<char> {
    "{\"failure_code\":"@ + json_optional(response.failure_code) + ",\"invoice_id\":"@
        + json_string(uuid_text(response.invoice_id)) + ",\"invoice_status\":"@ + json_string(
        response.invoice_status,
    ) + ",\"payment_attempt_id\":"@ + json_string(uuid_text(response.payment_attempt_id))
        + ",\"payment_status\":"@ + json_string(response.payment_status) + ",\"psp_ref\":"@
        + json_optional(response.psp_ref) + "}"@
}

impl PaymentResponse {
    /// The JSON document of the response.
    pub fn body(&self) -> (result: String)
        ensures
            result@ == payment_body(self@),
    {
        let invoice = self.invoice_id.text();
        let attempt = self.payment_attempt_id.text();
        let text = "{\"failure_code\":".to_owned();
        let text = text.concat(quote_optional(&self.failure_code).as_str());
        let text = text.concat(",\"invoice_id\":").concat(quote(invoice.as_str()).as_str());
        let text = text.concat(",\"invoice_status\":");
        let text = text.concat(quote(self.invoice_status.as_str()).as_str());
        let text = text.concat(",\"payment_attempt_id\":").concat(quote(attempt.as_str()).as_str());
        let text = text.concat(",\"payment_status\":");
        let text = text.concat(quote(self.payment_status.as_str()).as_str());
        let text = text.concat(",\"psp_ref\":").concat(quote_optional(&self.psp_ref).as_str());
        text.concat("}")
    }
}

/// What the payment provider says of a charge.
#[derive(Debug)]
pub struct PspReply {
    pub status: String,
    pub psp_ref: Option<String>,
    pub code: Option<String>,
}

/// What a provider's reply says.
pub struct PspReplyView {
    pub status: Seq<char>,
    pub psp_ref: Option<Seq<char>>,
    pub code: Option<Seq<char>>,
}

impl View for PspReply {
    type V = PspReplyView;

    open spec fn view(&self) -> PspReplyView {
        PspReplyView {
            status: self.status@,
            psp_ref: opt_text(self.psp_ref),
            code: opt_text(self.code),
        }
    }
}

impl Clone for PspReply {
    fn clone(&self) -> (result: PspReply)
        ensures
            result@ == self@,
    {
        PspReply {
            status: self.status.clone(),
            psp_ref: copy_optional(&self.psp_ref),
            code: copy_optional(&self.code),
        }
    }
}

/// Copies an optional text.
pub fn copy_optional(value: &Option<String>) -> (result: Option<String>)
    ensures
        opt_text(result) == opt_text(*value),
{
    match value {
        Some(text) => Some(text.clone()),
        None => None,
    }
}

#[derive(Debug)]
pub struct EndpointInput {
    pub url: String,
}

/// A webhook endpoint, with its signing secret only where it was just created.
#[derive(Debug)]
pub struct EndpointResponse {
    pub id: Uuid,
    pub url: String,
    pub secret: Option<String>,
    pub active: bool,
    pub created_at: i64,
}

/// What a webhook endpoint says.
pub struct EndpointView {
    pub id: Uuid,
    pub url: Seq<char>,
    pub secret: Option<Seq<char>>,
    pub active: bool,
    pub created_at: i64,
}

impl View for EndpointResponse {
    type V = EndpointView;

    open spec fn view(&self) -> EndpointView {
        EndpointView {
            id: self.id,
            url: self.url@,
            secret: opt_text(self.secret),
            active: self.active,
            created_at: self.created_at,
        }
    }
}

}
