//! Invoices: what may be invoiced, and what is entered for it.
use vstd::prelude::*;
use vstd::string::*;
use vstd::utf8::*;

use crate::error::{client_error, ApiError, ErrorView};
use crate::http::{NOT_FOUND, UNPROCESSABLE_ENTITY};
use crate::ids::{uuid_text, Uuid};
use crate::models::{
    line_item_views, AttemptView, DetailView, Invoice, InvoiceDetail, InvoiceInput, InvoiceView,
    LineItem, LineItemInput, LineItemView,
};
use crate::text::{byte_len, decimal, decimal_text, json_string, quote, trim, trimmed};

verus! {

/// How many line items an invoice may have.
pub const MAX_LINE_ITEMS: usize = 100;

/// How long the description of a line item may be, in bytes.
pub const MAX_DESCRIPTION: usize = 500;

/// A line of an invoice to be entered.
#[derive(Debug)]
pub struct LineDraft {
    pub description: String,
    pub quantity: i64,
    pub unit_amount_cents: i64,
    pub line_total_cents: i64,
}

/// What a line says.
pub struct LineView {
    pub description: Seq<char>,
    pub quantity: i64,
    pub unit_amount_cents: i64,
    pub line_total_cents: i64,
}

impl View for LineDraft {
    type V = LineView;

    open spec fn view(&self) -> LineView {
        LineView {
            description: self.description@,
            quantity: self.quantity,
            unit_amount_cents: self.unit_amount_cents,
            line_total_cents: self.line_total_cents,
        }
    }
}

/// An invoice to be entered.
#[derive(Debug)]
pub struct InvoiceDraft {
    pub customer_id: Uuid,
    pub status: &'static str,
    pub currency: &'static str,
    pub total_cents: i64,
    pub due_date: i32,
    pub line_items: Vec<LineDraft>,
}

/// What an invoice to be entered says.
pub struct DraftView {
    pub customer_id: Uuid,
    pub status: Seq<char>,
    pub currency: Seq<char>,
    pub total_cents: i64,
    pub due_date: i32,
    pub line_items: Seq<LineView>,
}

impl View for InvoiceDraft {
    type V = DraftView;

    open spec fn view(&self) -> DraftView {
        DraftView {
            customer_id: self.customer_id,
            status: self.status@,
            currency: self.currency@,
            total_cents: self.total_cents,
            due_date: self.due_date,
            line_items: self.line_items@.map_values(|line: LineDraft| line@),
        }
    }
}

/// The error for an invoice without line items, or with too many.
pub open spec fn invalid_line_items_view() -> ErrorView {
    client_error(
        UNPROCESSABLE_ENTITY,
        "invalid_line_items"@,
        "at least one line item is required"@,
    )
}

/// The error for a line item that may not be invoiced.
pub open spec fn invalid_line_item_view() -> ErrorView {
    client_error(
        UNPROCESSABLE_ENTITY,
        "invalid_line_item"@,
        "description, positive quantity, and non-negative unit amount are required"@,
    )
}

/// The error for an amount that does not fit.
pub open spec fn amount_overflow_view() -> ErrorView {
    client_error(UNPROCESSABLE_ENTITY, "amount_overflow"@, "invoice amount is too large"@)
}

/// Whether a line item may be invoiced: it has a description that is not blank
/// and not too long, a positive quantity and no negative amount.
pub open spec fn may_be_invoiced(item: LineItemInput) -> bool {
    &&& trimmed(item.description@).len() > 0
    &&& encode_utf8(item.description@).len() <= MAX_DESCRIPTION
    &&& item.quantity > 0
    &&& item.unit_amount_cents >= 0
}

/// The total of a line item.
pub open spec fn line_total(item: LineItemInput) -> int {
    item.quantity * item.unit_amount_cents
}

/// What is wrong with a line item.
pub open spec fn item_fault(item: LineItemInput) -> Option<ErrorView> {
    if !may_be_invoiced(item) {
        Some(invalid_line_item_view())
    } else if line_total(item) > i64::MAX {
        Some(amount_overflow_view())
    } else {
        None
    }
}

/// What is wrong with the first line item that something is wrong with.
pub open spec fn first_fault(items: Seq<LineItemInput>) -> Option<ErrorView>
    decreases items.len(),
{
    if items.len() == 0 {
        None
    } else {
        match first_fault(items.drop_last()) {
            Some(fault) => Some(fault),
            None => item_fault(items.last()),
        }
    }
}

/// What is wrong with the line items of an invoice.
pub open spec fn items_fault(items: Seq<LineItemInput>) -> Option<ErrorView> {
    if items.len() == 0 || items.len() > MAX_LINE_ITEMS {
        Some(invalid_line_items_view())
    } else {
        first_fault(items)
    }
}

/// The total of line items.
pub open spec fn items_total(items: Seq<LineItemInput>) -> int
    decreases items.len(),
{
    if items.len() == 0 {
        0
    } else {
        items_total(items.drop_last()) + line_total(items.last())
    }
}

/// What is wrong with an invoice: with its line items, or with their total.
pub open spec fn invoice_fault(items: Seq<LineItemInput>) -> Option<ErrorView> {
    match items_fault(items) {
        Some(fault) => Some(fault),
        None => if items_total(items) > i64::MAX {
            Some(amount_overflow_view())
        } else {
            None
        },
    }
}

/// What is entered for a line item: its description without the white space
/// around it, and its total.
pub open spec fn line_view(item: LineItemInput) -> LineView {
    LineView {
        description: trimmed(item.description@),
        quantity: item.quantity,
        unit_amount_cents: item.unit_amount_cents,
        line_total_cents: line_total(item) as i64,
    }
}

/// What is entered for an input: an open invoice in US dollars, whose total is
/// the sum of its line totals.
pub open spec fn draft_of(input: InvoiceInput) -> DraftView {
    DraftView {
        customer_id: input.customer_id,
        status: "open"@,
        currency: "USD"@,
        total_cents: items_total(input.line_items@) as i64,
        due_date: input.due_date,
        line_items: input.line_items@.map_values(|item: LineItemInput| line_view(item)),
    }
}

/// Line items nothing is wrong with have line totals from 0 on, so the total
/// of the first ones is never more than that of all.
proof fn faultless_totals(items: Seq<LineItemInput>, count: int)
    requires
        first_fault(items) is None,
        0 <= count <= items.len(),
    ensures
        first_fault(items.take(count)) is None,
        0 <= items_total(items.take(count)) <= items_total(items),
    decreases items.len(),
{
    if count == items.len() {
        assert(items.take(count) == items);
        if count > 0 {
            faultless_totals(items.drop_last(), count - 1);
            assert(items.drop_last().take(count - 1) == items.drop_last());
            let item = items.last();
            assert(item.quantity * item.unit_amount_cents >= 0) by (nonlinear_arith)
                requires
                    item.quantity > 0,
                    item.unit_amount_cents >= 0,
            ;
        }
    } else {
        faultless_totals(items.drop_last(), count);
        assert(items.drop_last().take(count) == items.take(count));
        let item = items.last();
        assert(item.quantity * item.unit_amount_cents >= 0) by (nonlinear_arith)
            requires
                item.quantity > 0,
                item.unit_amount_cents >= 0,
        ;
    }
}

/// A fault in the first line items is the fault of all of them.
proof fn fault_stays(items: Seq<LineItemInput>, count: int)
    requires
        0 <= count <= items.len(),
        first_fault(items.take(count)) is Some,
    ensures
        first_fault(items) == first_fault(items.take(count)),
    decreases items.len(),
{
    if count == items.len() {
        assert(items.take(count) == items);
    } else {
        assert(items.drop_last().take(count) == items.take(count));
        fault_stays(items.drop_last(), count);
    }
}

/// The error for an amount that does not fit.
fn amount_overflow() -> (result: ApiError)
    ensures
        result@ == amount_overflow_view(),
{
    ApiError::client(UNPROCESSABLE_ENTITY, "amount_overflow", "invoice amount is too large")
}

/// Checks a line item, and computes its total.
fn check_line_item(item: &LineItemInput) -> (result: Result<i64, ApiError>)
    ensures
        match result {
            Ok(total) => item_fault(*item) is None && total == line_total(*item),
            Err(error) => item_fault(*item) == Some(error@),
        },
{
    let description = trim(item.description.as_str());
    if description.is_empty() || byte_len(item.description.as_str()) > MAX_DESCRIPTION
        || item.quantity <= 0 || item.unit_amount_cents < 0 {
        return Err(
            ApiError::client(
                UNPROCESSABLE_ENTITY,
                "invalid_line_item",
                "description, positive quantity, and non-negative unit amount are required",
            ),
        );
    }
    proof {
        let (quantity, amount) = (item.quantity as int, item.unit_amount_cents as int);
        assert(quantity * amount >= 0) by (nonlinear_arith)
            requires
                quantity > 0,
                amount >= 0,
        ;
    }
    match item.quantity.checked_mul(item.unit_amount_cents) {
        Some(total) => Ok(total),
        None => Err(amount_overflow()),
    }
}

/// Checks the line items of an invoice, and computes their totals. The first
/// line item that something is wrong with decides the error.
pub fn validate_line_items(input: &InvoiceInput) -> (result: Result<Vec<i64>, ApiError>)
    ensures
        match result {
            Ok(totals) => {
                &&& items_fault(input.line_items@) is None
                &&& totals@.len() == input.line_items@.len()
                &&& forall|i: int|
                    0 <= i < totals@.len() ==> totals@[i] == line_total(
                        #[trigger] input.line_items@[i],
                    )
            },
            Err(error) => items_fault(input.line_items@) == Some(error@),
        },
{
    let items = &input.line_items;
    if items.len() == 0 || items.len() > MAX_LINE_ITEMS {
        return Err(
            ApiError::client(
                UNPROCESSABLE_ENTITY,
                "invalid_line_items",
                "at least one line item is required",
            ),
        );
    }
    let mut totals: Vec<i64> = Vec::new();
    for i in 0..items.len()
        invariant
            items@ == input.line_items@,
            0 < items@.len() <= MAX_LINE_ITEMS,
            totals@.len() == i,
            first_fault(items@.take(i as int)) is None,
            forall|j: int| 0 <= j < i ==> totals@[j] == line_total(#[trigger] items@[j]),
    {
        assert(items@.take(i + 1).drop_last() == items@.take(i as int));
        match check_line_item(&items[i]) {
            Ok(total) => totals.push(total),
            Err(error) => {
                proof {
                    fault_stays(items@, i + 1);
                }
                return Err(error);
            },
        }
    }
    assert(items@.take(items@.len() as int) == items@);
    Ok(totals)
}

/// The sum of line totals, where it fits.
fn sum(items: &Vec<LineItemInput>, totals: &Vec<i64>) -> (result: Option<i64>)
    requires
        first_fault(items@) is None,
        totals@.len() == items@.len(),
        forall|i: int| 0 <= i < totals@.len() ==> totals@[i] == line_total(#[trigger] items@[i]),
    ensures
        match result {
            Some(total) => total == items_total(items@),
            None => items_total(items@) > i64::MAX,
        },
{
    let mut total: i64 = 0;
    for i in 0..totals.len()
        invariant
            first_fault(items@) is None,
            totals@.len() == items@.len(),
            forall|j: int|
                0 <= j < totals@.len() ==> totals@[j] == line_total(#[trigger] items@[j]),
            total == items_total(items@.take(i as int)),
            total >= 0,
    {
        proof {
            assert(items@.take(i + 1).drop_last() == items@.take(i as int));
            assert(items@.take(i + 1).last() == items@[i as int]);
            faultless_totals(items@, i + 1);
        }
        match total.checked_add(totals[i]) {
            Some(next) => total = next,
            None => return None,
        }
    }
    assert(items@.take(items@.len() as int) == items@);
    Some(total)
}

/// Makes the invoice that is entered for an input. The total is the sum of the
/// line totals.
pub fn create(input: InvoiceInput) -> (result: Result<InvoiceDraft, ApiError>)
    ensures
        match result {
            Ok(draft) => {
                &&& invoice_fault(input.line_items@) is None
                &&& draft@ == draft_of(input)
                &&& draft.total_cents == items_total(input.line_items@)
            },
            Err(error) => invoice_fault(input.line_items@) == Some(error@),
        },
{
    let totals = match validate_line_items(&input) {
        Ok(totals) => totals,
        Err(error) => return Err(error),
    };
    let total_cents: i64 = match sum(&input.line_items, &totals) {
        Some(total) => total,
        None => return Err(amount_overflow()),
    };
    let items = &input.line_items;
    let mut line_items: Vec<LineDraft> = Vec::new();
    for i in 0..items.len()
        invariant
            items@ == input.line_items@,
            totals@.len() == items@.len(),
            forall|j: int|
                0 <= j < totals@.len() ==> totals@[j] == line_total(#[trigger] items@[j]),
            line_items@.len() == i,
            forall|j: int| 0 <= j < i ==> line_items@[j]@ == line_view(#[trigger] items@[j]),
    {
        let item = &items[i];
        assert(*item == items@[i as int]);
        line_items.push(
            LineDraft {
                description: trim(item.description.as_str()).to_owned(),
                quantity: item.quantity,
                unit_amount_cents: item.unit_amount_cents,
                line_total_cents: totals[i],
            },
        );
    }
    let draft = InvoiceDraft {
        customer_id: input.customer_id,
        status: "open",
        currency: "USD",
        total_cents,
        due_date: input.due_date,
        line_items,
    };
    assert(draft@.line_items == draft_of(input).line_items);
    Ok(draft)
}

/// The error for a customer that the business does not have.
pub open spec fn customer_not_found_view() -> ErrorView {
    client_error(NOT_FOUND, "customer_not_found"@, "customer not found"@)
}

/// An invoice is entered where the business has the customer.
pub fn for_customer(draft: InvoiceDraft, customer_exists: bool) -> (result: Result<
    InvoiceDraft,
    ApiError,
>)
    ensures
        match result {
            Ok(admitted) => customer_exists && admitted == draft,
            Err(error) => !customer_exists && error@ == customer_not_found_view(),
        },
{
    if customer_exists {
        Ok(draft)
    } else {
        Err(ApiError::client(NOT_FOUND, "customer_not_found", "customer not found"))
    }
}

/// The answer to the creation of an invoice: the invoice with its lines, and no
/// payment attempts yet.
pub open spec fn entered_view(invoice: InvoiceView, line_items: Seq<LineItemView>) -> DetailView {
    DetailView { invoice, line_items, payment_attempts: Seq::empty() }
}

/// The answer to the creation of an invoice: the invoice with its lines, and no
/// payment attempts yet.
pub fn entered(invoice: Invoice, line_items: Vec<LineItem>) -> (result: InvoiceDetail)
    ensures
        result.invoice == invoice,
        result.line_items == line_items,
        result@ == entered_view(invoice@, line_item_views(line_items@)),
{
    let detail = InvoiceDetail { invoice, line_items, payment_attempts: Vec::new() };
    assert(detail@.payment_attempts == Seq::<AttemptView>::empty());
    detail
}

/// The payload of the event for a new invoice.
pub open spec fn created_payload(invoice_id: Uuid, total_cents: i64) -> Seq<char> {
    "{\"currency\":\"USD\",\"invoice_id\":"@ + json_string(uuid_text(invoice_id))
        + ",\"status\":\"open\",\"total_cents\":"@ + decimal_text(total_cents as int) + "}"@
}

/// The type and the payload of the event for a new invoice.
pub fn created_event(invoice_id: Uuid, total_cents: i64) -> (result: (&'static str, String))
    ensures
        result.0@ == "invoice.created"@,
        result.1@ == created_payload(invoice_id, total_cents),
{
    let id = invoice_id.text();
    let text = "{\"currency\":\"USD\",\"invoice_id\":".to_owned();
    let text = text.concat(quote(id.as_str()).as_str());
    let text = text.concat(",\"status\":\"open\",\"total_cents\":");
    let text = text.concat(decimal(total_cents).as_str());
    ("invoice.created", text.concat("}"))
}

/// Line items pass exactly where each of them may be invoiced and has a total
/// that fits.
pub proof fn faultless_items(items: Seq<LineItemInput>)
    ensures
        first_fault(items) is None <==> forall|i: int|
            0 <= i < items.len() ==> may_be_invoiced(#[trigger] items[i]) && line_total(items[i])
                <= i64::MAX,
    decreases items.len(),
{
    if items.len() > 0 {
        faultless_items(items.drop_last());
        if first_fault(items) is None {
            assert forall|i: int| 0 <= i < items.len() implies may_be_invoiced(#[trigger] items[i])
                && line_total(items[i]) <= i64::MAX by {
                if i < items.len() - 1 {
                    assert(items.drop_last()[i] == items[i]);
                }
            }
        } else if forall|i: int|
            0 <= i < items.len() ==> may_be_invoiced(#[trigger] items[i]) && line_total(items[i])
                <= i64::MAX {
            assert(items.drop_last() == items.take(items.len() - 1));
            assert(may_be_invoiced(items[items.len() - 1]));
        }
    }
}

/// The total of an invoice is the sum of its line totals, and none of them is
/// more than the total.
pub proof fn no_line_exceeds_the_total(items: Seq<LineItemInput>, i: int)
    requires
        invoice_fault(items) is None,
        0 <= i < items.len(),
    ensures
        0 <= line_total(items[i]) <= items_total(items) <= i64::MAX,
{
    faultless_totals(items, i + 1);
    faultless_totals(items, i);
    assert(items.take(i + 1).drop_last() == items.take(i));
    let item = items.take(i + 1).last();
    assert(item_fault(item) is None);
    assert(item.quantity * item.unit_amount_cents >= 0) by (nonlinear_arith)
        requires
            item.quantity > 0,
            item.unit_amount_cents >= 0,
    ;
}

}
