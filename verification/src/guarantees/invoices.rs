//! Invoices add up: lines, totals, and what is refused.
use vstd::prelude::*;
use vstd::utf8::encode_utf8;

use crate::controllers::invoices::{detail, get, list};
use crate::error::ApiError;
use crate::guarantees::answers::tells;
use crate::ids::{uuid_text, uuid_text_is_injective, Uuid};
use crate::models::{
    Invoice, InvoiceDetail, InvoiceInput, InvoiceListQuery, LineItem, LineItemInput,
    PaymentAttempt,
};
use crate::services::invoices::{
    create, created_event, entered, faultless_items, first_fault, for_customer, items_total,
    no_line_exceeds_the_total, validate_line_items, InvoiceDraft,
};
use crate::text::{
    decimal_text, decimal_text_is_injective, json_string, json_string_ends_itself, trimmed,
};

verus! {

/// What each line of an input costs: its quantity times its unit amount.
pub open spec fn products(items: Seq<LineItemInput>) -> Seq<int> {
    items.map_values(|item: LineItemInput| item.quantity * item.unit_amount_cents)
}

/// The sum of amounts.
pub open spec fn sum_of(amounts: Seq<int>) -> int {
    amounts.fold_left(0, |sum: int, amount: int| sum + amount)
}

/// Whether a line may stand on an invoice: its description is not blank and has
/// 500 bytes at most, something is sold, and at no negative amount.
pub open spec fn is_fit(item: LineItemInput) -> bool {
    &&& trimmed(item.description@).len() > 0
    &&& encode_utf8(item.description@).len() <= 500
    &&& item.quantity >= 1
    &&& item.unit_amount_cents >= 0
}

proof fn items_total_is_the_sum(items: Seq<LineItemInput>)
    ensures
        items_total(items) == sum_of(products(items)),
    decreases items.len(),
{
    if items.len() > 0 {
        items_total_is_the_sum(items.drop_last());
        assert(products(items).drop_last() == products(items.drop_last()));
        assert(products(items).last() == items.last().quantity * items.last().unit_amount_cents);
    }
}

/// On every invoice that is accepted, a line costs its quantity times its unit
/// amount, and the total is the sum of these products, as integers: nothing is
/// rounded, capped or wrapped. The lines are those of the input, in their order.
pub proof fn accepted_invoice_adds_up(input: InvoiceInput, draft: InvoiceDraft)
    requires
        call_ensures(create, (input,), Ok(draft)),
    ensures
        draft.line_items@.len() == input.line_items@.len(),
        forall|i: int|
            0 <= i < draft.line_items@.len() ==> {
                let (line, item) = (#[trigger] draft.line_items@[i], input.line_items@[i]);
                &&& line.line_total_cents == item.quantity * item.unit_amount_cents
                &&& line.quantity == item.quantity
                &&& line.unit_amount_cents == item.unit_amount_cents
                &&& line.description@ == trimmed(item.description@)
            },
        draft.total_cents == sum_of(products(input.line_items@)),
{
    let items = input.line_items@;
    items_total_is_the_sum(items);
    assert(draft@.line_items.len() == draft.line_items@.len());
    assert forall|i: int| 0 <= i < draft.line_items@.len() implies {
        let (line, item) = (#[trigger] draft.line_items@[i], items[i]);
        &&& line.line_total_cents == item.quantity * item.unit_amount_cents
        &&& line.quantity == item.quantity
        &&& line.unit_amount_cents == item.unit_amount_cents
        &&& line.description@ == trimmed(item.description@)
    } by {
        no_line_exceeds_the_total(items, i);
        assert(draft@.line_items[i] == draft.line_items@[i]@);
    }
}

/// An accepted invoice is open and in US dollars, for the customer and the day
/// that were asked for; it has from 1 to 100 lines, each of them fit.
pub proof fn accepted_invoice_is_fit(input: InvoiceInput, draft: InvoiceDraft)
    requires
        call_ensures(create, (input,), Ok(draft)),
    ensures
        draft.customer_id == input.customer_id,
        draft.due_date == input.due_date,
        draft.status@ == "open"@,
        draft.currency@ == "USD"@,
        1 <= input.line_items@.len() <= 100,
        forall|i: int| 0 <= i < input.line_items@.len() ==> is_fit(#[trigger] input.line_items@[i]),
{
    faultless_items(input.line_items@);
}

/// The first line that is not fit, or whose cost does not fit in 64 bits.
pub open spec fn is_first_fault(items: Seq<LineItemInput>, i: int) -> bool {
    &&& 0 <= i < items.len()
    &&& !is_fit(items[i]) || items[i].quantity * items[i].unit_amount_cents > i64::MAX
    &&& forall|j: int|
        0 <= j < i ==> is_fit(#[trigger] items[j]) && items[j].quantity
            * items[j].unit_amount_cents <= i64::MAX
}

proof fn fault_is_the_first(items: Seq<LineItemInput>) -> (i: int)
    requires
        first_fault(items) is Some,
    ensures
        is_first_fault(items, i),
        first_fault(items) == crate::services::invoices::item_fault(items[i]),
    decreases items.len(),
{
    let front = items.drop_last();
    if first_fault(front) is Some {
        let i = fault_is_the_first(front);
        assert(front[i] == items[i]);
        assert forall|j: int| 0 <= j < i implies is_fit(#[trigger] items[j])
            && items[j].quantity * items[j].unit_amount_cents <= i64::MAX by {
            assert(front[j] == items[j]);
        }
        i
    } else {
        faultless_items(front);
        assert forall|j: int| 0 <= j < items.len() - 1 implies is_fit(#[trigger] items[j])
            && items[j].quantity * items[j].unit_amount_cents <= i64::MAX by {
            assert(front[j] == items[j]);
        }
        items.len() - 1
    }
}

/// Whether an error is the one for the lines of an input.
pub open spec fn tells_of_lines(error: ApiError, items: Seq<LineItemInput>) -> bool {
    ||| {
        &&& items.len() == 0 || items.len() > 100
        &&& tells(
            error,
            422,
            "invalid_line_items"@,
            "at least one line item is required"@,
        )
    }
    ||| {
        &&& 1 <= items.len() <= 100
        &&& exists|i: int| #[trigger]
            is_first_fault(items, i) && if is_fit(items[i]) {
                tells(error, 422, "amount_overflow"@, "invoice amount is too large"@)
            } else {
                tells(
                    error,
                    422,
                    "invalid_line_item"@,
                    "description, positive quantity, and non-negative unit amount are required"@,
                )
            }
    }
}

/// An invoice is refused for the number of its lines, for the first line that is
/// not fit or costs too much, or for a sum that does not fit in 64 bits; and for
/// nothing else.
pub proof fn refused_invoice_has_a_fault(input: InvoiceInput, error: ApiError)
    requires
        call_ensures(create, (input,), Err(error)),
    ensures
        tells_of_lines(error, input.line_items@) || {
            &&& 1 <= input.line_items@.len() <= 100
            &&& forall|i: int|
                0 <= i < input.line_items@.len() ==> is_fit(#[trigger] input.line_items@[i])
            &&& sum_of(products(input.line_items@)) > i64::MAX
            &&& tells(error, 422, "amount_overflow"@, "invoice amount is too large"@)
        },
{
    let items = input.line_items@;
    items_total_is_the_sum(items);
    if 1 <= items.len() <= 100 {
        if first_fault(items) is Some {
            let i = fault_is_the_first(items);
            assert(is_first_fault(items, i));
        } else {
            faultless_items(items);
        }
    }
}

/// The check of the lines gives, for each of them, its quantity times its unit
/// amount; or the error for the first that is not fit or costs too much.
pub proof fn checked_lines_cost_their_products(
    input: &InvoiceInput,
    result: Result<Vec<i64>, ApiError>,
)
    requires
        call_ensures(validate_line_items, (input,), result),
    ensures
        match result {
            Ok(totals) => {
                &&& 1 <= input.line_items@.len() <= 100
                &&& totals@.len() == input.line_items@.len()
                &&& forall|i: int|
                    0 <= i < totals@.len() ==> #[trigger] totals@[i]
                        == input.line_items@[i].quantity * input.line_items@[i].unit_amount_cents
                &&& forall|i: int|
                    0 <= i < totals@.len() ==> is_fit(#[trigger] input.line_items@[i])
            },
            Err(error) => tells_of_lines(error, input.line_items@),
        },
{
    let items = input.line_items@;
    match result {
        Ok(totals) => {
            faultless_items(items);
            assert forall|i: int| 0 <= i < totals@.len() implies #[trigger] totals@[i]
                == items[i].quantity * items[i].unit_amount_cents by {
                assert(is_fit(items[i]));
            }
        },
        Err(error) => {
            if 1 <= items.len() <= 100 {
                let i = fault_is_the_first(items);
                assert(is_first_fault(items, i));
            }
        },
    }
}

/// An invoice is entered unchanged for a customer of the business, and for no
/// other.
pub proof fn invoice_needs_its_customer(
    draft: InvoiceDraft,
    customer_exists: bool,
    result: Result<InvoiceDraft, ApiError>,
)
    requires
        call_ensures(for_customer, (draft, customer_exists), result),
    ensures
        match result {
            Ok(admitted) => customer_exists && admitted == draft,
            Err(error) => !customer_exists && tells(
                error,
                404,
                "customer_not_found"@,
                "customer not found"@,
            ),
        },
{
}

/// A new invoice is answered with its own row and its own lines, and without
/// attempts.
pub proof fn new_invoice_is_shown_whole(
    invoice: Invoice,
    line_items: Vec<LineItem>,
    detail: InvoiceDetail,
)
    requires
        call_ensures(entered, (invoice, line_items), detail),
    ensures
        detail.invoice == invoice,
        detail.line_items == line_items,
        detail.payment_attempts@.len() == 0,
{
    assert(detail@.payment_attempts.len() == detail.payment_attempts@.len());
}

/// The event for a new invoice names the invoice and its total, and says that it
/// is open and in US dollars.
pub proof fn created_event_names_the_invoice(
    invoice_id: Uuid,
    total_cents: i64,
    event: (&'static str, String),
)
    requires
        call_ensures(created_event, (invoice_id, total_cents), event),
    ensures
        event.0@ == "invoice.created"@,
        event.1@ == "{\"currency\":\"USD\",\"invoice_id\":"@ + json_string(uuid_text(invoice_id))
            + ",\"status\":\"open\",\"total_cents\":"@ + decimal_text(total_cents as int) + "}"@,
{
}

/// Two events for new invoices with the same document are for the same invoice
/// with the same total.
pub proof fn created_event_tells_the_invoice(
    invoice_a: Uuid,
    total_a: i64,
    event_a: (&'static str, String),
    invoice_b: Uuid,
    total_b: i64,
    event_b: (&'static str, String),
)
    requires
        call_ensures(created_event, (invoice_a, total_a), event_a),
        call_ensures(created_event, (invoice_b, total_b), event_b),
        event_a.1@ == event_b.1@,
    ensures
        invoice_a == invoice_b,
        total_a == total_b,
{
    let (a, b) = (event_a.1@, event_b.1@);
    reveal_strlit("{\"currency\":\"USD\",\"invoice_id\":");
    reveal_strlit(",\"status\":\"open\",\"total_cents\":");
    reveal_strlit("}");
    let head = "{\"currency\":\"USD\",\"invoice_id\":"@.len() as int;
    let middle = ",\"status\":\"open\",\"total_cents\":"@;
    let digits_a = decimal_text(total_a as int);
    let digits_b = decimal_text(total_b as int);
    let rest_a = middle + digits_a + "}"@;
    let rest_b = middle + digits_b + "}"@;
    assert(a.skip(head) == json_string(uuid_text(invoice_a)) + rest_a);
    assert(b.skip(head) == json_string(uuid_text(invoice_b)) + rest_b);
    json_string_ends_itself(uuid_text(invoice_a), uuid_text(invoice_b), rest_a, rest_b);
    uuid_text_is_injective(invoice_a, invoice_b);
    let n = middle.len() as int;
    assert(rest_a.subrange(n, rest_a.len() - 1) == digits_a);
    assert(rest_b.subrange(n, rest_b.len() - 1) == digits_b);
    decimal_text_is_injective(total_a as int, total_b as int);
}

/// Invoices are listed by `open`, by `paid` or by nothing, as asked for; every
/// other status is refused.
pub proof fn invoices_are_listed_as_asked(
    query: InvoiceListQuery,
    result: Result<Option<String>, ApiError>,
)
    requires
        call_ensures(list, (query,), result),
    ensures
        match query.status {
            None => result matches Ok(filter) && filter is None,
            Some(status) => if status@ == "open"@ || status@ == "paid"@ {
                result matches Ok(Some(filter)) && filter@ == status@
            } else {
                result matches Err(error) && tells(
                    error,
                    422,
                    "invalid_status"@,
                    "status must be open or paid"@,
                )
            },
        },
{
}

/// An invoice that is there is shown as it is, with all its lines and attempts,
/// and one that is not is not found.
pub proof fn invoice_is_shown_as_it_is(
    row: Option<Invoice>,
    result: Result<Invoice, ApiError>,
    invoice: Invoice,
    line_items: Vec<LineItem>,
    payment_attempts: Vec<PaymentAttempt>,
    shown: InvoiceDetail,
)
    requires
        call_ensures(get, (row,), result),
        call_ensures(detail, (invoice, line_items, payment_attempts), shown),
    ensures
        match row {
            Some(invoice) => result matches Ok(found) && found == invoice,
            None => result matches Err(error) && tells(
                error,
                404,
                "invoice_not_found"@,
                "invoice not found"@,
            ),
        },
        shown.invoice == invoice,
        shown.line_items == line_items,
        shown.payment_attempts == payment_attempts,
{
}

/// An invoice with one line costs what the line does.
pub proof fn one_line_costs_its_product(input: InvoiceInput, draft: InvoiceDraft)
    requires
        input.line_items@.len() == 1,
        call_ensures(create, (input,), Ok(draft)),
    ensures
        draft.total_cents == input.line_items@[0].quantity * input.line_items@[0].unit_amount_cents,
        draft.line_items@.len() == 1,
        draft.line_items@[0].line_total_cents == draft.total_cents,
{
    let items = input.line_items@;
    accepted_invoice_adds_up(input, draft);
    items_total_is_the_sum(items);
    let none = items.drop_last();
    assert(none.len() == 0);
    assert(items_total(none) == 0);
    assert(items.last() == items[0]);
    assert(is_fit(items[0])) by {
        accepted_invoice_is_fit(input, draft);
    }
}

/// A line more costs its quantity times its unit amount more, and leaves the other
/// lines as they are.
pub proof fn further_line_adds_its_product(
    shorter: InvoiceInput,
    item: LineItemInput,
    longer: InvoiceInput,
    draft: InvoiceDraft,
    longer_draft: InvoiceDraft,
)
    requires
        longer.line_items@ == shorter.line_items@.push(item),
        call_ensures(create, (shorter,), Ok(draft)),
        call_ensures(create, (longer,), Ok(longer_draft)),
    ensures
        longer_draft.total_cents == draft.total_cents + item.quantity * item.unit_amount_cents,
        longer_draft.line_items@.len() == draft.line_items@.len() + 1,
        longer_draft.line_items@.last().line_total_cents == item.quantity * item.unit_amount_cents,
        forall|i: int|
            0 <= i < draft.line_items@.len() ==> (
            #[trigger] longer_draft.line_items@[i]).line_total_cents
                == draft.line_items@[i].line_total_cents,
{
    accepted_invoice_adds_up(shorter, draft);
    accepted_invoice_adds_up(longer, longer_draft);
    items_total_is_the_sum(shorter.line_items@);
    items_total_is_the_sum(longer.line_items@);
    assert(longer.line_items@.drop_last() == shorter.line_items@);
    assert(longer.line_items@.last() == item);
    accepted_invoice_is_fit(longer, longer_draft);
    assert(is_fit(longer.line_items@[longer.line_items@.len() - 1]));
}

}
