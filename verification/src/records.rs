//! What is read back of the books: an invoice with its lines and attempts, the
//! list of a business's invoices, and the list of its webhook endpoints.
use vstd::prelude::*;
use vstd::relations::total_ordering;

use crate::controllers::invoices::{invalid_status_view, list_filter, shown_invoice};
use crate::controllers::webhooks::{all_listed, EndpointRowView};
use crate::error::ErrorView;
use crate::ids::Uuid;
use crate::ledger::{
    after, all_can_happen, attempt_text, create_endpoint, create_invoice, invoice_entry,
    invoice_text, nothing_is_undone, status_texts_differ, steps_keep_the_books_in_order, Ledger,
    Step,
};
use crate::models::{
    AttemptView, DetailView, EndpointView, InvoiceInput, InvoiceView, LineItemView,
};
use crate::services::invoices::{draft_of, entered_view, invoice_fault, DraftView};
use crate::services::payments::invoice_not_found_view;

verus! {

// One invoice.

/// The row of an invoice, without regard to its business.
pub open spec fn invoice_row(ledger: Ledger, invoice_id: Uuid) -> InvoiceView {
    let entry = ledger.invoices[invoice_id];
    InvoiceView {
        id: invoice_id,
        customer_id: entry.customer_id,
        status: invoice_text(entry.paid),
        currency: entry.currency,
        total_cents: entry.total_cents,
        due_date: entry.due_date,
        created_at: entry.created_at,
    }
}

/// The row of the business's invoice with an id, where there is one.
pub open spec fn select_invoice(ledger: Ledger, business_id: Uuid, invoice_id: Uuid) -> Option<
    InvoiceView,
> {
    match ledger.invoice(business_id, invoice_id) {
        Some(_) => Some(invoice_row(ledger, invoice_id)),
        None => None,
    }
}

/// Whether rows are the lines of an invoice: each once, in the order of their
/// ids.
pub open spec fn are_line_rows(
    ledger: Ledger,
    invoice_id: Uuid,
    rows: Seq<LineItemView>,
) -> bool {
    &&& rows.to_multiset() == ledger.invoices[invoice_id].line_items.to_multiset()
    &&& lines_in_order(rows)
}

/// Whether lines are in the order of their ids.
pub open spec fn lines_in_order(rows: Seq<LineItemView>) -> bool {
    forall|i: int, j: int|
        0 <= i < j < rows.len() ==> (#[trigger] rows[i]).id.bits <= (#[trigger] rows[j]).id.bits
}

/// The attempts on an invoice.
pub open spec fn attempts_on(ledger: Ledger, invoice_id: Uuid) -> Set<Uuid> {
    Set::new(
        |id: Uuid|
            ledger.attempts.contains_key(id) && ledger.attempts[id].invoice_id == invoice_id,
    )
}

/// Whether a row shows an attempt.
pub open spec fn shows_attempt(ledger: Ledger, row: AttemptView) -> bool {
    let attempt = ledger.attempts[row.id];
    &&& row.status == attempt_text(attempt.state)
    &&& row.psp_ref == attempt.psp_ref
    &&& row.failure_code == attempt.failure_code
}

/// Whether rows are the attempts on an invoice: each once, the newest first.
pub open spec fn are_attempt_rows(
    ledger: Ledger,
    invoice_id: Uuid,
    rows: Seq<AttemptView>,
) -> bool {
    let ids = rows.map_values(|row: AttemptView| row.id);
    &&& ids.no_duplicates()
    &&& ids.to_set() == attempts_on(ledger, invoice_id)
    &&& forall|i: int| 0 <= i < rows.len() ==> shows_attempt(ledger, #[trigger] rows[i])
    &&& forall|i: int, j: int|
        0 <= i < j < rows.len() ==> (#[trigger] rows[i]).created_at >= (
        #[trigger] rows[j]).created_at
}

/// Whether a business that asks for an invoice is to be given an answer.
pub open spec fn answers_get(
    ledger: Ledger,
    business_id: Uuid,
    invoice_id: Uuid,
    answer: Result<DetailView, ErrorView>,
) -> bool {
    match shown_invoice(select_invoice(ledger, business_id, invoice_id)) {
        Err(error) => answer == Err::<DetailView, ErrorView>(error),
        Ok(invoice) => {
            &&& answer matches Ok(detail)
            &&& detail.invoice == invoice
            &&& are_line_rows(ledger, invoice_id, detail.line_items)
            &&& are_attempt_rows(ledger, invoice_id, detail.payment_attempts)
        },
    }
}

/// What a business is answered that has made an invoice.
pub open spec fn created_detail(
    business_id: Uuid,
    draft: DraftView,
    invoice_id: Uuid,
    created_at: i64,
    line_ids: Seq<Uuid>,
) -> DetailView {
    let entry = invoice_entry(business_id, draft, created_at, line_ids);
    entered_view(
        InvoiceView {
            id: invoice_id,
            customer_id: draft.customer_id,
            status: draft.status,
            currency: draft.currency,
            total_cents: draft.total_cents,
            due_date: draft.due_date,
            created_at,
        },
        entry.line_items,
    )
}

/// An invoice is read back as it was made, by its own business: the same
/// invoice, the same lines in the order of their ids, and no attempts. For
/// every other business there is no such invoice.
pub proof fn invoice_is_read_back(
    ledger: Ledger,
    business_id: Uuid,
    input: InvoiceInput,
    invoice_id: Uuid,
    created_at: i64,
    line_ids: Seq<Uuid>,
    reader: Uuid,
    answer: Result<DetailView, ErrorView>,
)
    requires
        ledger.well_formed(),
        invoice_fault(input.line_items@) is None,
        !ledger.invoices.contains_key(invoice_id),
        answers_get(
            create_invoice(
                ledger,
                business_id,
                draft_of(input),
                invoice_id,
                created_at,
                line_ids,
            ),
            reader,
            invoice_id,
            answer,
        ),
    ensures
        ({
            let made = created_detail(
                business_id,
                draft_of(input),
                invoice_id,
                created_at,
                line_ids,
            );
            if reader == business_id {
                &&& answer matches Ok(detail)
                &&& detail.invoice == made.invoice
                &&& detail.line_items.to_multiset() == made.line_items.to_multiset()
                &&& lines_in_order(detail.line_items)
                &&& detail.payment_attempts == made.payment_attempts
            } else {
                answer == Err::<DetailView, ErrorView>(invoice_not_found_view())
            }
        }),
{
    let next = create_invoice(
        ledger,
        business_id,
        draft_of(input),
        invoice_id,
        created_at,
        line_ids,
    );
    if reader == business_id {
        let rows = answer->Ok_0.payment_attempts;
        let ids = rows.map_values(|row: AttemptView| row.id);
        if rows.len() > 0 {
            assert(ids.to_set().contains(ids[0]));
            assert(ledger.attempts.contains_key(ids[0]));
        }
        assert(rows == Seq::<AttemptView>::empty());
    }
}

/// Whatever happens, an invoice is read back with what it was made with, but
/// that it may be paid; and only by its own business.
pub proof fn invoice_stays_as_it_was_made(
    ledger: Ledger,
    steps: Seq<Step>,
    invoice_id: Uuid,
    reader: Uuid,
    answer: Result<DetailView, ErrorView>,
)
    requires
        ledger.well_formed(),
        ledger.invoices.contains_key(invoice_id),
        all_can_happen(ledger, steps),
        answers_get(after(ledger, steps), reader, invoice_id, answer),
    ensures
        if reader == ledger.invoices[invoice_id].business_id {
            &&& answer matches Ok(detail)
            &&& detail.invoice == (InvoiceView {
                status: detail.invoice.status,
                ..invoice_row(ledger, invoice_id)
            })
            &&& detail.line_items.to_multiset()
                == ledger.invoices[invoice_id].line_items.to_multiset()
        } else {
            answer == Err::<DetailView, ErrorView>(invoice_not_found_view())
        },
{
    nothing_is_undone(ledger, steps);
}

/// An invoice that there is not, and one of another business, are answered
/// alike.
pub proof fn foreign_invoice_is_not_found(
    ledger: Ledger,
    business_id: Uuid,
    invoice_id: Uuid,
    answer: Result<DetailView, ErrorView>,
)
    requires
        answers_get(ledger, business_id, invoice_id, answer),
    ensures
        !ledger.invoices.contains_key(invoice_id) || ledger.invoices[invoice_id].business_id
            != business_id <==> answer == Err::<DetailView, ErrorView>(invoice_not_found_view()),
        answer is Err ==> answer == Err::<DetailView, ErrorView>(invoice_not_found_view()),
{
}

// Lists.

/// Whether ids are those of a set: each once, the newest first.
pub open spec fn is_listing(
    ids: Seq<Uuid>,
    wanted: Set<Uuid>,
    created_at: spec_fn(Uuid) -> i64,
) -> bool {
    &&& ids.no_duplicates()
    &&& ids.to_set() == wanted
    &&& forall|i: int, j: int|
        0 <= i < j < ids.len() ==> created_at(#[trigger] ids[i]) >= created_at(#[trigger] ids[j])
}

/// A finite set of ids can be listed.
proof fn can_be_listed(wanted: Set<Uuid>, created_at: spec_fn(Uuid) -> i64) -> (ids: Seq<Uuid>)
    requires
        wanted.finite(),
    ensures
        is_listing(ids, wanted, created_at),
{
    broadcast use vstd::multiset::group_multiset_axioms;
    broadcast use vstd::seq_lib::group_to_multiset_ensures;

    let leq = |a: Uuid, b: Uuid|
        created_at(a) > created_at(b) || (created_at(a) == created_at(b) && a.bits <= b.bits);
    assert(total_ordering(leq)) by {
        assert forall|a: Uuid, b: Uuid| #[trigger] leq(a, b) && #[trigger] leq(b, a) implies a
            == b by {
            assert(a.bits == b.bits);
        }
    }
    let unsorted = wanted.to_seq();
    wanted.lemma_to_seq_to_set_id();
    seq_of_set_is_as_long(wanted);
    unsorted.lemma_no_dup_set_cardinality();
    unsorted.lemma_multiset_has_no_duplicates();
    let ids = unsorted.sort_by(leq);
    unsorted.lemma_sort_by_ensures(leq);
    ids.lemma_multiset_has_no_duplicates_conv();
    assert forall|id: Uuid| ids.to_set().contains(id) <==> wanted.contains(id) by {
        assert(ids.to_multiset().count(id) == unsorted.to_multiset().count(id));
        assert(ids.contains(id) <==> ids.to_multiset().count(id) > 0);
        assert(unsorted.contains(id) <==> unsorted.to_multiset().count(id) > 0);
        assert(unsorted.to_set().contains(id) <==> wanted.contains(id));
    }
    assert(ids.to_set() == wanted);
    assert forall|i: int, j: int| 0 <= i < j < ids.len() implies created_at(#[trigger] ids[i])
        >= created_at(#[trigger] ids[j]) by {
        assert(leq(ids[i], ids[j]));
    }
    ids
}

proof fn seq_of_set_is_as_long(wanted: Set<Uuid>)
    requires
        wanted.finite(),
    ensures
        wanted.to_seq().len() == wanted.len(),
    decreases wanted.len(),
{
    broadcast use vstd::set::group_set_axioms;

    if wanted.len() > 0 {
        let id = wanted.choose();
        seq_of_set_is_as_long(wanted.remove(id));
    }
}

/// A line put where it belongs among lines that are in order.
proof fn line_put_in_order(rows: Seq<LineItemView>, line: LineItemView) -> (result: Seq<
    LineItemView,
>)
    requires
        lines_in_order(rows),
    ensures
        lines_in_order(result),
        result.to_multiset() == rows.to_multiset().insert(line),
    decreases rows.len(),
{
    broadcast use vstd::multiset::group_multiset_axioms;
    broadcast use vstd::seq_lib::group_to_multiset_ensures;

    if rows.len() == 0 || rows.last().id.bits <= line.id.bits {
        rows.push(line)
    } else {
        let last = rows.last();
        let rest = line_put_in_order(rows.drop_last(), line);
        let result = rest.push(last);
        assert(rows == rows.drop_last().push(last));
        assert(result.to_multiset() =~= rows.to_multiset().insert(line));
        assert forall|i: int| 0 <= i < rest.len() implies (#[trigger] rest[i]).id.bits
            <= last.id.bits by {
            assert(rest.to_multiset().count(rest[i]) > 0);
            assert(rest[i] == line || rows.drop_last().to_multiset().count(rest[i]) > 0);
            if rest[i] != line {
                assert(rows.drop_last().contains(rest[i]));
                let j = choose|j: int|
                    0 <= j < rows.drop_last().len() && rows.drop_last()[j] == rest[i];
                assert(rows[j] == rest[i]);
                assert(rows[rows.len() - 1] == last);
            }
        }
        result
    }
}

/// Lines can be put in the order of their ids.
proof fn lines_put_in_order(lines: Seq<LineItemView>) -> (result: Seq<LineItemView>)
    ensures
        lines_in_order(result),
        result.to_multiset() == lines.to_multiset(),
    decreases lines.len(),
{
    broadcast use vstd::seq_lib::group_to_multiset_ensures;

    if lines.len() == 0 {
        lines
    } else {
        let rest = lines_put_in_order(lines.drop_last());
        assert(lines == lines.drop_last().push(lines.last()));
        line_put_in_order(rest, lines.last())
    }
}

/// In books with finitely many attempts, every request for an invoice has an
/// answer.
pub proof fn every_get_is_answered(ledger: Ledger, business_id: Uuid, invoice_id: Uuid)
    requires
        ledger.attempts.dom().finite(),
    ensures
        exists|answer: Result<DetailView, ErrorView>| #[trigger]
            answers_get(ledger, business_id, invoice_id, answer),
{
    match shown_invoice(select_invoice(ledger, business_id, invoice_id)) {
        Err(error) => {
            let answer = Err::<DetailView, ErrorView>(error);
            assert(answers_get(ledger, business_id, invoice_id, answer));
        },
        Ok(invoice) => {
            let wanted = attempts_on(ledger, invoice_id);
            assert(wanted.subset_of(ledger.attempts.dom()));
            vstd::set_lib::lemma_len_subset(wanted, ledger.attempts.dom());
            let ids = can_be_listed(wanted, |id: Uuid| 0);
            let payment_attempts = ids.map_values(
                |id: Uuid|
                    AttemptView {
                        id,
                        status: attempt_text(ledger.attempts[id].state),
                        psp_ref: ledger.attempts[id].psp_ref,
                        failure_code: ledger.attempts[id].failure_code,
                        created_at: 0,
                        updated_at: 0,
                    },
            );
            assert(payment_attempts.map_values(|row: AttemptView| row.id) == ids);
            let line_items = lines_put_in_order(ledger.invoices[invoice_id].line_items);
            let answer = Ok::<DetailView, ErrorView>(
                DetailView { invoice, line_items, payment_attempts },
            );
            assert(answers_get(ledger, business_id, invoice_id, answer));
        },
    }
}

/// Whether an invoice is listed by a status, or by none.
pub open spec fn passes(paid: bool, filter: Option<Seq<char>>) -> bool {
    match filter {
        Some(status) => invoice_text(paid) == status,
        None => true,
    }
}

/// The invoices of a business, by a status or by none.
pub open spec fn invoices_of(ledger: Ledger, business_id: Uuid, filter: Option<Seq<char>>) -> Set<
    Uuid,
> {
    Set::new(
        |id: Uuid|
            ledger.invoices.contains_key(id) && ledger.invoices[id].business_id == business_id
                && passes(ledger.invoices[id].paid, filter),
    )
}

/// The ids of invoices.
pub open spec fn invoice_ids(rows: Seq<InvoiceView>) -> Seq<Uuid> {
    rows.map_values(|row: InvoiceView| row.id)
}

/// Whether rows are the invoices of a business, by a status or by none: each
/// once, the newest first.
pub open spec fn are_invoice_rows(
    ledger: Ledger,
    business_id: Uuid,
    filter: Option<Seq<char>>,
    rows: Seq<InvoiceView>,
) -> bool {
    &&& is_listing(
        invoice_ids(rows),
        invoices_of(ledger, business_id, filter),
        |id: Uuid| ledger.invoices[id].created_at,
    )
    &&& forall|i: int| 0 <= i < rows.len() ==> #[trigger] rows[i] == invoice_row(ledger, rows[i].id)
}

/// Whether a business that lists its invoices is to be given an answer.
pub open spec fn answers_list(
    ledger: Ledger,
    business_id: Uuid,
    status: Option<Seq<char>>,
    answer: Result<Seq<InvoiceView>, ErrorView>,
) -> bool {
    match list_filter(status) {
        Err(error) => answer == Err::<Seq<InvoiceView>, ErrorView>(error),
        Ok(filter) => answer matches Ok(rows) && are_invoice_rows(
            ledger,
            business_id,
            filter,
            rows,
        ),
    }
}

/// A list of invoices is refused exactly for a status that is neither `open`
/// nor `paid`. Otherwise an invoice is in it, once and as its row is, exactly
/// where it is the business's and has the status that is asked for; and the
/// newest come first.
pub proof fn list_holds_the_invoices(
    ledger: Ledger,
    business_id: Uuid,
    status: Option<Seq<char>>,
    answer: Result<Seq<InvoiceView>, ErrorView>,
    invoice_id: Uuid,
)
    requires
        answers_list(ledger, business_id, status, answer),
    ensures
        answer is Err <==> (status matches Some(status) && status != "open"@ && status
            != "paid"@),
        answer is Err ==> answer == Err::<Seq<InvoiceView>, ErrorView>(invalid_status_view()),
        answer matches Ok(rows) ==> {
            &&& rows.no_duplicates()
            &&& rows.contains(invoice_row(ledger, invoice_id)) <==> {
                &&& ledger.invoices.contains_key(invoice_id)
                &&& ledger.invoices[invoice_id].business_id == business_id
                &&& status matches Some(status) ==> invoice_row(ledger, invoice_id).status
                    == status
            }
            &&& forall|i: int|
                0 <= i < rows.len() ==> #[trigger] rows[i] == invoice_row(ledger, rows[i].id)
            &&& forall|i: int, j: int|
                0 <= i < j < rows.len() ==> (#[trigger] rows[i]).created_at >= (
                #[trigger] rows[j]).created_at
        },
{
    if let Ok(rows) = answer {
        rows_follow_their_ids(ledger, business_id, status, rows, invoice_id);
    }
}

/// Rows of invoices, seen through their ids.
proof fn rows_follow_their_ids(
    ledger: Ledger,
    business_id: Uuid,
    filter: Option<Seq<char>>,
    rows: Seq<InvoiceView>,
    invoice_id: Uuid,
)
    requires
        are_invoice_rows(ledger, business_id, filter, rows),
    ensures
        rows.no_duplicates(),
        rows.contains(invoice_row(ledger, invoice_id)) <==> invoices_of(
            ledger,
            business_id,
            filter,
        ).contains(invoice_id),
        forall|i: int, j: int|
            0 <= i < j < rows.len() ==> (#[trigger] rows[i]).created_at >= (
            #[trigger] rows[j]).created_at,
{
    let ids = invoice_ids(rows);
    let row = invoice_row(ledger, invoice_id);
    assert(invoices_of(ledger, business_id, filter).contains(invoice_id) <==> ids.contains(
        invoice_id,
    )) by {
        assert(ids.to_set().contains(invoice_id) <==> ids.contains(invoice_id));
    }
    if ids.contains(invoice_id) {
        let i = choose|i: int| 0 <= i < ids.len() && ids[i] == invoice_id;
        assert(rows[i] == row);
    }
    if rows.contains(row) {
        let i = choose|i: int| 0 <= i < rows.len() && rows[i] == row;
        assert(ids[i] == invoice_id);
    }
    assert forall|i: int, j: int|
        0 <= i < rows.len() && 0 <= j < rows.len() && i != j implies rows[i] != rows[j] by {
        assert(ids[i] != ids[j]);
    }
    assert forall|i: int, j: int| 0 <= i < j < rows.len() implies (#[trigger] rows[i]).created_at
        >= (#[trigger] rows[j]).created_at by {
        assert(ids[i] == rows[i].id && ids[j] == rows[j].id);
    }
}

/// The open invoices and the paid ones make up all of them, and share none.
pub proof fn open_and_paid_make_up_the_whole(
    ledger: Ledger,
    business_id: Uuid,
    all: Seq<InvoiceView>,
    open: Seq<InvoiceView>,
    paid: Seq<InvoiceView>,
)
    requires
        answers_list(ledger, business_id, None, Ok(all)),
        answers_list(ledger, business_id, Some("open"@), Ok(open)),
        answers_list(ledger, business_id, Some("paid"@), Ok(paid)),
    ensures
        forall|row: InvoiceView| #[trigger]
            all.contains(row) <==> open.contains(row) || paid.contains(row),
        forall|row: InvoiceView| !(#[trigger] open.contains(row) && paid.contains(row)),
        all.len() == open.len() + paid.len(),
{
    broadcast use vstd::set::group_set_axioms;

    status_texts_differ();
    assert forall|row: InvoiceView| #[trigger]
        all.contains(row) <==> open.contains(row) || paid.contains(row) by {
        row_is_open_or_paid(ledger, business_id, all, open, paid, row);
    }
    assert forall|row: InvoiceView| !(#[trigger] open.contains(row) && paid.contains(row)) by {
        row_is_open_or_paid(ledger, business_id, all, open, paid, row);
    }
    let (all_ids, open_ids, paid_ids) = (invoice_ids(all), invoice_ids(open), invoice_ids(paid));
    all_ids.unique_seq_to_set();
    open_ids.unique_seq_to_set();
    paid_ids.unique_seq_to_set();
    vstd::seq_lib::seq_to_set_is_finite(open_ids);
    vstd::seq_lib::seq_to_set_is_finite(paid_ids);
    assert(all_ids.to_set() == open_ids.to_set().union(paid_ids.to_set()));
    assert(open_ids.to_set().disjoint(paid_ids.to_set()));
    vstd::set_lib::lemma_set_disjoint_lens(open_ids.to_set(), paid_ids.to_set());
}

proof fn row_is_open_or_paid(
    ledger: Ledger,
    business_id: Uuid,
    all: Seq<InvoiceView>,
    open: Seq<InvoiceView>,
    paid: Seq<InvoiceView>,
    row: InvoiceView,
)
    requires
        are_invoice_rows(ledger, business_id, None, all),
        are_invoice_rows(ledger, business_id, Some("open"@), open),
        are_invoice_rows(ledger, business_id, Some("paid"@), paid),
    ensures
        all.contains(row) <==> open.contains(row) || paid.contains(row),
        !(open.contains(row) && paid.contains(row)),
{
    status_texts_differ();
    rows_follow_their_ids(ledger, business_id, None, all, row.id);
    rows_follow_their_ids(ledger, business_id, Some("open"@), open, row.id);
    rows_follow_their_ids(ledger, business_id, Some("paid"@), paid, row.id);
    is_a_row(ledger, all, row);
    is_a_row(ledger, open, row);
    is_a_row(ledger, paid, row);
}

/// What is in rows of invoices is the row of an invoice.
proof fn is_a_row(ledger: Ledger, rows: Seq<InvoiceView>, row: InvoiceView)
    requires
        forall|i: int|
            0 <= i < rows.len() ==> #[trigger] rows[i] == invoice_row(ledger, rows[i].id),
    ensures
        rows.contains(row) ==> row == invoice_row(ledger, row.id),
{
    if rows.contains(row) {
        let i = choose|i: int| 0 <= i < rows.len() && rows[i] == row;
        assert(rows[i] == row);
    }
}

/// In books with finitely many invoices, every request for a list has an
/// answer.
pub proof fn every_list_is_answered(
    ledger: Ledger,
    business_id: Uuid,
    status: Option<Seq<char>>,
)
    requires
        ledger.invoices.dom().finite(),
    ensures
        exists|answer: Result<Seq<InvoiceView>, ErrorView>| #[trigger]
            answers_list(ledger, business_id, status, answer),
{
    match list_filter(status) {
        Err(error) => {
            let answer = Err::<Seq<InvoiceView>, ErrorView>(error);
            assert(answers_list(ledger, business_id, status, answer));
        },
        Ok(filter) => {
            let wanted = invoices_of(ledger, business_id, filter);
            assert(wanted.subset_of(ledger.invoices.dom()));
            vstd::set_lib::lemma_len_subset(wanted, ledger.invoices.dom());
            let ids = can_be_listed(wanted, |id: Uuid| ledger.invoices[id].created_at);
            let rows = ids.map_values(|id: Uuid| invoice_row(ledger, id));
            assert(invoice_ids(rows) == ids);
            let answer = Ok::<Seq<InvoiceView>, ErrorView>(rows);
            assert(answers_list(ledger, business_id, status, answer));
        },
    }
}

// Webhook endpoints.

/// The endpoints of a business.
pub open spec fn endpoints_of(ledger: Ledger, business_id: Uuid) -> Set<Uuid> {
    Set::new(
        |id: Uuid|
            ledger.endpoints.contains_key(id) && ledger.endpoints[id].business_id == business_id,
    )
}

/// The row of an endpoint.
pub open spec fn endpoint_row(ledger: Ledger, endpoint_id: Uuid) -> EndpointRowView {
    let entry = ledger.endpoints[endpoint_id];
    EndpointRowView {
        id: Some(endpoint_id),
        url: Some(entry.url),
        active: Some(entry.active),
        created_at: Some(entry.created_at),
    }
}

/// Whether rows are the endpoints of a business: each once, the newest first.
pub open spec fn are_endpoint_rows(
    ledger: Ledger,
    business_id: Uuid,
    rows: Seq<EndpointRowView>,
) -> bool {
    let ids = rows.map_values(|row: EndpointRowView| row.id->0);
    &&& is_listing(
        ids,
        endpoints_of(ledger, business_id),
        |id: Uuid| ledger.endpoints[id].created_at,
    )
    &&& forall|i: int|
        0 <= i < rows.len() ==> #[trigger] rows[i] == endpoint_row(ledger, rows[i].id->0)
}

/// Whether a business that lists its endpoints at a time is to be given an
/// answer.
pub open spec fn answers_list_endpoints(
    ledger: Ledger,
    business_id: Uuid,
    now: i64,
    answer: Seq<EndpointView>,
) -> bool {
    exists|rows: Seq<EndpointRowView>| #[trigger]
        are_endpoint_rows(ledger, business_id, rows) && answer == all_listed(rows, now)
}

/// How an endpoint is listed: as it was made, and without its secret.
pub open spec fn shown_endpoint(ledger: Ledger, endpoint_id: Uuid) -> EndpointView {
    let entry = ledger.endpoints[endpoint_id];
    EndpointView {
        id: endpoint_id,
        url: entry.url,
        secret: None,
        active: entry.active,
        created_at: entry.created_at,
    }
}

/// An endpoint is in a list, once and as it was made, exactly where it is the
/// business's; no endpoint is listed with its secret; and the newest come
/// first.
pub proof fn list_holds_the_endpoints(
    ledger: Ledger,
    business_id: Uuid,
    now: i64,
    answer: Seq<EndpointView>,
    endpoint_id: Uuid,
)
    requires
        answers_list_endpoints(ledger, business_id, now, answer),
    ensures
        answer.no_duplicates(),
        answer.contains(shown_endpoint(ledger, endpoint_id)) <==> ledger.endpoints.contains_key(
            endpoint_id,
        ) && ledger.endpoints[endpoint_id].business_id == business_id,
        forall|i: int|
            0 <= i < answer.len() ==> (#[trigger] answer[i]).secret is None && answer[i]
                == shown_endpoint(ledger, answer[i].id),
        forall|i: int, j: int|
            0 <= i < j < answer.len() ==> (#[trigger] answer[i]).created_at >= (
            #[trigger] answer[j]).created_at,
{
    let rows = choose|rows: Seq<EndpointRowView>| #[trigger]
        are_endpoint_rows(ledger, business_id, rows) && answer == all_listed(rows, now);
    let ids = rows.map_values(|row: EndpointRowView| row.id->0);
    let shown = shown_endpoint(ledger, endpoint_id);
    assert forall|i: int| 0 <= i < answer.len() implies (#[trigger] answer[i]).secret is None
        && answer[i] == shown_endpoint(ledger, answer[i].id) && answer[i].id == ids[i] by {
        assert(rows[i] == endpoint_row(ledger, rows[i].id->0));
    }
    assert(endpoints_of(ledger, business_id).contains(endpoint_id) <==> ids.contains(endpoint_id))
        by {
        assert(ids.to_set().contains(endpoint_id) <==> ids.contains(endpoint_id));
    }
    if ids.contains(endpoint_id) {
        let i = choose|i: int| 0 <= i < ids.len() && ids[i] == endpoint_id;
        assert(answer[i].id == endpoint_id);
        assert(answer[i] == shown);
    }
    if answer.contains(shown) {
        let i = choose|i: int| 0 <= i < answer.len() && answer[i] == shown;
        assert(answer[i].id == endpoint_id);
        assert(ids[i] == endpoint_id);
    }
    assert forall|i: int, j: int| 0 <= i < answer.len() && 0 <= j < answer.len() && i
        != j implies answer[i] != answer[j] by {
        assert(answer[i].id == ids[i] && answer[j].id == ids[j]);
    }
    assert forall|i: int, j: int| 0 <= i < j < answer.len() implies (
    #[trigger] answer[i]).created_at >= (#[trigger] answer[j]).created_at by {
        assert(answer[i].id == ids[i] && answer[j].id == ids[j]);
    }
}

/// An endpoint that was made is listed for its business, active and without its
/// secret, and for no other, whatever happens.
pub proof fn made_endpoint_is_listed(
    ledger: Ledger,
    business_id: Uuid,
    endpoint_id: Uuid,
    url: Seq<char>,
    secret_ciphertext: Seq<char>,
    created_at: i64,
    steps: Seq<Step>,
    reader: Uuid,
    now: i64,
    answer: Seq<EndpointView>,
)
    requires
        ledger.well_formed(),
        !ledger.endpoints.contains_key(endpoint_id),
        all_can_happen(
            create_endpoint(ledger, business_id, endpoint_id, url, secret_ciphertext, created_at),
            steps,
        ),
        answers_list_endpoints(
            after(
                create_endpoint(
                    ledger,
                    business_id,
                    endpoint_id,
                    url,
                    secret_ciphertext,
                    created_at,
                ),
                steps,
            ),
            reader,
            now,
            answer,
        ),
    ensures
        answer.contains(
            EndpointView { id: endpoint_id, url, secret: None, active: true, created_at },
        ) <==> reader == business_id,
{
    let made = create_endpoint(
        ledger,
        business_id,
        endpoint_id,
        url,
        secret_ciphertext,
        created_at,
    );
    steps_keep_the_books_in_order(
        ledger,
        Step::CreateEndpoint { business_id, endpoint_id, url, secret_ciphertext, created_at },
    );
    nothing_is_undone(made, steps);
    let end = after(made, steps);
    assert(made.endpoints.contains_key(endpoint_id));
    list_holds_the_endpoints(end, reader, now, answer, endpoint_id);
}

/// In books with finitely many endpoints, every request for a list of them has
/// an answer.
pub proof fn every_endpoint_list_is_answered(ledger: Ledger, business_id: Uuid, now: i64)
    requires
        ledger.endpoints.dom().finite(),
    ensures
        exists|answer: Seq<EndpointView>| #[trigger]
            answers_list_endpoints(ledger, business_id, now, answer),
{
    let wanted = endpoints_of(ledger, business_id);
    assert(wanted.subset_of(ledger.endpoints.dom()));
    vstd::set_lib::lemma_len_subset(wanted, ledger.endpoints.dom());
    let ids = can_be_listed(wanted, |id: Uuid| ledger.endpoints[id].created_at);
    let rows = ids.map_values(|id: Uuid| endpoint_row(ledger, id));
    assert(rows.map_values(|row: EndpointRowView| row.id->0) == ids);
    assert(are_endpoint_rows(ledger, business_id, rows));
    assert(answers_list_endpoints(ledger, business_id, now, all_listed(rows, now)));
}

}
