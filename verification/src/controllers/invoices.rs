//! Invoices.
use vstd::prelude::*;
use vstd::string::*;

use crate::error::{client_error, ApiError, ErrorView};
use crate::http::{NOT_FOUND, UNPROCESSABLE_ENTITY};
use crate::models::{
    Invoice, InvoiceDetail, InvoiceListQuery, InvoiceView, LineItem, PaymentAttempt,
};
use crate::services::payments::invoice_not_found_view;
use crate::text::{opt_text, same_text};

verus! {

/// The error for a status that no invoice is listed by.
pub open spec fn invalid_status_view() -> ErrorView {
    client_error(UNPROCESSABLE_ENTITY, "invalid_status"@, "status must be open or paid"@)
}

/// The status that invoices are listed by, or `None` for all of them.
pub open spec fn list_filter(status: Option<Seq<char>>) -> Result<Option<Seq<char>>, ErrorView> {
    match status {
        None => Ok(None),
        Some(status) => if status == "open"@ || status == "paid"@ {
            Ok(Some(status))
        } else {
            Err(invalid_status_view())
        },
    }
}

/// The view of a status to list by, or of an error.
pub open spec fn filter_view(result: Result<Option<String>, ApiError>) -> Result<
    Option<Seq<char>>,
    ErrorView,
> {
    match result {
        Ok(status) => Ok(opt_text(status)),
        Err(error) => Err(error@),
    }
}

/// The status that invoices are listed by, or `None` for all of them.
pub fn list(query: InvoiceListQuery) -> (result: Result<Option<String>, ApiError>)
    ensures
        filter_view(result) == list_filter(opt_text(query.status)),
{
    match query.status {
        None => Ok(None),
        Some(status) => if same_text(status.as_str(), "open") || same_text(
            status.as_str(),
            "paid",
        ) {
            Ok(Some(status))
        } else {
            Err(
                ApiError::client(
                    UNPROCESSABLE_ENTITY,
                    "invalid_status",
                    "status must be open or paid",
                ),
            )
        },
    }
}

/// What is answered for the business's invoice with an id, where there is one.
pub open spec fn shown_invoice(row: Option<InvoiceView>) -> Result<InvoiceView, ErrorView> {
    match row {
        Some(invoice) => Ok(invoice),
        None => Err(invoice_not_found_view()),
    }
}

/// The view of an optional invoice.
pub open spec fn opt_invoice(row: Option<Invoice>) -> Option<InvoiceView> {
    match row {
        Some(invoice) => Some(invoice@),
        None => None,
    }
}

/// The view of an invoice or an error.
pub open spec fn invoice_result(result: Result<Invoice, ApiError>) -> Result<
    InvoiceView,
    ErrorView,
> {
    match result {
        Ok(invoice) => Ok(invoice@),
        Err(error) => Err(error@),
    }
}

/// The business's invoice with an id, where there is one.
pub fn get(row: Option<Invoice>) -> (result: Result<Invoice, ApiError>)
    ensures
        invoice_result(result) == shown_invoice(opt_invoice(row)),
        result matches Ok(invoice) ==> row == Some(invoice),
{
    match row {
        Some(invoice) => Ok(invoice),
        None => Err(ApiError::client(NOT_FOUND, "invoice_not_found", "invoice not found")),
    }
}

/// The answer to a request for an invoice: the invoice with its lines and its
/// payment attempts.
pub fn detail(
    invoice: Invoice,
    line_items: Vec<LineItem>,
    payment_attempts: Vec<PaymentAttempt>,
) -> (result: InvoiceDetail)
    ensures
        result == (InvoiceDetail { invoice, line_items, payment_attempts }),
{
    InvoiceDetail { invoice, line_items, payment_attempts }
}

}
