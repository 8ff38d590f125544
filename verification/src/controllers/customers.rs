//! Customers.
use vstd::prelude::*;
use vstd::string::*;
use vstd::utf8::*;

use crate::error::{client_error, ApiError, ErrorView};
use crate::http::{NOT_FOUND, UNPROCESSABLE_ENTITY};
use crate::models::{Customer, CustomerInput};
use crate::services::invoices::customer_not_found_view;
use crate::text::{byte_len, contains_char, trim, trimmed};

verus! {

/// How long the name of a customer may be, in bytes.
pub const MAX_NAME: usize = 200;

/// A customer to be entered.
#[derive(Debug)]
pub struct NewCustomer {
    pub name: String,
    pub email: String,
}

/// The error for a customer that may not be entered.
pub open spec fn invalid_customer_view() -> ErrorView {
    client_error(
        UNPROCESSABLE_ENTITY,
        "invalid_customer"@,
        "name and a valid email are required"@,
    )
}

/// Whether a customer may be entered: without the white space around them, the
/// name is not empty and not too long, and the email has an `@`.
pub open spec fn is_valid_customer(input: CustomerInput) -> bool {
    &&& trimmed(input.name@).len() > 0
    &&& encode_utf8(trimmed(input.name@)).len() <= MAX_NAME
    &&& trimmed(input.email@).contains('@')
}

/// Makes the customer that is entered for an input.
pub fn create(input: CustomerInput) -> (result: Result<NewCustomer, ApiError>)
    ensures
        match result {
            Ok(customer) => {
                &&& is_valid_customer(input)
                &&& customer.name@ == trimmed(input.name@)
                &&& customer.email@ == trimmed(input.email@)
            },
            Err(error) => !is_valid_customer(input) && error@ == invalid_customer_view(),
        },
{
    let name = trim(input.name.as_str());
    let email = trim(input.email.as_str());
    if name.is_empty() || byte_len(name) > MAX_NAME || !contains_char(email, '@') {
        return Err(
            ApiError::client(
                UNPROCESSABLE_ENTITY,
                "invalid_customer",
                "name and a valid email are required",
            ),
        );
    }
    Ok(NewCustomer { name: name.to_owned(), email: email.to_owned() })
}

/// The business's customer with an id, where there is one.
pub fn get(row: Option<Customer>) -> (result: Result<Customer, ApiError>)
    ensures
        match result {
            Ok(customer) => row == Some(customer),
            Err(error) => row is None && error@ == customer_not_found_view(),
        },
{
    match row {
        Some(customer) => Ok(customer),
        None => Err(ApiError::client(NOT_FOUND, "customer_not_found", "customer not found")),
    }
}

}
