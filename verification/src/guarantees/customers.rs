//! Customers: who may be entered, and as what.
use vstd::prelude::*;
use vstd::utf8::encode_utf8;

use crate::controllers::customers::{create, get, NewCustomer};
use crate::error::ApiError;
use crate::guarantees::answers::tells;
use crate::models::{Customer, CustomerInput};
use crate::text::trimmed;

verus! {

/// A customer is entered exactly where, without the white space around them, the
/// name has from 1 to 200 bytes and the email has an `@`; and is entered like that.
pub proof fn customer_needs_a_name_and_an_email(
    input: CustomerInput,
    result: Result<NewCustomer, ApiError>,
)
    requires
        call_ensures(create, (input,), result),
    ensures
        ({
            let (name, email) = (trimmed(input.name@), trimmed(input.email@));
            let is_fit = name.len() >= 1 && encode_utf8(name).len() <= 200 && email.contains('@');
            match result {
                Ok(customer) => is_fit && customer.name@ == name && customer.email@ == email,
                Err(error) => !is_fit && tells(
                    error,
                    422,
                    "invalid_customer"@,
                    "name and a valid email are required"@,
                ),
            }
        }),
{
}

/// A customer that is there is shown as it is, and one that is not is not found.
pub proof fn customer_is_shown_as_it_is(row: Option<Customer>, result: Result<Customer, ApiError>)
    requires
        call_ensures(get, (row,), result),
    ensures
        match row {
            Some(customer) => result matches Ok(shown) && shown == customer,
            None => result matches Err(error) && tells(
                error,
                404,
                "customer_not_found"@,
                "customer not found"@,
            ),
        },
{
}

}
