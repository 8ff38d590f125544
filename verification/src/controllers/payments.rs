//! Payments.
use vstd::prelude::*;
use vstd::string::*;
use vstd::utf8::*;

use crate::error::{client_error, ApiError, ErrorView};
use crate::http::UNPROCESSABLE_ENTITY;
use crate::ids::Uuid;
use crate::models::PayInput;
use crate::services::payments::{
    payment_request, request_fingerprint, PayRequest, RequestView,
};
use crate::text::{byte_len, opt_str, trim, trimmed};

verus! {

/// How long an idempotency key may be, in bytes.
pub const MAX_KEY: usize = 200;

/// The error for a request without an idempotency key, or with too long a one.
pub open spec fn missing_key_view() -> ErrorView {
    client_error(
        UNPROCESSABLE_ENTITY,
        "missing_idempotency_key"@,
        "Idempotency-Key is required"@,
    )
}

/// The error for a request without a card token.
pub open spec fn invalid_card_token_view() -> ErrorView {
    client_error(UNPROCESSABLE_ENTITY, "invalid_card_token"@, "card_token is required"@)
}

/// The idempotency key that a header names: without the white space around it,
/// and empty where there is no header.
pub open spec fn named_key(header: Option<Seq<char>>) -> Seq<char> {
    match header {
        Some(header) => trimmed(header),
        None => Seq::empty(),
    }
}

/// What a request to pay an invoice is taken as.
pub open spec fn pay_request(
    business_id: Uuid,
    invoice_id: Uuid,
    header: Option<Seq<char>>,
    card_token: Seq<char>,
) -> Result<RequestView, ErrorView> {
    let key = named_key(header);
    if key.len() == 0 || encode_utf8(key).len() > MAX_KEY {
        Err(missing_key_view())
    } else if trimmed(card_token).len() == 0 {
        Err(invalid_card_token_view())
    } else {
        Ok(
            RequestView {
                business_id,
                invoice_id,
                idempotency_key: key,
                request_hash: request_fingerprint(invoice_id, card_token),
                card_token,
            },
        )
    }
}

/// The view of a payment request or an error.
pub open spec fn pay_request_view(result: Result<PayRequest, ApiError>) -> Result<
    RequestView,
    ErrorView,
> {
    match result {
        Ok(request) => Ok(request@),
        Err(error) => Err(error@),
    }
}

/// Takes a request to pay an invoice. The idempotency key is what its header
/// holds.
pub fn pay_invoice(
    business_id: Uuid,
    invoice_id: Uuid,
    header: Option<&str>,
    input: PayInput,
) -> (result: Result<PayRequest, ApiError>)
    ensures
        pay_request_view(result) == pay_request(
            business_id,
            invoice_id,
            opt_str(header),
            input.card_token@,
        ),
        result matches Ok(request) ==> request@.well_formed(),
{
    let key = match header {
        Some(header) => trim(header),
        None => "",
    };
    proof {
        reveal_strlit("");
        assert(key@ == named_key(opt_str(header)));
    }
    if key.is_empty() || byte_len(key) > MAX_KEY {
        return Err(
            ApiError::client(
                UNPROCESSABLE_ENTITY,
                "missing_idempotency_key",
                "Idempotency-Key is required",
            ),
        );
    }
    if trim(input.card_token.as_str()).is_empty() {
        return Err(
            ApiError::client(UNPROCESSABLE_ENTITY, "invalid_card_token", "card_token is required"),
        );
    }
    payment_request(business_id, invoice_id, key, input)
}

}
