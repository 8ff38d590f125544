//! Webhook endpoints: where they may be, and how their secrets are kept.
use vstd::prelude::*;
use vstd::utf8::*;

use crate::controllers::webhooks::{
    check_url_parts, create_endpoint, create_endpoint_with, endpoint_created, list_endpoints,
    secret_text, url_parts, validate_webhook_url, EndpointRow, NewEndpoint, UrlParts,
};
use crate::crypto::{
    aes256gcm_open, aes256gcm_seal, base64url_text, hex_bytes, hex_fault, hex_text, is_hex_text,
};
use crate::error::ApiError;
use crate::guarantees::answers::tells;
use crate::ids::Uuid;
use crate::models::{EndpointInput, EndpointResponse};
use crate::services::webhooks::{
    decrypt_secret, encrypt_secret, encrypt_secret_with, stored_secret,
};
use crate::text::utf8_fault;

verus! {

/// Whether an error is the one for a URL that nothing can be delivered to.
pub open spec fn tells_of_the_url(error: ApiError) -> bool {
    tells(error, 422, "invalid_webhook_url"@, "url must be valid http or https"@)
}

/// The parts of a URL pass exactly where the scheme is `http` or `https` and
/// there is a host.
pub proof fn url_needs_a_scheme_and_a_host(parts: Option<UrlParts>, result: Result<(), ApiError>)
    requires
        call_ensures(check_url_parts, (parts,), result),
    ensures
        ({
            let is_fit = parts matches Some(parts) && (parts.scheme@ == "http"@ || parts.scheme@
                == "https"@) && parts.host is Some;
            match result {
                Ok(_) => is_fit,
                Err(error) => !is_fit && tells_of_the_url(error),
            }
        }),
{
}

/// Whether a text is a URL that webhooks can be delivered to.
pub open spec fn is_deliverable(value: Seq<char>) -> bool {
    match url_parts(value) {
        Some((scheme, host)) => (scheme == "http"@ || scheme == "https"@) && host is Some,
        None => false,
    }
}

/// A URL passes exactly where its parts do.
pub proof fn url_passes_by_its_parts(value: &str, result: Result<(), ApiError>)
    requires
        call_ensures(validate_webhook_url, (value,), result),
    ensures
        match result {
            Ok(_) => is_deliverable(value@),
            Err(error) => !is_deliverable(value@) && tells_of_the_url(error),
        },
{
}

/// A secret is stored under the key that is given, with the nonce before the
/// ciphertext, both in hexadecimal; one that is too long is not.
pub proof fn secret_is_sealed_under_the_key(
    secret: &str,
    key: &[u8; 32],
    nonce: &[u8],
    result: Result<String, ApiError>,
)
    requires
        nonce@.len() == 12,
        call_ensures(encrypt_secret_with, (secret, key, nonce), result),
    ensures
        call_requires(encrypt_secret_with, (secret, key, nonce)),
        match result {
            Ok(value) => {
                &&& encode_utf8(secret@).len() <= 0x10_0000_0000
                &&& value@ == hex_text(nonce@) + hex_text(
                    aes256gcm_seal(key@, nonce@, encode_utf8(secret@)),
                )
            },
            Err(error) => {
                &&& encode_utf8(secret@).len() > 0x10_0000_0000
                &&& error matches ApiError::Internal(told) && told@ == "aead::Error"@
            },
        },
{
}

/// So it is under a nonce of twelve bytes that is drawn.
pub proof fn secret_is_sealed_under_a_drawn_nonce(
    secret: &str,
    key: &[u8; 32],
    result: Result<String, ApiError>,
)
    requires
        call_ensures(encrypt_secret, (secret, key), result),
    ensures
        result is Ok <==> encode_utf8(secret@).len() <= 0x10_0000_0000,
        result matches Ok(value) ==> exists|nonce: Seq<u8>|
            nonce.len() == 12 && value@ == hex_text(nonce) + hex_text(
                #[trigger] aes256gcm_seal(key@, nonce, encode_utf8(secret@)),
            ),
        result matches Err(error) ==> (error matches ApiError::Internal(told) && told@
            == "aead::Error"@),
{
    if let Ok(value) = result {
        let nonce = choose|nonce: Seq<u8>|
            nonce.len() == 12 && value@ == #[trigger] stored_secret(key@, nonce, secret@);
        assert(value@ == hex_text(nonce) + hex_text(
            aes256gcm_seal(key@, nonce, encode_utf8(secret@)),
        ));
    }
}

/// What is stored of a secret is read as the secret again, under the same key.
pub proof fn stored_secret_is_read_again(
    secret: &str,
    key: &[u8; 32],
    nonce: &[u8],
    value: String,
    stored: &str,
    read: Result<String, ApiError>,
)
    requires
        call_ensures(encrypt_secret, (secret, key), Ok(value)) || call_ensures(
            encrypt_secret_with,
            (secret, key, nonce),
            Ok(value),
        ),
        stored@ == value@,
        call_ensures(decrypt_secret, (stored, key), read),
    ensures
        read matches Ok(text) && text@ == secret@,
{
}

/// A stored secret is read under the key that is given: from hexadecimal, with the
/// first twelve bytes as the nonce. Each thing that can be wrong with it has its
/// own error.
pub proof fn stored_secret_is_opened_under_the_key(
    value: &str,
    key: &[u8; 32],
    result: Result<String, ApiError>,
)
    requires
        call_ensures(decrypt_secret, (value, key), result),
    ensures
        ({
            let bytes = hex_bytes(value@);
            if !is_hex_text(value@) {
                result matches Err(ApiError::Internal(told)) && told@ == hex_fault(value@)
            } else if bytes.len() < 12 {
                result matches Err(error) && tells(
                    error,
                    500,
                    "secret_error"@,
                    "invalid encrypted secret"@,
                )
            } else {
                match aes256gcm_open(
                    key@,
                    bytes.subrange(0, 12),
                    bytes.subrange(12, bytes.len() as int),
                ) {
                    None => result matches Err(ApiError::Internal(told)) && told@
                        == "aead::Error"@,
                    Some(plain) => if valid_utf8(plain) {
                        result matches Ok(secret) && secret@ == decode_utf8(plain)
                    } else {
                        result matches Err(ApiError::Internal(told)) && told@ == utf8_fault(plain)
                    },
                }
            }
        }),
{
}

/// Whether an endpoint is made of a URL and a secret of these bytes: what is
/// stored reads, under the key, as the secret that is shown.
pub open spec fn is_made_of(
    endpoint: NewEndpoint,
    url: Seq<char>,
    key: Seq<u8>,
    secret_bytes: Seq<u8>,
    nonce: Seq<u8>,
) -> bool {
    &&& endpoint.url@ == url
    &&& endpoint.secret@ == "whsec_"@ + base64url_text(secret_bytes)
    &&& endpoint.secret_ciphertext@ == hex_text(nonce) + hex_text(
        aes256gcm_seal(key, nonce, encode_utf8(endpoint.secret@)),
    )
}

/// An endpoint is made exactly where its URL passes, out of 32 bytes.
pub proof fn endpoint_is_made_of_its_secret(
    input: EndpointInput,
    key: &[u8; 32],
    secret_bytes: &[u8],
    nonce: &[u8],
    result: Result<NewEndpoint, ApiError>,
)
    requires
        secret_bytes@.len() == 32,
        nonce@.len() == 12,
        call_ensures(create_endpoint_with, (input, key, secret_bytes, nonce), result),
    ensures
        call_requires(create_endpoint_with, (input, key, secret_bytes, nonce)),
        match result {
            Ok(endpoint) => is_deliverable(input.url@) && is_made_of(
                endpoint,
                input.url@,
                key@,
                secret_bytes@,
                nonce@,
            ),
            Err(error) => !is_deliverable(input.url@) && tells_of_the_url(error),
        },
{
}

/// So it is with a drawn secret.
pub proof fn endpoint_is_made_of_a_drawn_secret(
    input: EndpointInput,
    key: &[u8; 32],
    result: Result<NewEndpoint, ApiError>,
)
    requires
        call_ensures(create_endpoint, (input, key), result),
    ensures
        match result {
            Ok(endpoint) => is_deliverable(input.url@) && exists|bytes: Seq<u8>, nonce: Seq<u8>|
                bytes.len() == 32 && nonce.len() == 12 && #[trigger] is_made_of(
                    endpoint,
                    input.url@,
                    key@,
                    bytes,
                    nonce,
                ),
            Err(error) => !is_deliverable(input.url@) && tells_of_the_url(error),
        },
{
    if let Ok(endpoint) = result {
        let bytes = choose|bytes: Seq<u8>|
            bytes.len() == 32 && endpoint.secret@ == #[trigger] secret_text(bytes);
        let nonce = choose|nonce: Seq<u8>|
            nonce.len() == 12 && endpoint.secret_ciphertext@ == #[trigger] stored_secret(
                key@,
                nonce,
                endpoint.secret@,
            );
        assert(is_made_of(endpoint, input.url@, key@, bytes, nonce));
    }
}

/// What is stored of an endpoint's secret is what its deliveries are signed with:
/// it reads as the secret that the owner was shown.
pub proof fn shown_secret_is_the_one_that_signs(
    input: EndpointInput,
    key: &[u8; 32],
    endpoint: NewEndpoint,
    stored: &str,
    read: Result<String, ApiError>,
)
    requires
        call_ensures(create_endpoint, (input, key), Ok(endpoint)),
        stored@ == endpoint.secret_ciphertext@,
        call_ensures(decrypt_secret, (stored, key), read),
    ensures
        read matches Ok(secret) && secret@ == endpoint.secret@,
{
}

/// A new endpoint is answered active, with its own URL and its own secret.
pub proof fn new_endpoint_is_shown_with_its_secret(
    endpoint: NewEndpoint,
    id: Uuid,
    created_at: i64,
    response: EndpointResponse,
)
    requires
        call_ensures(endpoint_created, (endpoint, id, created_at), response),
    ensures
        response.id == id,
        response.url@ == endpoint.url@,
        response.secret matches Some(secret) && secret@ == endpoint.secret@,
        response.active,
        response.created_at == created_at,
{
}

/// Endpoints are listed in the order of their rows, each as its row is and without
/// its secret; what could not be read of a row is nil, empty, inactive and now.
pub proof fn endpoints_are_listed_without_secrets(
    rows: Vec<EndpointRow>,
    now: i64,
    result: Vec<EndpointResponse>,
)
    requires
        call_ensures(list_endpoints, (rows, now), result),
    ensures
        result@.len() == rows@.len(),
        forall|i: int|
            0 <= i < result@.len() ==> {
                let (shown, row) = (#[trigger] result@[i], rows@[i]);
                &&& shown.secret is None
                &&& match row.id {
                    Some(id) => shown.id == id,
                    None => shown.id.bits == 0,
                }
                &&& match row.url {
                    Some(url) => shown.url@ == url@,
                    None => shown.url@.len() == 0,
                }
                &&& match row.active {
                    Some(active) => shown.active == active,
                    None => !shown.active,
                }
                &&& match row.created_at {
                    Some(created_at) => shown.created_at == created_at,
                    None => shown.created_at == now,
                }
            },
{
    let views = crate::controllers::webhooks::endpoint_views(result@);
    let row_views = crate::controllers::webhooks::endpoint_rows(rows@);
    assert(views.len() == result@.len());
    assert(row_views.len() == rows@.len());
    assert forall|i: int| 0 <= i < result@.len() implies {
        let (shown, row) = (#[trigger] result@[i], rows@[i]);
        &&& shown.secret is None
        &&& match row.id {
            Some(id) => shown.id == id,
            None => shown.id.bits == 0,
        }
        &&& match row.url {
            Some(url) => shown.url@ == url@,
            None => shown.url@.len() == 0,
        }
        &&& match row.active {
            Some(active) => shown.active == active,
            None => !shown.active,
        }
        &&& match row.created_at {
            Some(created_at) => shown.created_at == created_at,
            None => shown.created_at == now,
        }
    } by {
        assert(views[i] == result@[i]@);
        assert(row_views[i] == rows@[i]@);
    }
}

}
