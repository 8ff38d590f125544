//! Webhook endpoints.
use vstd::prelude::*;
use vstd::string::*;
use vstd::utf8::*;

use crate::crypto::{base64url_encode, base64url_text, longest_plaintext, random_bytes};
use crate::error::{client_error, ApiError, ErrorView};
use crate::http::UNPROCESSABLE_ENTITY;
use crate::ids::Uuid;
use crate::models::{EndpointInput, EndpointResponse, EndpointView};
use crate::services::webhooks::{
    encrypt_secret_with, read_secret, stored_secret, NONCE_LEN,
};
use crate::text::{opt_text, same_text};

verus! {

/// How many random bytes a signing secret is made of.
pub const SECRET_LEN: usize = 32;

/// The scheme and the host of a URL, where the text is one.
pub uninterp spec fn url_parts(value: Seq<char>) -> Option<(Seq<char>, Option<Seq<char>>)>;

/// The error of `url`.
#[verifier::external_type_specification]
#[verifier::external_body]
pub struct ExUrlParseError(url::ParseError);

/// What a URL is judged by.
#[derive(Debug)]
pub struct UrlParts {
    pub scheme: String,
    pub host: Option<String>,
}

/// Calls `url::Url::parse`, and `scheme` and `host_str` of the result: the
/// scheme and the host, where the text is an absolute URL.
#[verifier::external_body]
pub(crate) fn parse_url(value: &str) -> (result: Result<UrlParts, url::ParseError>)
    ensures
        result is Ok <==> url_parts(value@) is Some,
        result is Ok ==> url_parts(value@) == Some(
            (result->Ok_0.scheme@, opt_text(result->Ok_0.host)),
        ),
{
    let url = url::Url::parse(value)?;
    Ok(UrlParts { scheme: url.scheme().to_owned(), host: url.host_str().map(str::to_owned) })
}

/// Whether a webhook can be delivered to a URL with these parts: `http` or
/// `https`, to a host.
pub open spec fn is_webhook_url(parts: Option<(Seq<char>, Option<Seq<char>>)>) -> bool {
    match parts {
        Some((scheme, host)) => (scheme == "http"@ || scheme == "https"@) && host is Some,
        None => false,
    }
}

/// The error for a URL that no webhook can be delivered to.
pub open spec fn invalid_webhook_url_view() -> ErrorView {
    client_error(
        UNPROCESSABLE_ENTITY,
        "invalid_webhook_url"@,
        "url must be valid http or https"@,
    )
}

/// What a URL's parts say.
pub open spec fn parts_view(parts: Option<UrlParts>) -> Option<(Seq<char>, Option<Seq<char>>)> {
    match parts {
        Some(parts) => Some((parts.scheme@, opt_text(parts.host))),
        None => None,
    }
}

/// Checks the parts of a URL that webhooks are to be delivered to.
pub fn check_url_parts(parts: Option<UrlParts>) -> (result: Result<(), ApiError>)
    ensures
        match result {
            Ok(_) => is_webhook_url(parts_view(parts)),
            Err(error) => {
                &&& !is_webhook_url(parts_view(parts))
                &&& error@ == invalid_webhook_url_view()
            },
        },
{
    let valid = match parts {
        Some(parts) => (same_text(parts.scheme.as_str(), "http") || same_text(
            parts.scheme.as_str(),
            "https",
        )) && parts.host.is_some(),
        None => false,
    };
    if valid {
        Ok(())
    } else {
        Err(
            ApiError::client(
                UNPROCESSABLE_ENTITY,
                "invalid_webhook_url",
                "url must be valid http or https",
            ),
        )
    }
}

/// Checks a URL that webhooks are to be delivered to.
pub fn validate_webhook_url(value: &str) -> (result: Result<(), ApiError>)
    ensures
        match result {
            Ok(_) => is_webhook_url(url_parts(value@)),
            Err(error) => {
                &&& !is_webhook_url(url_parts(value@))
                &&& error@ == invalid_webhook_url_view()
            },
        },
{
    match parse_url(value) {
        Ok(parts) => check_url_parts(Some(parts)),
        Err(_) => check_url_parts(None),
    }
}

/// An endpoint to be entered, and the secret that its owner is shown once.
#[derive(Debug)]
pub struct NewEndpoint {
    pub url: String,
    pub secret: String,
    pub secret_ciphertext: String,
}

/// The signing secret that is made of some bytes.
pub open spec fn secret_text(bytes: Seq<u8>) -> Seq<char> {
    "whsec_"@ + base64url_text(bytes)
}

/// A secret of 32 bytes is short enough to be encrypted.
proof fn secret_is_short(bytes: Seq<u8>)
    requires
        bytes.len() == SECRET_LEN,
    ensures
        encode_utf8(secret_text(bytes)).len() <= longest_plaintext(),
{
    let text = secret_text(bytes);
    reveal_strlit("whsec_");
    assert(text.len() == 49);
    encoded_len(text);
}

/// A text of so many characters has at most four times as many bytes.
proof fn encoded_len(text: Seq<char>)
    ensures
        encode_utf8(text).len() <= 4 * text.len(),
    decreases text.len(),
{
    if text.len() > 0 {
        encoded_len(text.drop_first());
    }
}

/// Makes an endpoint out of given random bytes. The secret that is stored reads
/// as the secret that is shown.
pub fn create_endpoint_with(
    input: EndpointInput,
    key: &[u8; 32],
    secret_bytes: &[u8],
    nonce: &[u8],
) -> (result: Result<NewEndpoint, ApiError>)
    requires
        secret_bytes@.len() == SECRET_LEN,
        nonce@.len() == NONCE_LEN,
    ensures
        match result {
            Ok(endpoint) => {
                &&& is_webhook_url(url_parts(input.url@))
                &&& endpoint.url@ == input.url@
                &&& endpoint.secret@ == secret_text(secret_bytes@)
                &&& endpoint.secret_ciphertext@ == stored_secret(key@, nonce@, endpoint.secret@)
                &&& read_secret(endpoint.secret_ciphertext@, key@) == Ok::<Seq<char>, ErrorView>(
                    endpoint.secret@,
                )
            },
            Err(error) => {
                &&& !is_webhook_url(url_parts(input.url@))
                &&& error@ == invalid_webhook_url_view()
            },
        },
{
    if let Err(error) = validate_webhook_url(input.url.as_str()) {
        return Err(error);
    }
    let secret = "whsec_".to_owned().concat(base64url_encode(secret_bytes).as_str());
    proof {
        secret_is_short(secret_bytes@);
    }
    match encrypt_secret_with(secret.as_str(), key, nonce) {
        Ok(secret_ciphertext) => Ok(NewEndpoint { url: input.url, secret, secret_ciphertext }),
        Err(error) => Err(error),
    }
}

/// Makes an endpoint with a random secret. The secret that is stored reads as
/// the secret that is shown.
pub fn create_endpoint(input: EndpointInput, key: &[u8; 32]) -> (result: Result<
    NewEndpoint,
    ApiError,
>)
    ensures
        match result {
            Ok(endpoint) => {
                &&& is_webhook_url(url_parts(input.url@))
                &&& endpoint.url@ == input.url@
                &&& exists|bytes: Seq<u8>|
                    bytes.len() == SECRET_LEN && endpoint.secret@ == #[trigger] secret_text(bytes)
                &&& exists|nonce: Seq<u8>|
                    nonce.len() == NONCE_LEN && endpoint.secret_ciphertext@
                        == #[trigger] stored_secret(key@, nonce, endpoint.secret@)
                &&& read_secret(endpoint.secret_ciphertext@, key@) == Ok::<Seq<char>, ErrorView>(
                    endpoint.secret@,
                )
            },
            Err(error) => {
                &&& !is_webhook_url(url_parts(input.url@))
                &&& error@ == invalid_webhook_url_view()
            },
        },
{
    let secret_bytes = random_bytes(SECRET_LEN);
    let nonce = random_bytes(NONCE_LEN);
    create_endpoint_with(input, key, secret_bytes.as_slice(), nonce.as_slice())
}

/// The answer to the creation of an endpoint: it is active, and its secret is
/// shown.
pub fn endpoint_created(endpoint: NewEndpoint, id: Uuid, created_at: i64) -> (result:
    EndpointResponse)
    ensures
        result == (EndpointResponse {
            id,
            url: endpoint.url,
            secret: Some(endpoint.secret),
            active: true,
            created_at,
        }),
{
    EndpointResponse {
        id,
        url: endpoint.url,
        secret: Some(endpoint.secret),
        active: true,
        created_at,
    }
}

/// A row of an endpoint, with what could be read of it.
#[derive(Debug)]
pub struct EndpointRow {
    pub id: Option<Uuid>,
    pub url: Option<String>,
    pub active: Option<bool>,
    pub created_at: Option<i64>,
}

/// What a row of an endpoint says.
pub struct EndpointRowView {
    pub id: Option<Uuid>,
    pub url: Option<Seq<char>>,
    pub active: Option<bool>,
    pub created_at: Option<i64>,
}

impl View for EndpointRow {
    type V = EndpointRowView;

    open spec fn view(&self) -> EndpointRowView {
        EndpointRowView {
            id: self.id,
            url: opt_text(self.url),
            active: self.active,
            created_at: self.created_at,
        }
    }
}

/// How an endpoint is listed at a time: without its secret, and with a default
/// for what could not be read.
pub open spec fn listed(row: EndpointRowView, now: i64) -> EndpointView {
    EndpointView {
        id: match row.id {
            Some(id) => id,
            None => (Uuid { bits: 0 }),
        },
        url: match row.url {
            Some(url) => url,
            None => Seq::empty(),
        },
        secret: None,
        active: row.active == Some(true),
        created_at: match row.created_at {
            Some(created_at) => created_at,
            None => now,
        },
    }
}

/// How endpoints are listed at a time, in the order of their rows.
pub open spec fn all_listed(rows: Seq<EndpointRowView>, now: i64) -> Seq<EndpointView> {
    rows.map_values(|row: EndpointRowView| listed(row, now))
}

/// What rows of endpoints say.
pub open spec fn endpoint_rows(rows: Seq<EndpointRow>) -> Seq<EndpointRowView> {
    rows.map_values(|row: EndpointRow| row@)
}

/// What endpoints say.
pub open spec fn endpoint_views(endpoints: Seq<EndpointResponse>) -> Seq<EndpointView> {
    endpoints.map_values(|endpoint: EndpointResponse| endpoint@)
}

fn list_endpoint(row: EndpointRow, now: i64) -> (result: EndpointResponse)
    ensures
        result@ == listed(row@, now),
{
    proof {
        reveal_strlit("");
        assert(""@ == Seq::<char>::empty());
    }
    EndpointResponse {
        id: match row.id {
            Some(id) => id,
            None => Uuid::nil(),
        },
        url: match row.url {
            Some(url) => url,
            None => "".to_owned(),
        },
        secret: None,
        active: match row.active {
            Some(active) => active,
            None => false,
        },
        created_at: match row.created_at {
            Some(created_at) => created_at,
            None => now,
        },
    }
}

/// The endpoints as they are listed at a time, in the order of their rows and
/// without their secrets.
pub fn list_endpoints(rows: Vec<EndpointRow>, now: i64) -> (result: Vec<EndpointResponse>)
    ensures
        endpoint_views(result@) == all_listed(endpoint_rows(rows@), now),
{
    let mut endpoints: Vec<EndpointResponse> = Vec::new();
    for row in it: rows
        invariant
            it.seq() == rows@,
            endpoints@.len() == it.index(),
            forall|i: int|
                0 <= i < endpoints@.len() ==> (#[trigger] endpoints@[i])@ == listed(
                    rows@[i]@,
                    now,
                ),
    {
        endpoints.push(list_endpoint(row, now));
    }
    assert(endpoint_views(endpoints@) == all_listed(endpoint_rows(rows@), now));
    endpoints
}

}
