//! Webhooks: the secrets that deliveries are signed with, what is delivered,
//! and when a delivery is tried again.
use vstd::prelude::*;
use vstd::slice::*;
use vstd::string::*;
use vstd::utf8::*;

use crate::crypto::{
    aes256gcm_open, aes256gcm_seal, aes_error_text, authenticate_message, hex_bytes, hex_decode,
    hex_encode, hex_fault, hex_round_trip, hex_text, hmac_sha256, is_hex_text, longest_plaintext,
    open, random_bytes, seal,
};
use crate::error::{client_error, error_line, ApiError, ErrorView};
use crate::http::{
    is_status_code, is_success, is_success_code, reason_phrase, status_text,
    INTERNAL_SERVER_ERROR,
};
use crate::ids::{uuid_text, Uuid};
use crate::text::{
    decimal, decimal_text, json_string, quote, read_lossy, read_utf8, utf8_fault, utf8_lossy,
};

verus! {

// Secrets at rest.

/// How many bytes a nonce has.
pub const NONCE_LEN: usize = 12;

/// The stored form of a secret: the nonce and the ciphertext in hexadecimal.
pub open spec fn stored_secret(key: Seq<u8>, nonce: Seq<u8>, secret: Seq<char>) -> Seq<char> {
    hex_text(nonce) + hex_text(aes256gcm_seal(key, nonce, encode_utf8(secret)))
}

/// The error for what cannot be encrypted or decrypted.
pub open spec fn cipher_error_view() -> ErrorView {
    ErrorView::Internal("aead::Error"@)
}

/// What a stored secret is read as. The nonce is the first twelve bytes.
pub open spec fn read_secret(value: Seq<char>, key: Seq<u8>) -> Result<Seq<char>, ErrorView> {
    let bytes = hex_bytes(value);
    let plaintext = aes256gcm_open(
        key,
        bytes.subrange(0, NONCE_LEN as int),
        bytes.subrange(NONCE_LEN as int, bytes.len() as int),
    );
    if !is_hex_text(value) {
        Err(ErrorView::Internal(hex_fault(value)))
    } else if bytes.len() < NONCE_LEN {
        Err(client_error(INTERNAL_SERVER_ERROR, "secret_error"@, "invalid encrypted secret"@))
    } else {
        match plaintext {
            None => Err(cipher_error_view()),
            Some(plaintext) => if valid_utf8(plaintext) {
                Ok(decode_utf8(plaintext))
            } else {
                Err(ErrorView::Internal(utf8_fault(plaintext)))
            },
        }
    }
}

/// The view of a secret or an error.
pub open spec fn secret_view(result: Result<String, ApiError>) -> Result<Seq<char>, ErrorView> {
    match result {
        Ok(secret) => Ok(secret@),
        Err(error) => Err(error@),
    }
}

/// Encrypts a secret for storage under a given nonce. What is stored reads as
/// the secret again.
pub fn encrypt_secret_with(secret: &str, key: &[u8; 32], nonce: &[u8]) -> (result: Result<
    String,
    ApiError,
>)
    requires
        nonce@.len() == NONCE_LEN,
    ensures
        match result {
            Ok(value) => {
                &&& encode_utf8(secret@).len() <= longest_plaintext()
                &&& value@ == stored_secret(key@, nonce@, secret@)
                &&& value@.len() == 2 * encode_utf8(secret@).len() + 56
                &&& read_secret(value@, key@) == Ok::<Seq<char>, ErrorView>(secret@)
            },
            Err(error) => {
                &&& encode_utf8(secret@).len() > longest_plaintext()
                &&& error@ == cipher_error_view()
            },
        },
{
    let ciphertext = match seal(key, nonce, secret.as_bytes()) {
        Ok(ciphertext) => ciphertext,
        Err(error) => return Err(ApiError::Internal(aes_error_text(error))),
    };
    let value = hex_encode(nonce).concat(hex_encode(ciphertext.as_slice()).as_str());
    proof {
        let all = nonce@ + ciphertext@;
        assert(value@ == hex_text(all));
        hex_round_trip(all);
        assert(all.subrange(0, NONCE_LEN as int) == nonce@);
        assert(all.subrange(NONCE_LEN as int, all.len() as int) == ciphertext@);
        encode_utf8_valid_utf8(secret@);
        encode_utf8_decode_utf8(secret@);
    }
    Ok(value)
}

/// Encrypts a secret for storage under a random nonce. What is stored reads as
/// the secret again.
pub fn encrypt_secret(secret: &str, key: &[u8; 32]) -> (result: Result<String, ApiError>)
    ensures
        match result {
            Ok(value) => {
                &&& encode_utf8(secret@).len() <= longest_plaintext()
                &&& exists|nonce: Seq<u8>|
                    nonce.len() == NONCE_LEN && value@ == #[trigger] stored_secret(
                        key@,
                        nonce,
                        secret@,
                    )
                &&& value@.len() == 2 * encode_utf8(secret@).len() + 56
                &&& read_secret(value@, key@) == Ok::<Seq<char>, ErrorView>(secret@)
            },
            Err(error) => {
                &&& encode_utf8(secret@).len() > longest_plaintext()
                &&& error@ == cipher_error_view()
            },
        },
{
    let nonce = random_bytes(NONCE_LEN);
    encrypt_secret_with(secret, key, nonce.as_slice())
}

/// Reads a stored secret.
pub fn decrypt_secret(value: &str, key: &[u8; 32]) -> (result: Result<String, ApiError>)
    ensures
        secret_view(result) == read_secret(value@, key@),
{
    let bytes = match hex_decode(value) {
        Ok(bytes) => bytes,
        Err(error) => return Err(ApiError::Internal(error)),
    };
    if bytes.len() < NONCE_LEN {
        return Err(
            ApiError::client(INTERNAL_SERVER_ERROR, "secret_error", "invalid encrypted secret"),
        );
    }
    let nonce = slice_subrange(bytes.as_slice(), 0, NONCE_LEN);
    let ciphertext = slice_subrange(bytes.as_slice(), NONCE_LEN, bytes.len());
    let plaintext = match open(key, nonce, ciphertext) {
        Ok(plaintext) => plaintext,
        Err(error) => return Err(ApiError::Internal(aes_error_text(error))),
    };
    match read_utf8(plaintext) {
        Ok(secret) => Ok(secret),
        Err(error) => Err(ApiError::Internal(error)),
    }
}

// Deliveries.

/// A delivery that is due.
#[derive(Debug)]
pub struct DeliveryJob {
    pub id: Uuid,
    pub event_id: Uuid,
    pub event_type: String,
    /// The event's JSON document.
    pub payload: String,
    pub url: String,
    pub secret_ciphertext: String,
    pub attempts: i32,
}

/// What a delivery says.
pub struct JobView {
    pub id: Uuid,
    pub event_id: Uuid,
    pub event_type: Seq<char>,
    pub payload: Seq<char>,
    pub url: Seq<char>,
    pub secret_ciphertext: Seq<char>,
    pub attempts: i32,
}

impl View for DeliveryJob {
    type V = JobView;

    open spec fn view(&self) -> JobView {
        JobView {
            id: self.id,
            event_id: self.event_id,
            event_type: self.event_type@,
            payload: self.payload@,
            url: self.url@,
            secret_ciphertext: self.secret_ciphertext@,
            attempts: self.attempts,
        }
    }
}

/// A request to the receiver: the headers `X-Dodo-Event-Id`,
/// `X-Dodo-Timestamp` and `X-Dodo-Signature`, and the body.
#[derive(Debug)]
pub struct DeliveryRequest {
    pub url: String,
    pub event_id: String,
    pub timestamp: String,
    pub signature: String,
    pub body: String,
}

/// What a request to the receiver says.
pub struct DeliveryRequestView {
    pub url: Seq<char>,
    pub event_id: Seq<char>,
    pub timestamp: Seq<char>,
    pub signature: Seq<char>,
    pub body: Seq<char>,
}

impl View for DeliveryRequest {
    type V = DeliveryRequestView;

    open spec fn view(&self) -> DeliveryRequestView {
        DeliveryRequestView {
            url: self.url@,
            event_id: self.event_id@,
            timestamp: self.timestamp@,
            signature: self.signature@,
            body: self.body@,
        }
    }
}

/// What is written of a delivery after an attempt.
#[derive(Debug)]
pub enum DeliveryUpdate {
    /// The event was delivered, with one attempt more.
    Delivered { id: Uuid },
    /// Try again after a while.
    Retry { id: Uuid, attempts: i32, last_error: String, delay_seconds: i64 },
    /// Try no more.
    Exhausted { id: Uuid, attempts: i32, last_error: String },
}

/// What an update says.
pub enum UpdateView {
    Delivered { id: Uuid },
    Retry { id: Uuid, attempts: i32, last_error: Seq<char>, delay_seconds: i64 },
    Exhausted { id: Uuid, attempts: i32, last_error: Seq<char> },
}

impl View for DeliveryUpdate {
    type V = UpdateView;

    open spec fn view(&self) -> UpdateView {
        match *self {
            DeliveryUpdate::Delivered { id } => UpdateView::Delivered { id },
            DeliveryUpdate::Retry { id, attempts, last_error, delay_seconds } => {
                UpdateView::Retry { id, attempts, last_error: last_error@, delay_seconds }
            },
            DeliveryUpdate::Exhausted { id, attempts, last_error } => UpdateView::Exhausted {
                id,
                attempts,
                last_error: last_error@,
            },
        }
    }
}

/// What is done about a delivery that is due.
#[derive(Debug)]
pub enum DeliveryAction {
    /// Send this request.
    Send(DeliveryRequest),
    /// Write this update: there is nothing to send.
    Update(DeliveryUpdate),
}

/// What an action says.
pub enum DeliveryActionView {
    Send(DeliveryRequestView),
    Update(UpdateView),
}

impl View for DeliveryAction {
    type V = DeliveryActionView;

    open spec fn view(&self) -> DeliveryActionView {
        match *self {
            DeliveryAction::Send(request) => DeliveryActionView::Send(request@),
            DeliveryAction::Update(update) => DeliveryActionView::Update(update@),
        }
    }
}

/// What came of a request to the receiver.
#[derive(Debug)]
pub enum DeliveryOutcome {
    /// The status code of the receiver's answer.
    Answered(u16),
    /// The receiver could not be reached.
    Unreachable(String),
    /// The receiver did not answer in time.
    TimedOut,
}

/// What an outcome says.
pub enum OutcomeView {
    Answered(u16),
    Unreachable(Seq<char>),
    TimedOut,
}

impl View for DeliveryOutcome {
    type V = OutcomeView;

    open spec fn view(&self) -> OutcomeView {
        match *self {
            DeliveryOutcome::Answered(code) => OutcomeView::Answered(code),
            DeliveryOutcome::Unreachable(error) => OutcomeView::Unreachable(error@),
            DeliveryOutcome::TimedOut => OutcomeView::TimedOut,
        }
    }
}

/// What a signature is taken of: the timestamp, the event and the body, with
/// full stops between them.
pub open spec fn signed_text(timestamp: Seq<char>, event_id: Uuid, body: Seq<char>) -> Seq<char> {
    timestamp + "."@ + uuid_text(event_id) + "."@ + body
}

/// The signature of a text under a secret.
pub open spec fn signature_text(secret: Seq<char>, text: Seq<char>) -> Seq<char> {
    "v1="@ + hex_text(hmac_sha256(encode_utf8(secret), encode_utf8(text)))
}

/// Signs a body for a receiver.
pub fn sign_payload(secret: &str, timestamp: &str, event_id: Uuid, body: &[u8]) -> (result: String)
    ensures
        result@ == signature_text(secret@, signed_text(timestamp@, event_id, utf8_lossy(body@))),
        valid_utf8(body@) ==> result@ == signature_text(
            secret@,
            signed_text(timestamp@, event_id, decode_utf8(body@)),
        ),
{
    let id = event_id.text();
    let read = read_lossy(body);
    let text = timestamp.to_owned().concat(".").concat(id.as_str()).concat(".");
    let text = text.concat(read.as_str());
    let code = authenticate_message(secret.as_bytes(), text.as_str().as_bytes());
    "v1=".to_owned().concat(hex_encode(&code).as_str())
}

/// The body of a delivery: the event's payload, its id and its type.
pub open spec fn delivery_body(job: JobView) -> Seq<char> {
    "{\"data\":"@ + job.payload + ",\"id\":"@ + json_string(uuid_text(job.event_id))
        + ",\"type\":"@ + json_string(job.event_type) + "}"@
}

/// How long to wait after a failed attempt, in seconds, by its number.
pub open spec fn retry_delay(failures: int) -> i64 {
    if failures == 1 {
        1
    } else if failures == 2 {
        5
    } else if failures == 3 {
        30
    } else if failures == 4 {
        120
    } else {
        600
    }
}

/// How many attempts a delivery gets.
pub const MAX_ATTEMPTS: i32 = 6;

/// What is written of a delivery after a failed attempt.
pub open spec fn failed_update(job: JobView, error: Seq<char>) -> UpdateView {
    let failures = job.attempts + 1;
    if failures >= MAX_ATTEMPTS {
        UpdateView::Exhausted { id: job.id, attempts: failures as i32, last_error: error }
    } else {
        UpdateView::Retry {
            id: job.id,
            attempts: failures as i32,
            last_error: error,
            delay_seconds: retry_delay(failures),
        }
    }
}

/// What is done about a delivery that is due at a time, in seconds since 1970.
pub open spec fn due_delivery(job: JobView, key: Seq<u8>, now: i64) -> DeliveryActionView {
    match read_secret(job.secret_ciphertext, key) {
        Err(error) => DeliveryActionView::Update(
            failed_update(job, "secret: "@ + error_line(error)),
        ),
        Ok(secret) => DeliveryActionView::Send(
            DeliveryRequestView {
                url: job.url,
                event_id: uuid_text(job.event_id),
                timestamp: decimal_text(now as int),
                signature: signature_text(
                    secret,
                    signed_text(decimal_text(now as int), job.event_id, delivery_body(job)),
                ),
                body: delivery_body(job),
            },
        ),
    }
}

/// What is written of a delivery after an outcome.
pub open spec fn delivery_outcome(job: JobView, outcome: OutcomeView) -> UpdateView {
    match outcome {
        OutcomeView::Answered(code) => if is_success_code(code) {
            UpdateView::Delivered { id: job.id }
        } else {
            failed_update(
                job,
                "receiver returned "@ + (decimal_text(code as int) + seq![' '] + reason_phrase(
                    code,
                )),
            )
        },
        OutcomeView::Unreachable(error) => failed_update(job, error),
        OutcomeView::TimedOut => failed_update(job, "delivery timeout"@),
    }
}

/// What is written of a delivery after a failed attempt.
pub fn record_failure(job: &DeliveryJob, error: String) -> (result: DeliveryUpdate)
    requires
        0 <= job.attempts < i32::MAX,
    ensures
        result@ == failed_update(job@, error@),
{
    let next_attempt: i32 = job.attempts + 1;
    if next_attempt >= MAX_ATTEMPTS {
        return DeliveryUpdate::Exhausted {
            id: job.id,
            attempts: next_attempt,
            last_error: error,
        };
    }
    let delay_seconds: i64 = match next_attempt {
        1 => 1,
        2 => 5,
        3 => 30,
        4 => 120,
        _ => 600,
    };
    DeliveryUpdate::Retry { id: job.id, attempts: next_attempt, last_error: error, delay_seconds }
}

/// Writes the body of a delivery.
fn write_body(job: &DeliveryJob) -> (result: String)
    ensures
        result@ == delivery_body(job@),
{
    let id = job.event_id.text();
    let text = "{\"data\":".to_owned().concat(job.payload.as_str()).concat(",\"id\":");
    let text = text.concat(quote(id.as_str()).as_str()).concat(",\"type\":");
    text.concat(quote(job.event_type.as_str()).as_str()).concat("}")
}

/// Decides what is done about a delivery that is due at a time, in seconds
/// since 1970: what is sent, signed with the endpoint's secret, or what is
/// written where the secret cannot be read.
pub fn deliver(job: &DeliveryJob, key: &[u8; 32], now: i64) -> (result: DeliveryAction)
    requires
        read_secret(job.secret_ciphertext@, key@) is Err ==> 0 <= job.attempts < i32::MAX,
    ensures
        result@ == due_delivery(job@, key@, now),
{
    let secret = match decrypt_secret(job.secret_ciphertext.as_str(), key) {
        Ok(secret) => secret,
        Err(error) => {
            let detail = error.line();
            let text = "secret: ".to_owned().concat(detail.as_str());
            return DeliveryAction::Update(record_failure(job, text));
        },
    };
    let body = write_body(job);
    let timestamp = decimal(now);
    proof {
        encode_utf8_valid_utf8(body@);
        encode_utf8_decode_utf8(body@);
    }
    let signature = sign_payload(
        secret.as_str(),
        timestamp.as_str(),
        job.event_id,
        body.as_str().as_bytes(),
    );
    DeliveryAction::Send(
        DeliveryRequest {
            url: job.url.as_str().to_owned(),
            event_id: job.event_id.text(),
            timestamp,
            signature,
            body,
        },
    )
}

/// Decides what is done about a delivery that is due, where its failures can be
/// counted or its secret can be read.
pub fn deliver_counted(job: &DeliveryJob, key: &[u8; 32], now: i64) -> (result: Option<
    DeliveryAction,
>)
    ensures
        match result {
            Some(action) => {
                &&& read_secret(job.secret_ciphertext@, key@) is Ok || 0 <= job.attempts < i32::MAX
                &&& action@ == due_delivery(job@, key@, now)
            },
            None => {
                &&& read_secret(job.secret_ciphertext@, key@) is Err
                &&& !(0 <= job.attempts < i32::MAX)
            },
        },
{
    let counted = 0 <= job.attempts && job.attempts < i32::MAX;
    if counted || decrypt_secret(job.secret_ciphertext.as_str(), key).is_ok() {
        Some(deliver(job, key, now))
    } else {
        None
    }
}

/// Decides what is written of a delivery after an outcome.
pub fn conclude_delivery(job: &DeliveryJob, outcome: DeliveryOutcome) -> (result: DeliveryUpdate)
    requires
        outcome@ matches OutcomeView::Answered(code) ==> is_status_code(code as int),
        !(outcome@ matches OutcomeView::Answered(code) && is_success_code(code)) ==> 0
            <= job.attempts < i32::MAX,
    ensures
        result@ == delivery_outcome(job@, outcome@),
{
    match outcome {
        DeliveryOutcome::Answered(code) => if is_success(code) {
            DeliveryUpdate::Delivered { id: job.id }
        } else {
            let status = status_text(code);
            record_failure(job, "receiver returned ".to_owned().concat(status.as_str()))
        },
        DeliveryOutcome::Unreachable(error) => record_failure(job, error),
        DeliveryOutcome::TimedOut => record_failure(job, "delivery timeout".to_owned()),
    }
}

/// What came of looking for a delivery that is due.
#[derive(Clone, Copy, Debug, PartialEq, Eq, Structural)]
pub enum ClaimOutcome {
    /// There was one, and it was worked on.
    Claimed,
    /// There was none.
    Idle,
    /// The database failed.
    Failed,
}

/// How long to wait before the next look, in milliseconds.
pub fn wait_after_claim(outcome: ClaimOutcome) -> (millis: u64)
    ensures
        millis == match outcome {
            ClaimOutcome::Claimed => 0u64,
            ClaimOutcome::Idle => 500,
            ClaimOutcome::Failed => 2000,
        },
{
    match outcome {
        ClaimOutcome::Claimed => 0,
        ClaimOutcome::Idle => 500,
        ClaimOutcome::Failed => 2000,
    }
}

// What a receiver can rely on.

/// The attempts of a new delivery after so many failures, as long as it is
/// tried again.
pub open spec fn attempts_after(job: JobView, failures: nat) -> Option<i32>
    decreases failures,
{
    if failures == 0 {
        Some(job.attempts)
    } else {
        match attempts_after(job, (failures - 1) as nat) {
            None => None,
            Some(attempts) => match failed_update(JobView { attempts, ..job }, seq![]) {
                UpdateView::Retry { attempts, .. } => Some(attempts),
                _ => None,
            },
        }
    }
}

/// A delivery is tried six times: it is tried again after each of its first
/// five failures, and no more after the sixth.
pub proof fn six_attempts(job: JobView, failures: nat)
    requires
        job.attempts == 0,
    ensures
        failures < MAX_ATTEMPTS ==> attempts_after(job, failures) == Some(failures as i32),
        failures >= MAX_ATTEMPTS ==> attempts_after(job, failures) is None,
    decreases failures,
{
    if failures > 0 {
        six_attempts(job, (failures - 1) as nat);
    }
}

/// Whether a delivery is tried again does not depend on what went wrong, and
/// each wait is longer than the one before.
pub proof fn waits_grow(job: JobView, next: JobView, error: Seq<char>, next_error: Seq<char>)
    requires
        0 <= job.attempts < i32::MAX - 1,
        next.attempts == job.attempts + 1,
        failed_update(next, next_error) is Retry,
    ensures
        failed_update(job, error) is Retry,
        failed_update(job, error)->Retry_delay_seconds < failed_update(
            next,
            next_error,
        )->Retry_delay_seconds,
{
}

/// A delivery is signed with the secret that its endpoint was given, and what
/// the signature is taken of is what the receiver reads: the headers and the
/// body.
pub proof fn deliveries_are_signed(job: JobView, key: Seq<u8>, now: i64, secret: Seq<char>)
    requires
        read_secret(job.secret_ciphertext, key) == Ok::<Seq<char>, ErrorView>(secret),
    ensures
        due_delivery(job, key, now) matches DeliveryActionView::Send(request) && request.url
            == job.url && request.signature == signature_text(
            secret,
            request.timestamp + "."@ + request.event_id + "."@ + request.body,
        ),
{
}

}
