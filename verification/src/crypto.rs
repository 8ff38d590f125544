//! The cryptographic operations and encodings that the service takes from
//! outside crates.
use aes_gcm::aead::{Aead, KeyInit};
use argon2::{PasswordHasher, PasswordVerifier};
use base64::Engine;
use rand::RngCore;
use sha2::Digest;
use vstd::prelude::*;

use crate::text::digit_char;

verus! {

broadcast use vstd::seq_lib::group_seq_properties;

// Digests.

/// The SHA-256 digest of some bytes.
pub uninterp spec fn sha256(data: Seq<u8>) -> Seq<u8>;

/// Calls `sha2::Sha256::digest`: the digest of `data`, which has 32 bytes.
#[verifier::external_body]
pub(crate) fn digest(data: &[u8]) -> (result: [u8; 32])
    ensures
        result@ == sha256(data@),
{
    sha2::Sha256::digest(data).into()
}

/// The HMAC with SHA-256 of a message under a key.
pub uninterp spec fn hmac_sha256(key: Seq<u8>, message: Seq<u8>) -> Seq<u8>;

/// Calls `hmac::Hmac::<sha2::Sha256>::new_from_slice`, which takes a key of any
/// length, then `update` and `finalize`: the code of `message` under `key`,
/// which has 32 bytes.
#[verifier::external_body]
pub(crate) fn authenticate_message(key: &[u8], message: &[u8]) -> (result: [u8; 32])
    ensures
        result@ == hmac_sha256(key@, message@),
{
    let mut mac = <hmac::Hmac<sha2::Sha256> as hmac::Mac>::new_from_slice(key).unwrap();
    hmac::Mac::update(&mut mac, message);
    hmac::Mac::finalize(mac).into_bytes().into()
}

// Authenticated encryption.

/// The longest plaintext that AES-GCM takes, in bytes.
pub open spec fn longest_plaintext() -> int {
    0x10_0000_0000
}

/// The ciphertext of AES-256-GCM, with the tag behind it.
pub uninterp spec fn aes256gcm_seal(key: Seq<u8>, nonce: Seq<u8>, plaintext: Seq<u8>) -> Seq<u8>;

/// What AES-256-GCM gives back for a ciphertext, or `None` where the tag does
/// not match.
pub uninterp spec fn aes256gcm_open(
    key: Seq<u8>,
    nonce: Seq<u8>,
    ciphertext: Seq<u8>,
) -> Option<Seq<u8>>;

/// The error of `aes_gcm`.
#[verifier::external_type_specification]
#[verifier::external_body]
pub struct ExAesError(aes_gcm::Error);

/// Calls the `Display` of `aes_gcm::Error`, which has one text.
#[verifier::external_body]
pub(crate) fn aes_error_text(error: aes_gcm::Error) -> (result: String)
    ensures
        result@ == "aead::Error"@,
{
    error.to_string()
}

/// Calls `aes_gcm::Aes256Gcm::encrypt` without associated data. It fails on a
/// plaintext that is too long and on nothing else; the result is as long as the
/// plaintext and a tag of 16 bytes, and opens under the same key and nonce to
/// the plaintext. A nonce has 12 bytes: the call panics on another length.
#[verifier::external_body]
pub(crate) fn seal(key: &[u8; 32], nonce: &[u8], plaintext: &[u8]) -> (result: Result<
    Vec<u8>,
    aes_gcm::Error,
>)
    requires
        nonce@.len() == 12,
    ensures
        result is Ok <==> plaintext@.len() <= longest_plaintext(),
        result is Ok ==> result->Ok_0@ == aes256gcm_seal(key@, nonce@, plaintext@),
        result is Ok ==> result->Ok_0@.len() == plaintext@.len() + 16,
        result is Ok ==> aes256gcm_open(key@, nonce@, result->Ok_0@) == Some(plaintext@),
{
    let cipher = aes_gcm::Aes256Gcm::new(aes_gcm::Key::<aes_gcm::Aes256Gcm>::from_slice(key));
    cipher.encrypt(aes_gcm::Nonce::from_slice(nonce), plaintext)
}

/// Calls `aes_gcm::Aes256Gcm::decrypt` without associated data: the plaintext,
/// or an error where the tag does not match or the input is too short or too
/// long to be a ciphertext. A nonce has 12 bytes: the call panics on another
/// length.
#[verifier::external_body]
pub(crate) fn open(key: &[u8; 32], nonce: &[u8], ciphertext: &[u8]) -> (result: Result<
    Vec<u8>,
    aes_gcm::Error,
>)
    requires
        nonce@.len() == 12,
    ensures
        result is Ok <==> aes256gcm_open(key@, nonce@, ciphertext@) is Some,
        result is Ok ==> aes256gcm_open(key@, nonce@, ciphertext@) == Some(result->Ok_0@),
{
    let cipher = aes_gcm::Aes256Gcm::new(aes_gcm::Key::<aes_gcm::Aes256Gcm>::from_slice(key));
    cipher.decrypt(aes_gcm::Nonce::from_slice(nonce), ciphertext)
}

// Randomness.

/// Calls `rand::rngs::OsRng::fill_bytes`: bytes that the operating system drew.
/// Any bytes may come; where the system has none to give, the call panics.
#[verifier::external_body]
pub(crate) fn random_bytes(count: usize) -> (result: Vec<u8>)
    ensures
        result@.len() == count,
{
    let mut bytes = vec![0u8; count];
    rand::rngs::OsRng.fill_bytes(&mut bytes);
    bytes
}

// Hexadecimal.

/// Each byte as two hexadecimal digits in lower case.
pub open spec fn hex_text(bytes: Seq<u8>) -> Seq<char> {
    Seq::new(
        2 * bytes.len(),
        |i: int|
            digit_char(
                if i % 2 == 0 {
                    bytes[i / 2] as int / 16
                } else {
                    bytes[i / 2] as int % 16
                },
            ),
    )
}

/// Calls `hex::encode`: two lower-case digits for each byte.
#[verifier::external_body]
pub(crate) fn hex_encode(bytes: &[u8]) -> (result: String)
    ensures
        result@ == hex_text(bytes@),
{
    hex::encode(bytes)
}

/// The value of a hexadecimal digit of either case.
pub open spec fn hex_value(c: char) -> Option<int> {
    let code = c as int;
    if 48 <= code <= 57 {
        Some(code - 48)
    } else if 65 <= code <= 70 {
        Some(code - 55)
    } else if 97 <= code <= 102 {
        Some(code - 87)
    } else {
        None
    }
}

/// An even number of hexadecimal digits.
pub open spec fn is_hex_text(text: Seq<char>) -> bool {
    &&& text.len() % 2 == 0
    &&& forall|i: int| 0 <= i < text.len() ==> hex_value(#[trigger] text[i]) is Some
}

/// The bytes that hexadecimal digits stand for, two digits a byte.
pub open spec fn hex_bytes(text: Seq<char>) -> Seq<u8> {
    Seq::new(
        text.len() / 2,
        |i: int| (16 * hex_value(text[2 * i])->0 + hex_value(text[2 * i + 1])->0) as u8,
    )
}

/// What `hex::decode` says of a text that it refuses.
pub uninterp spec fn hex_fault(text: Seq<char>) -> Seq<char>;

/// Calls `hex::decode`: the bytes that an even number of hexadecimal digits of
/// either case stands for, and for every other text an error, of which the text
/// is handed on.
#[verifier::external_body]
pub(crate) fn hex_decode(text: &str) -> (result: Result<Vec<u8>, String>)
    ensures
        result is Ok <==> is_hex_text(text@),
        result is Ok ==> result->Ok_0@ == hex_bytes(text@),
        result is Err ==> result->Err_0@ == hex_fault(text@),
{
    match hex::decode(text) {
        Ok(bytes) => Ok(bytes),
        Err(error) => Err(error.to_string()),
    }
}

/// Hexadecimal digits that were written for some bytes are read as those bytes.
pub proof fn hex_round_trip(bytes: Seq<u8>)
    ensures
        is_hex_text(hex_text(bytes)),
        hex_bytes(hex_text(bytes)) == bytes,
{
    let text = hex_text(bytes);
    assert forall|i: int| 0 <= i < text.len() implies hex_value(#[trigger] text[i]) is Some by {
        let high = bytes[i / 2] as int / 16;
        let low = bytes[i / 2] as int % 16;
        assert(0 <= high < 16 && 0 <= low < 16);
    }
    assert forall|i: int| 0 <= i < bytes.len() implies hex_bytes(text)[i] == bytes[i] by {
        let high = bytes[i] as int / 16;
        let low = bytes[i] as int % 16;
        assert(0 <= high < 16 && 0 <= low < 16);
        assert((2 * i) / 2 == i && (2 * i) % 2 == 0);
        assert((2 * i + 1) / 2 == i && (2 * i + 1) % 2 == 1);
        assert(text[2 * i] == digit_char(high));
        assert(text[2 * i + 1] == digit_char(low));
    }
    assert(hex_bytes(text) == bytes);
}

// Base 64.

/// The characters of the URL-safe base 64 alphabet, in their order.
pub open spec fn base64url_char(value: int) -> char {
    if value < 26 {
        (65 + value) as char
    } else if value < 52 {
        (71 + value) as char
    } else if value < 62 {
        (value - 4) as char
    } else if value == 62 {
        '-'
    } else {
        '_'
    }
}

/// The byte at a position, and zero behind the end.
pub open spec fn byte_or_zero(bytes: Seq<u8>, i: int) -> int {
    if 0 <= i < bytes.len() {
        bytes[i] as int
    } else {
        0
    }
}

/// The six bits at a position of the bytes, where three bytes make four groups.
pub open spec fn six_bits(bytes: Seq<u8>, i: int) -> int {
    let first = 3 * (i / 4);
    if i % 4 == 0 {
        byte_or_zero(bytes, first) / 4
    } else if i % 4 == 1 {
        (byte_or_zero(bytes, first) % 4) * 16 + byte_or_zero(bytes, first + 1) / 16
    } else if i % 4 == 2 {
        (byte_or_zero(bytes, first + 1) % 16) * 4 + byte_or_zero(bytes, first + 2) / 64
    } else {
        byte_or_zero(bytes, first + 2) % 64
    }
}

/// URL-safe base 64 without padding.
pub open spec fn base64url_text(bytes: Seq<u8>) -> Seq<char> {
    Seq::new(((4 * bytes.len() + 2) / 3) as nat, |i: int| base64url_char(six_bits(bytes, i)))
}

/// Calls `base64::engine::general_purpose::URL_SAFE_NO_PAD.encode`: one
/// character of the URL-safe alphabet for each six bits, without padding. The
/// call panics on a length whose four thirds do not fit in `usize`.
#[verifier::external_body]
pub(crate) fn base64url_encode(bytes: &[u8]) -> (result: String)
    requires
        4 * bytes@.len() + 2 <= usize::MAX,
    ensures
        result@ == base64url_text(bytes@),
{
    base64::engine::general_purpose::URL_SAFE_NO_PAD.encode(bytes)
}

// Password hashes.

/// Whether a hash names, as its `p` parameter, a number of nine or more digits.
/// No such number is a degree of parallelism that Argon2 takes.
pub open spec fn names_huge_parallelism(hash: Seq<char>) -> bool {
    exists|i: int| #[trigger] huge_parallelism_at(hash, i)
}

/// `p=` and nine decimal digits at a position.
pub open spec fn huge_parallelism_at(hash: Seq<char>, i: int) -> bool {
    &&& 0 <= i
    &&& i + 11 <= hash.len()
    &&& hash[i] == 'p'
    &&& hash[i + 1] == '='
    &&& forall|j: int| i + 2 <= j < i + 11 ==> 48 <= #[trigger] hash[j] as int <= 57
}

/// Whether a secret is the one that a hash in PHC string format was made of.
pub uninterp spec fn argon2_accepts(secret: Seq<u8>, hash: Seq<char>) -> bool;

/// The Argon2id hash of a secret, in PHC string format, with the default
/// parameters and a salt in base 64; the text of the error where it cannot be
/// made.
pub uninterp spec fn argon2_hash(secret: Seq<u8>, salt: Seq<char>) -> Result<Seq<char>, Seq<char>>;

/// The error of `argon2` on password hashes.
#[verifier::external_type_specification]
#[verifier::external_body]
pub struct ExPasswordHashError(argon2::password_hash::Error);

/// Calls `argon2::PasswordHash::new` and `argon2::Argon2::verify_password`:
/// success exactly where the hash can be read and the secret is the one it was
/// made of. A `p` parameter from 2^29 on makes the call panic where arithmetic
/// is checked, and the memory that the hash names has to be there.
#[verifier::external_body]
pub(crate) fn verify_password(secret: &[u8], hash: &str) -> (result: Result<
    (),
    argon2::password_hash::Error,
>)
    requires
        !names_huge_parallelism(hash@),
    ensures
        result is Ok <==> argon2_accepts(secret@, hash@),
{
    let parsed = argon2::PasswordHash::new(hash)?;
    argon2::Argon2::default().verify_password(secret, &parsed)
}

/// The value of a character of the base 64 alphabet with `+` and `/`.
pub open spec fn base64_value(c: char) -> Option<int> {
    let code = c as int;
    if 65 <= code <= 90 {
        Some(code - 65)
    } else if 97 <= code <= 122 {
        Some(code - 71)
    } else if 48 <= code <= 57 {
        Some(code + 4)
    } else if c == '+' {
        Some(62)
    } else if c == '/' {
        Some(63)
    } else {
        None
    }
}

/// Sixteen bytes in base 64, without padding: 22 characters, the last of which
/// stands for two bits and four zeros.
pub open spec fn is_full_salt(salt: Seq<char>) -> bool {
    &&& salt.len() == 22
    &&& forall|i: int| 0 <= i < 22 ==> base64_value(#[trigger] salt[i]) is Some
    &&& base64_value(salt[21])->0 % 16 == 0
}

/// The longest secret that Argon2 takes, in bytes.
pub open spec fn longest_secret() -> int {
    0xffff_ffff
}

/// Calls `argon2::password_hash::SaltString::generate` with the operating
/// system's generator: sixteen random bytes in base 64. Where the system has
/// none to give, the call panics.
#[verifier::external_body]
pub(crate) fn random_salt() -> (result: String)
    ensures
        is_full_salt(result@),
{
    argon2::password_hash::SaltString::generate(&mut rand::rngs::OsRng).as_str().to_owned()
}

/// Calls `argon2::Argon2::hash_password` with the default parameters: a hash
/// that accepts the secret, and whose `p` parameter is 1, or the text of the
/// error. With a salt of sixteen bytes it fails on a secret that is too long and
/// on nothing else.
#[verifier::external_body]
pub(crate) fn hash_password(secret: &[u8], salt: &str) -> (result: Result<String, String>)
    ensures
        result is Ok <==> argon2_hash(secret@, salt@) is Ok,
        result is Ok ==> argon2_hash(secret@, salt@)->Ok_0 == result->Ok_0@,
        result is Err ==> argon2_hash(secret@, salt@)->Err_0 == result->Err_0@,
        result is Ok ==> argon2_accepts(secret@, result->Ok_0@),
        result is Ok ==> !names_huge_parallelism(result->Ok_0@),
        is_full_salt(salt@) ==> (result is Ok <==> secret@.len() <= longest_secret()),
{
    let salt = match argon2::password_hash::Salt::from_b64(salt) {
        Ok(salt) => salt,
        Err(error) => return Err(error.to_string()),
    };
    match argon2::Argon2::default().hash_password(secret, salt) {
        Ok(hash) => Ok(hash.to_string()),
        Err(error) => Err(error.to_string()),
    }
}

}
