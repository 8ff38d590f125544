//! API keys: how a request names its key, and which business a key stands for.
//!
//! A key is `dodo_<prefix>_<secret>`. The prefix is stored as it is; of the
//! secret only a password hash is stored.
use vstd::prelude::*;
use vstd::string::*;
use vstd::utf8::*;

use crate::crypto::{
    argon2_accepts, argon2_hash, hash_password, huge_parallelism_at, is_full_salt, longest_secret,
    names_huge_parallelism, random_salt, verify_password,
};
use crate::error::{client_error, ApiError, ErrorView};
use crate::http::UNAUTHORIZED;
use crate::ids::Uuid;
use crate::text::{after_prefix, opt_str, split_at_first, split_once, strip_prefix};

verus! {

/// The business that a request is for.
#[derive(Clone, Copy, Debug, PartialEq, Eq, Structural)]
pub struct BusinessAuth {
    pub id: Uuid,
}

/// The error for a request without a key.
pub open spec fn missing_key_view() -> ErrorView {
    client_error(
        UNAUTHORIZED,
        "missing_api_key"@,
        "Authorization: Bearer <key> is required"@,
    )
}

/// The error for a key that is not a bearer token.
pub open spec fn no_bearer_view() -> ErrorView {
    client_error(UNAUTHORIZED, "invalid_api_key"@, "use a Bearer API key"@)
}

/// The error for a key that does not have the form of one.
pub open spec fn key_format_view() -> ErrorView {
    client_error(UNAUTHORIZED, "invalid_api_key"@, "invalid key format"@)
}

/// The error for a key that stands for no business.
pub open spec fn invalid_key_view() -> ErrorView {
    client_error(UNAUTHORIZED, "invalid_api_key"@, "invalid or revoked API key"@)
}

/// The prefix and the secret of a key: what follows `dodo_`, before and after
/// the first `_`.
pub open spec fn key_parts(key: Seq<char>) -> Option<(Seq<char>, Seq<char>)> {
    match after_prefix(key, "dodo_"@) {
        Some(body) => split_at_first(body, '_'),
        None => None,
    }
}

/// The prefix and the secret of the key that a request names in its
/// authorization header.
pub open spec fn named_key(header: Option<Seq<char>>) -> Result<
    (Seq<char>, Seq<char>),
    ErrorView,
> {
    match header {
        None => Err(missing_key_view()),
        Some(header) => match after_prefix(header, "Bearer "@) {
            None => Err(no_bearer_view()),
            Some(key) => match key_parts(key) {
                None => Err(key_format_view()),
                Some(parts) => Ok(parts),
            },
        },
    }
}

/// The prefix and the secret of a key.
pub fn split_key(key: &str) -> (result: Option<(&str, &str)>)
    ensures
        match result {
            Some(parts) => key_parts(key@) == Some((parts.0@, parts.1@)),
            None => key_parts(key@) is None,
        },
{
    match strip_prefix(key, "dodo_") {
        Some(body) => split_once(body, '_'),
        None => None,
    }
}

/// The prefix and the secret of the key that a request names in its
/// authorization header.
pub fn parse_authorization(header: Option<&str>) -> (result: Result<(&str, &str), ApiError>)
    ensures
        match result {
            Ok(parts) => named_key(opt_str(header)) == Ok::<(Seq<char>, Seq<char>), ErrorView>(
                (parts.0@, parts.1@),
            ),
            Err(error) => named_key(opt_str(header)) == Err::<(Seq<char>, Seq<char>), ErrorView>(
                error@,
            ),
        },
{
    let header = match header {
        Some(header) => header,
        None => return Err(
            ApiError::client(
                UNAUTHORIZED,
                "missing_api_key",
                "Authorization: Bearer <key> is required",
            ),
        ),
    };
    let key = match strip_prefix(header, "Bearer ") {
        Some(key) => key,
        None => return Err(
            ApiError::client(UNAUTHORIZED, "invalid_api_key", "use a Bearer API key"),
        ),
    };
    match split_key(key) {
        Some(parts) => Ok(parts),
        None => Err(ApiError::client(UNAUTHORIZED, "invalid_api_key", "invalid key format")),
    }
}

/// The row of a key that is not revoked.
#[derive(Debug)]
pub struct KeyRow {
    pub business_id: Uuid,
    pub secret_hash: String,
}

/// What a row of a key says.
pub struct KeyRowView {
    pub business_id: Uuid,
    pub secret_hash: Seq<char>,
}

impl View for KeyRow {
    type V = KeyRowView;

    open spec fn view(&self) -> KeyRowView {
        KeyRowView { business_id: self.business_id, secret_hash: self.secret_hash@ }
    }
}

/// The view of an optional row.
pub open spec fn opt_key_row(row: Option<KeyRow>) -> Option<KeyRowView> {
    match row {
        Some(row) => Some(row@),
        None => None,
    }
}

/// Whether a stored hash is accepted for a secret.
pub open spec fn secret_matches(secret: Seq<char>, hash: Seq<char>) -> bool {
    !names_huge_parallelism(hash) && argon2_accepts(encode_utf8(secret), hash)
}

/// The business that a row stands for, where its hash was accepted.
pub open spec fn granted(row: Option<KeyRowView>, accepted: bool) -> Result<
    BusinessAuth,
    ErrorView,
> {
    match row {
        Some(row) if accepted => Ok(BusinessAuth { id: row.business_id }),
        _ => Err(invalid_key_view()),
    }
}

/// The view of a business or an error.
pub open spec fn auth_view(result: Result<BusinessAuth, ApiError>) -> Result<
    BusinessAuth,
    ErrorView,
> {
    match result {
        Ok(auth) => Ok(auth),
        Err(error) => Err(error@),
    }
}

/// The business that a row stands for, where its hash was accepted.
pub fn grant(row: Option<KeyRow>, accepted: bool) -> (result: Result<BusinessAuth, ApiError>)
    ensures
        auth_view(result) == granted(opt_key_row(row), accepted),
{
    match row {
        Some(row) if accepted => Ok(BusinessAuth { id: row.business_id }),
        _ => Err(ApiError::client(UNAUTHORIZED, "invalid_api_key", "invalid or revoked API key")),
    }
}

/// Whether `p=` and nine decimal digits stand at a position.
fn is_huge_parallelism_at(hash: &str, at: usize, length: usize) -> (result: bool)
    requires
        length == hash@.len(),
        at < length,
    ensures
        result == huge_parallelism_at(hash@, at as int),
{
    if length - at < 11 || hash.get_char(at) != 'p' || hash.get_char(at + 1) != '=' {
        return false;
    }
    for j in at + 2..at + 11
        invariant
            length == hash@.len(),
            at + 11 <= length,
            forall|k: int| at + 2 <= k < j ==> 48 <= #[trigger] hash@[k] as int <= 57,
    {
        let digit = hash.get_char(j);
        if !('0' <= digit && digit <= '9') {
            assert(!(48 <= hash@[j as int] as int <= 57));
            return false;
        }
    }
    true
}

/// Whether a hash names a degree of parallelism that no hash can have.
fn has_huge_parallelism(hash: &str) -> (result: bool)
    ensures
        result == names_huge_parallelism(hash@),
{
    let length: usize = hash.unicode_len();
    for at in 0..length
        invariant
            length == hash@.len(),
            forall|i: int| 0 <= i < at ==> !#[trigger] huge_parallelism_at(hash@, i),
    {
        if is_huge_parallelism_at(hash, at, length) {
            return true;
        }
    }
    false
}

/// The business that a key stands for, by the row of its prefix: the row's hash
/// has to be that of the key's secret. A hash that cannot be read is accepted
/// for no secret.
pub fn authenticate(secret: &str, row: Option<KeyRow>) -> (result: Result<BusinessAuth, ApiError>)
    ensures
        auth_view(result) == granted(
            opt_key_row(row),
            row matches Some(row) && secret_matches(secret@, row.secret_hash@),
        ),
{
    let accepted = match &row {
        None => false,
        Some(row) => {
            let hash = row.secret_hash.as_str();
            if has_huge_parallelism(hash) {
                false
            } else {
                match verify_password(secret.as_bytes(), hash) {
                    Ok(_) => true,
                    Err(_) => false,
                }
            }
        },
    };
    grant(row, accepted)
}

// The key of the demo business.

/// The error for a key that cannot be seeded.
pub open spec fn seed_format_error() -> Seq<char> {
    "DEV_API_KEY must look like dodo_<prefix>_<secret>"@
}

/// The prefix and the secret of a key that is to be seeded.
pub fn parse_seed_key(api_key: &str) -> (result: Result<(&str, &str), String>)
    ensures
        match result {
            Ok(parts) => key_parts(api_key@) == Some((parts.0@, parts.1@)),
            Err(error) => key_parts(api_key@) is None && error@ == seed_format_error(),
        },
{
    match split_key(api_key) {
        Some(parts) => Ok(parts),
        None => Err("DEV_API_KEY must look like dodo_<prefix>_<secret>".to_owned()),
    }
}

/// Hashes a secret with a given salt. The hash is accepted for the secret.
pub fn hash_secret_with(secret: &str, salt: &str) -> (result: Result<String, String>)
    ensures
        match result {
            Ok(hash) => {
                &&& argon2_hash(encode_utf8(secret@), salt@) == Ok::<Seq<char>, Seq<char>>(hash@)
                &&& secret_matches(secret@, hash@)
            },
            Err(error) => argon2_hash(encode_utf8(secret@), salt@) == Err::<
                Seq<char>,
                Seq<char>,
            >(error@),
        },
        is_full_salt(salt@) ==> (result is Ok <==> encode_utf8(secret@).len() <= longest_secret()),
{
    hash_password(secret.as_bytes(), salt)
}

/// Hashes a secret with a random salt. The hash is accepted for the secret.
pub fn hash_secret(secret: &str) -> (result: Result<String, String>)
    ensures
        match result {
            Ok(hash) => {
                &&& encode_utf8(secret@).len() <= longest_secret()
                &&& exists|salt: Seq<char>|
                    is_full_salt(salt) && #[trigger] argon2_hash(encode_utf8(secret@), salt)
                        == Ok::<Seq<char>, Seq<char>>(hash@)
                &&& secret_matches(secret@, hash@)
            },
            Err(error) => {
                &&& encode_utf8(secret@).len() > longest_secret()
                &&& exists|salt: Seq<char>|
                    is_full_salt(salt) && #[trigger] argon2_hash(encode_utf8(secret@), salt)
                        == Err::<Seq<char>, Seq<char>>(error@)
            },
        },
{
    let salt = random_salt();
    hash_secret_with(secret, salt.as_str())
}

/// A key in a bearer header is read as its prefix and its secret, and a key
/// without the form of one is refused for its format.
pub proof fn bearer_header_names_its_key(key: Seq<char>)
    ensures
        named_key(Some("Bearer "@ + key)) == match key_parts(key) {
            Some(parts) => Ok::<(Seq<char>, Seq<char>), ErrorView>(parts),
            None => Err(key_format_view()),
        },
{
    let header = "Bearer "@ + key;
    assert(header.subrange(0, "Bearer "@.len() as int) == "Bearer "@);
    assert(header.subrange("Bearer "@.len() as int, header.len() as int) == key);
}

/// The prefix and the secret make up the key, and there is no `_` in the
/// prefix: two keys with the same parts are the same key.
pub proof fn key_parts_make_up_the_key(key: Seq<char>)
    requires
        key_parts(key) is Some,
    ensures
        key_parts(key) matches Some((prefix, secret)) && key == "dodo_"@ + prefix + seq!['_']
            + secret && !prefix.contains('_'),
{
    let body = after_prefix(key, "dodo_"@)->0;
    crate::text::first_position_is_first(body, '_');
    assert(key == "dodo_"@ + body);
    let (prefix, secret) = key_parts(key)->0;
    assert(body == prefix + seq!['_'] + secret);
    assert(key == "dodo_"@ + prefix + seq!['_'] + secret);
}

// The businesses and their keys.

/// A stored key.
pub struct KeyEntry {
    pub business_id: Uuid,
    pub secret_hash: Seq<char>,
    pub revoked: bool,
}

/// The businesses by their names, and the keys by their prefixes.
pub struct Accounts {
    pub businesses: Map<Uuid, Seq<char>>,
    pub keys: Map<Seq<char>, KeyEntry>,
}

impl Accounts {
    /// Whether a business is the demo business.
    pub open spec fn is_demo(self, business_id: Uuid) -> bool {
        self.businesses.contains_key(business_id) && self.businesses[business_id]
            == "Demo Business"@
    }

    /// The demo business, where there is one.
    pub open spec fn demo(self) -> Option<Uuid> {
        if exists|id: Uuid| self.is_demo(id) {
            Some(choose|id: Uuid| self.is_demo(id))
        } else {
            None
        }
    }

    /// There is one demo business at most.
    pub open spec fn well_formed(self) -> bool {
        forall|a: Uuid, b: Uuid| #[trigger] self.is_demo(a) && #[trigger] self.is_demo(b) ==> a == b
    }

    /// The row of the key with a prefix, where there is one that is not revoked.
    pub open spec fn key_row(self, prefix: Seq<char>) -> Option<KeyRowView> {
        if self.keys.contains_key(prefix) && !self.keys[prefix].revoked {
            Some(
                KeyRowView {
                    business_id: self.keys[prefix].business_id,
                    secret_hash: self.keys[prefix].secret_hash,
                },
            )
        } else {
            None
        }
    }
}

/// The accounts after a key was seeded, where `secret_hash` is the hash of its
/// secret and `fresh` the id of a new business: the demo business has the key,
/// which is not revoked. A key without the form of one changes nothing.
pub open spec fn seeded(
    accounts: Accounts,
    api_key: Seq<char>,
    secret_hash: Seq<char>,
    fresh: Uuid,
) -> (Accounts, Result<Uuid, Seq<char>>) {
    match key_parts(api_key) {
        None => (accounts, Err(seed_format_error())),
        Some((prefix, _)) => {
            let (business_id, businesses) = match accounts.demo() {
                Some(id) => (id, accounts.businesses),
                None => (fresh, accounts.businesses.insert(fresh, "Demo Business"@)),
            };
            let entry = KeyEntry { business_id, secret_hash, revoked: false };
            (Accounts { businesses, keys: accounts.keys.insert(prefix, entry) }, Ok(business_id))
        },
    }
}

/// The business that a request with an authorization header is for.
pub open spec fn authenticated(accounts: Accounts, header: Option<Seq<char>>) -> Result<
    BusinessAuth,
    ErrorView,
> {
    match named_key(header) {
        Err(error) => Err(error),
        Ok((prefix, secret)) => {
            let row = accounts.key_row(prefix);
            granted(row, row matches Some(row) && secret_matches(secret, row.secret_hash))
        },
    }
}

proof fn demo_business_is_there(
    accounts: Accounts,
    api_key: Seq<char>,
    secret_hash: Seq<char>,
    fresh: Uuid,
)
    requires
        accounts.well_formed(),
    ensures
        ({
            let (after, result) = seeded(accounts, api_key, secret_hash, fresh);
            &&& after.well_formed()
            &&& result matches Ok(business_id) ==> after.is_demo(business_id)
        }),
{
    let (after, result) = seeded(accounts, api_key, secret_hash, fresh);
    if key_parts(api_key) is Some {
        assert forall|a: Uuid, b: Uuid| #[trigger] after.is_demo(a) && #[trigger] after.is_demo(
            b,
        ) implies a == b by {
            assert(a != fresh ==> accounts.is_demo(a) == after.is_demo(a));
            assert(b != fresh ==> accounts.is_demo(b) == after.is_demo(b));
            assert(accounts.is_demo(fresh) ==> after.is_demo(fresh));
        }
        if accounts.demo() is Some {
            let id = choose|id: Uuid| accounts.is_demo(id);
            assert(accounts.is_demo(id));
            assert(after.is_demo(id));
        } else {
            assert(after.is_demo(fresh));
        }
    }
}

/// A key is seeded exactly where it has the form of one, and otherwise nothing
/// is written. A seeded key authenticates as the demo business, whatever was
/// stored under its prefix before, be it revoked or not.
pub proof fn seeded_key_authenticates(
    accounts: Accounts,
    api_key: Seq<char>,
    secret_hash: Seq<char>,
    fresh: Uuid,
)
    requires
        accounts.well_formed(),
        key_parts(api_key) matches Some((_, secret)) ==> secret_matches(secret, secret_hash),
    ensures
        ({
            let (after, result) = seeded(accounts, api_key, secret_hash, fresh);
            &&& after.well_formed()
            &&& match key_parts(api_key) {
                None => after == accounts && result == Err::<Uuid, Seq<char>>(seed_format_error()),
                Some(_) => result matches Ok(business_id) && after.is_demo(business_id)
                    && authenticated(after, Some("Bearer "@ + api_key)) == Ok::<
                    BusinessAuth,
                    ErrorView,
                >(BusinessAuth { id: business_id }),
            }
        }),
{
    bearer_header_names_its_key(api_key);
    demo_business_is_there(accounts, api_key, secret_hash, fresh);
}

/// Seeding a key again adds no business and no key: the demo business stays the
/// same, and of the keys only the row of this one changes, to the new hash.
pub proof fn seeding_again_adds_nothing(
    accounts: Accounts,
    api_key: Seq<char>,
    secret_hash: Seq<char>,
    fresh: Uuid,
    other_hash: Seq<char>,
    other_fresh: Uuid,
)
    requires
        accounts.well_formed(),
    ensures
        ({
            let (once, first) = seeded(accounts, api_key, secret_hash, fresh);
            let (twice, second) = seeded(once, api_key, other_hash, other_fresh);
            &&& twice.businesses == once.businesses
            &&& twice.keys.dom() == once.keys.dom()
            &&& second == first
            &&& forall|prefix: Seq<char>|
                (key_parts(api_key) matches Some((own, _)) ==> prefix != own)
                    ==> #[trigger] twice.key_row(prefix) == once.key_row(prefix)
        }),
{
    demo_business_is_there(accounts, api_key, secret_hash, fresh);
    let (once, first) = seeded(accounts, api_key, secret_hash, fresh);
    let twice = seeded(once, api_key, other_hash, other_fresh).0;
    if let Ok(business_id) = first {
        assert(once.is_demo(business_id));
        assert(once.demo() == Some(business_id));
    }
    assert(twice.keys.dom() == once.keys.dom());
}

/// A revoked key does not authenticate, and seeding it lifts the revocation.
pub proof fn seeding_lifts_a_revocation(
    accounts: Accounts,
    api_key: Seq<char>,
    secret_hash: Seq<char>,
    fresh: Uuid,
)
    requires
        accounts.well_formed(),
        key_parts(api_key) matches Some((prefix, secret)) && accounts.keys.contains_key(prefix)
            && accounts.keys[prefix].revoked && secret_matches(secret, secret_hash),
    ensures
        authenticated(accounts, Some("Bearer "@ + api_key)) == Err::<BusinessAuth, ErrorView>(
            invalid_key_view(),
        ),
        authenticated(
            seeded(accounts, api_key, secret_hash, fresh).0,
            Some("Bearer "@ + api_key),
        ) is Ok,
        seeded(accounts, api_key, secret_hash, fresh).0.keys.dom() == accounts.keys.dom(),
{
    bearer_header_names_its_key(api_key);
    seeded_key_authenticates(accounts, api_key, secret_hash, fresh);
    assert(seeded(accounts, api_key, secret_hash, fresh).0.keys.dom() == accounts.keys.dom());
}

}
