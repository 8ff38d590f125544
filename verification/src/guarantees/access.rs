//! Access: which key a request names, and whose it is.
use vstd::prelude::*;
use vstd::utf8::encode_utf8;

use crate::auth::{
    authenticate, grant, hash_secret, hash_secret_with, key_parts, key_parts_make_up_the_key,
    parse_authorization, parse_seed_key, split_key, BusinessAuth, KeyRow,
};
use crate::crypto::{argon2_accepts, argon2_hash, huge_parallelism_at, is_full_salt};
use crate::error::ApiError;
use crate::guarantees::answers::tells;
use crate::text::{after_prefix, first_position_is_first};

verus! {

/// Whether a key is made of a prefix without `_` and a secret.
pub open spec fn is_made_of(key: Seq<char>, prefix: Seq<char>, secret: Seq<char>) -> bool {
    key == "dodo_"@ + prefix + "_"@ + secret && !prefix.contains('_')
}

/// Whether a text has the form of a key.
pub open spec fn has_key_form(key: Seq<char>) -> bool {
    exists|prefix: Seq<char>, secret: Seq<char>| #[trigger] is_made_of(key, prefix, secret)
}

proof fn parts_are_the_key_s(key: Seq<char>)
    ensures
        match key_parts(key) {
            Some((prefix, secret)) => is_made_of(key, prefix, secret),
            None => !has_key_form(key),
        },
{
    reveal_strlit("_");
    reveal_strlit("dodo_");
    assert("_"@ == seq!['_']);
    if key_parts(key) is Some {
        key_parts_make_up_the_key(key);
    } else if has_key_form(key) {
        let (prefix, secret) = choose|prefix: Seq<char>, secret: Seq<char>| #[trigger]
            is_made_of(key, prefix, secret);
        let body = prefix + seq!['_'] + secret;
        assert(key.subrange(0, 5) == "dodo_"@);
        assert("dodo_"@.is_prefix_of(key));
        assert(key.subrange(5, key.len() as int) == body);
        assert(after_prefix(key, "dodo_"@) == Some(body));
        first_position_is_first(body, '_');
        assert(body[prefix.len() as int] == '_');
    }
}

/// A key is split into its prefix and its secret, exactly where it has the form of
/// one; and there is one way to do so.
pub proof fn key_is_split_at_its_prefix(
    key: &str,
    result: Option<(&str, &str)>,
    prefix: Seq<char>,
    secret: Seq<char>,
)
    requires
        call_ensures(split_key, (key,), result),
    ensures
        match result {
            Some(parts) => is_made_of(key@, parts.0@, parts.1@),
            None => !has_key_form(key@),
        },
        is_made_of(key@, prefix, secret) ==> (result matches Some(parts) && parts.0@ == prefix
            && parts.1@ == secret),
{
    parts_are_the_key_s(key@);
    if is_made_of(key@, prefix, secret) {
        assert(has_key_form(key@));
        let parts = result->Some_0;
        key_is_made_in_one_way(key@, parts.0@, parts.1@, prefix, secret);
    }
}

proof fn key_is_made_in_one_way(
    key: Seq<char>,
    prefix_a: Seq<char>,
    secret_a: Seq<char>,
    prefix_b: Seq<char>,
    secret_b: Seq<char>,
)
    requires
        is_made_of(key, prefix_a, secret_a),
        is_made_of(key, prefix_b, secret_b),
    ensures
        prefix_a == prefix_b,
        secret_a == secret_b,
{
    reveal_strlit("_");
    reveal_strlit("dodo_");
    let (n, m) = (prefix_a.len() as int, prefix_b.len() as int);
    assert(key[5 + n] == '_');
    assert(key[5 + m] == '_');
    if n < m {
        assert(key[5 + n] == prefix_b[n]);
    }
    if m < n {
        assert(key[5 + m] == prefix_a[m]);
    }
    assert(key.subrange(5, 5 + n) == prefix_a);
    assert(key.subrange(5, 5 + m) == prefix_b);
    assert(key.subrange(6 + n, key.len() as int) == secret_a);
    assert(key.subrange(6 + m, key.len() as int) == secret_b);
}

/// A request names a key exactly where its header is `Bearer`, a space and a key;
/// and each other header has its own refusal.
pub proof fn header_names_the_key_it_holds(
    header: Option<&str>,
    result: Result<(&str, &str), ApiError>,
)
    requires
        call_ensures(parse_authorization, (header,), result),
    ensures
        match (header, result) {
            (None, result) => result matches Err(error) && tells(
                error,
                401,
                "missing_api_key"@,
                "Authorization: Bearer <key> is required"@,
            ),
            (Some(header), Ok(parts)) => {
                &&& "Bearer "@.is_prefix_of(header@)
                &&& is_made_of(header@.skip(7), parts.0@, parts.1@)
            },
            (Some(header), Err(error)) => {
                ||| !"Bearer "@.is_prefix_of(header@) && tells(
                    error,
                    401,
                    "invalid_api_key"@,
                    "use a Bearer API key"@,
                )
                ||| "Bearer "@.is_prefix_of(header@) && !has_key_form(header@.skip(7)) && tells(
                    error,
                    401,
                    "invalid_api_key"@,
                    "invalid key format"@,
                )
            },
        },
{
    reveal_strlit("Bearer ");
    if let Some(header) = header {
        if "Bearer "@.is_prefix_of(header@) {
            let key = header@.subrange(7, header@.len() as int);
            assert(header@.skip(7) == key);
            parts_are_the_key_s(key);
        }
    }
}

/// A key that is to be seeded has the form of one, or is refused for it.
pub proof fn seed_key_has_the_form(api_key: &str, result: Result<(&str, &str), String>)
    requires
        call_ensures(parse_seed_key, (api_key,), result),
    ensures
        match result {
            Ok(parts) => is_made_of(api_key@, parts.0@, parts.1@),
            Err(error) => !has_key_form(api_key@) && error@
                == "DEV_API_KEY must look like dodo_<prefix>_<secret>"@,
        },
{
    parts_are_the_key_s(api_key@);
}

/// Whether access is denied, without a word of why.
pub open spec fn is_denied(result: Result<BusinessAuth, ApiError>) -> bool {
    result matches Err(error) && tells(
        error,
        401,
        "invalid_api_key"@,
        "invalid or revoked API key"@,
    )
}

/// A row whose hash was accepted stands for its own business; no row, and one
/// whose hash was not accepted, for none.
pub proof fn accepted_row_grants_its_business(
    row: Option<KeyRow>,
    accepted: bool,
    result: Result<BusinessAuth, ApiError>,
)
    requires
        call_ensures(grant, (row, accepted), result),
    ensures
        match row {
            Some(row) if accepted => result matches Ok(auth) && auth.id == row.business_id,
            _ => is_denied(result),
        },
{
}

/// Whether a hash asks for more lanes than there can be: `p=` and at least nine
/// digits.
pub open spec fn asks_for_too_many_lanes(hash: Seq<char>) -> bool {
    exists|i: int|
        0 <= i && i + 11 <= hash.len() && #[trigger] hash[i] == 'p' && hash[i + 1] == '='
            && forall|j: int| 2 <= j < 11 ==> '0' <= #[trigger] hash[i + j] <= '9'
}

proof fn too_many_lanes(hash: Seq<char>)
    ensures
        asks_for_too_many_lanes(hash) <==> crate::crypto::names_huge_parallelism(hash),
{
    if asks_for_too_many_lanes(hash) {
        let i = choose|i: int|
            0 <= i && i + 11 <= hash.len() && #[trigger] hash[i] == 'p' && hash[i + 1] == '='
                && forall|j: int| 2 <= j < 11 ==> '0' <= #[trigger] hash[i + j] <= '9';
        assert forall|j: int| i + 2 <= j < i + 11 implies 48 <= #[trigger] hash[j] as int
            <= 57 by {
            assert('0' <= hash[i + (j - i)] <= '9');
        }
        assert(huge_parallelism_at(hash, i));
    }
    if crate::crypto::names_huge_parallelism(hash) {
        let i = choose|i: int| #[trigger] huge_parallelism_at(hash, i);
        assert(hash[i] == 'p');
        assert forall|j: int| 2 <= j < 11 implies '0' <= #[trigger] hash[i + j] <= '9' by {
            assert(48 <= hash[i + j] as int <= 57);
        }
    }
}

/// A secret opens the business of a row exactly where the row's hash is one that
/// Argon2 accepts for it.
pub proof fn secret_opens_its_own_business(
    secret: &str,
    row: Option<KeyRow>,
    result: Result<BusinessAuth, ApiError>,
)
    requires
        call_ensures(authenticate, (secret, row), result),
    ensures
        match row {
            Some(row) => if argon2_accepts(encode_utf8(secret@), row.secret_hash@)
                && !asks_for_too_many_lanes(row.secret_hash@) {
                result matches Ok(auth) && auth.id == row.business_id
            } else {
                is_denied(result)
            },
            None => is_denied(result),
        },
{
    if let Some(row) = row {
        too_many_lanes(row.secret_hash@);
    }
}

/// A secret opens the business whose row holds its hash, however it was salted.
pub proof fn hashed_secret_opens(
    secret: &str,
    hash: String,
    row: KeyRow,
    result: Result<BusinessAuth, ApiError>,
)
    requires
        call_ensures(hash_secret, (secret,), Ok(hash)) || exists|salt: &str|
            call_ensures(hash_secret_with, (secret, salt), Ok(hash)),
        row.secret_hash@ == hash@,
        call_ensures(authenticate, (secret, Some(row)), result),
    ensures
        result matches Ok(auth) && auth.id == row.business_id,
{
}

/// A secret is hashed exactly where it has less than 4 GiB, with a salt of sixteen
/// bytes; the hash is that of Argon2.
pub proof fn secrets_are_hashed(
    secret: &str,
    salt: &str,
    salted: Result<String, String>,
    drawn: Result<String, String>,
)
    requires
        call_ensures(hash_secret_with, (secret, salt), salted),
        call_ensures(hash_secret, (secret,), drawn),
    ensures
        drawn is Ok <==> encode_utf8(secret@).len() <= 0xffff_ffff,
        is_full_salt(salt@) ==> (salted is Ok <==> encode_utf8(secret@).len() <= 0xffff_ffff),
        match (salted, argon2_hash(encode_utf8(secret@), salt@)) {
            (Ok(hash), Ok(named)) => hash@ == named,
            (Err(error), Err(named)) => error@ == named,
            _ => false,
        },
{
}

}
