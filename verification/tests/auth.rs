use std::collections::HashMap;

use invoice_service::auth::{
    authenticate, grant, hash_secret, hash_secret_with, parse_authorization, parse_seed_key,
    split_key, BusinessAuth, KeyRow,
};
use invoice_service::config::settings;
use invoice_service::error::ApiError;
use invoice_service::ids::Uuid;

const BUSINESS: Uuid = Uuid { bits: 42 };

fn row(secret_hash: &str) -> Option<KeyRow> {
    Some(KeyRow {
        business_id: BUSINESS,
        secret_hash: secret_hash.to_string(),
    })
}

fn refusal<T: std::fmt::Debug>(result: Result<T, ApiError>) -> (u16, &'static str, String) {
    match result {
        Err(ApiError::Client {
            status,
            code,
            message,
        }) => (status, code, message),
        other => panic!("not refused: {other:?}"),
    }
}

fn invalid() -> (u16, &'static str, String) {
    (
        401,
        "invalid_api_key",
        "invalid or revoked API key".to_string(),
    )
}

#[test]
fn authorization_headers() {
    assert_eq!(
        parse_authorization(Some("Bearer dodo_test_dev_secret_change_me")).unwrap(),
        ("test", "dev_secret_change_me")
    );
    assert_eq!(
        parse_authorization(Some("Bearer dodo__")).unwrap(),
        ("", "")
    );
    assert_eq!(
        refusal(parse_authorization(None)),
        (
            401,
            "missing_api_key",
            "Authorization: Bearer <key> is required".to_string()
        )
    );
    for header in ["", "Basic abc", "bearer dodo_a_b", "Bearer"] {
        assert_eq!(
            refusal(parse_authorization(Some(header))),
            (401, "invalid_api_key", "use a Bearer API key".to_string())
        );
    }
    for header in ["Bearer ", "Bearer xdodo_a_b", "Bearer dodo_ab"] {
        assert_eq!(
            refusal(parse_authorization(Some(header))),
            (401, "invalid_api_key", "invalid key format".to_string())
        );
    }
    assert_eq!(split_key("dodo_a_b_c"), Some(("a", "b_c")));
    assert_eq!(split_key("dodo"), None);
}

#[test]
fn seeded_key_authenticates() {
    let key = "dodo_test_dev_secret_change_me";
    let (seed_prefix, seed_secret) = parse_seed_key(key).unwrap();
    assert_eq!(seed_prefix, "test");
    let hash = hash_secret(seed_secret).unwrap();
    assert!(hash.starts_with("$argon2id$v=19$m=19456,t=2,p=1$"));
    let header = format!("Bearer {key}");
    let (prefix, secret) = parse_authorization(Some(&header)).unwrap();
    assert_eq!((prefix, secret), (seed_prefix, seed_secret));
    assert_eq!(
        authenticate(secret, row(&hash)).unwrap(),
        BusinessAuth { id: BUSINESS }
    );
    assert_eq!(refusal(authenticate("dev_secret", row(&hash))), invalid());
}

#[test]
fn seeding_again_lifts_a_revocation_and_adds_no_key() {
    let mut keys: HashMap<String, (u128, String, bool)> = HashMap::new();
    let key = "dodo_a_b";
    for _ in 0..2 {
        let (prefix, secret) = parse_seed_key(key).unwrap();
        let hash = hash_secret(secret).unwrap();
        keys.insert(prefix.to_string(), (BUSINESS.bits, hash, false));
        assert_eq!(keys.len(), 1);
        let stored = |keys: &HashMap<String, (u128, String, bool)>| {
            keys.get(prefix)
                .filter(|stored| !stored.2)
                .and_then(|stored| row(&stored.1))
        };
        assert_eq!(authenticate(secret, stored(&keys)).unwrap().id, BUSINESS);
        keys.get_mut(prefix).unwrap().2 = true;
        assert_eq!(refusal(authenticate(secret, stored(&keys))), invalid());
    }
}

#[test]
fn hashing_with_a_salt_is_repeatable() {
    let salt = "c2FsdHNhbHRzYWx0c2FsdA";
    let first = hash_secret_with("b", salt).unwrap();
    assert_eq!(hash_secret_with("b", salt).unwrap(), first);
    assert!(first.contains(salt));
    assert_ne!(hash_secret("b").unwrap(), hash_secret("b").unwrap());
    assert_eq!(
        hash_secret_with("b", "!").unwrap_err(),
        "salt invalid: value to short"
    );
    for key in ["", "dodo", "dodo_nothing", "xdodo_a_b"] {
        assert_eq!(
            parse_seed_key(key).unwrap_err(),
            "DEV_API_KEY must look like dodo_<prefix>_<secret>"
        );
    }
}

#[test]
fn unknown_and_unreadable_keys_are_refused() {
    assert_eq!(refusal(authenticate("s", None)), invalid());
    for hash in [
        "",
        "not a hash",
        "$argon2id$v=19$m=19456,t=2,p=1",
        "$argon2id$v=19$m=19456,t=2,p=536870912$c2FsdHNhbHRzYWx0$aGFzaGhhc2hoYXNo",
        "$argon2id$v=19$m=19456,t=2,p=4294967295$c2FsdHNhbHRzYWx0$aGFzaGhhc2hoYXNo",
    ] {
        assert_eq!(refusal(authenticate("s", row(hash))), invalid());
    }
    assert_eq!(grant(row("x"), true).unwrap().id, BUSINESS);
    assert_eq!(refusal(grant(row("x"), false)), invalid());
    assert_eq!(refusal(grant(None, true)), invalid());
}

#[test]
fn settings_have_defaults() {
    let given = |text: &str| Some(text.to_string());
    let defaults = settings(given("postgres://x"), None, None, None).unwrap();
    assert_eq!(defaults.database_url, "postgres://x");
    assert_eq!(defaults.dev_api_key, "dodo_test_dev_secret_change_me");
    assert_eq!(defaults.psp_url, "http://localhost:8081");
    assert_eq!(
        hex::encode(defaults.webhook_key),
        "4c88089bdf15cb0dffde5c179461a2f99fa7cfb0bed250a8d87f8aa1d80eaa11"
    );
    let chosen = settings(given("d"), given("k"), given("k1"), given("p")).unwrap();
    assert_eq!(chosen.dev_api_key, "k");
    assert_eq!(chosen.psp_url, "p");
    assert_eq!(
        hex::encode(chosen.webhook_key),
        "6ab9f1eb8f7d3388f4f9d586f66e99fd54080df2c446f0e58668b09c08a16dd0"
    );
    assert_eq!(
        settings(None, None, None, None).unwrap_err(),
        "DATABASE_URL is required"
    );
}
