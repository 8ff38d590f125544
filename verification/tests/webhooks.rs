use aes_gcm::aead::{Aead, KeyInit};
use aes_gcm::{Aes256Gcm, Nonce};
use invoice_service::controllers::webhooks::{
    check_url_parts, create_endpoint, create_endpoint_with, endpoint_created, list_endpoints,
    validate_webhook_url, EndpointRow, UrlParts,
};
use invoice_service::error::ApiError;
use invoice_service::ids::Uuid;
use invoice_service::models::EndpointInput;
use invoice_service::services::webhooks::{
    conclude_delivery, decrypt_secret, deliver, deliver_counted, encrypt_secret,
    encrypt_secret_with, record_failure, sign_payload, wait_after_claim, ClaimOutcome,
    DeliveryAction, DeliveryJob, DeliveryOutcome, DeliveryUpdate,
};

const EVENT: Uuid = Uuid {
    bits: 0x00000000_0000_4000_8000_000000000001,
};

fn job(secret_ciphertext: &str, attempts: i32) -> DeliveryJob {
    DeliveryJob {
        id: Uuid { bits: 9 },
        event_id: EVENT,
        event_type: "invoice.paid".to_string(),
        payload: "{\"a\":1}".to_string(),
        url: "https://example.com/hook".to_string(),
        secret_ciphertext: secret_ciphertext.to_string(),
        attempts,
    }
}

fn input(url: &str) -> EndpointInput {
    EndpointInput {
        url: url.to_string(),
    }
}

#[test]
fn encryption_of_a_known_text() {
    let stored = encrypt_secret_with(&"\0".repeat(16), &[0; 32], &[0; 12]).unwrap();
    assert_eq!(
        stored,
        "000000000000000000000000\
         cea7403d4d606b6e074ec5d3baf39d18d0d1c8a799996bf0265b98b5d48ab919"
    );
    assert_eq!(decrypt_secret(&stored, &[0; 32]).unwrap(), "\0".repeat(16));
    let upper = stored.to_uppercase();
    assert_eq!(decrypt_secret(&upper, &[0; 32]).unwrap(), "\0".repeat(16));
}

#[test]
fn secrets_read_back() {
    let key = [7; 32];
    for secret in ["", "whsec_abc", "\u{1f511} and more"] {
        let first = encrypt_secret(secret, &key).unwrap();
        let second = encrypt_secret(secret, &key).unwrap();
        assert_ne!(first, second);
        assert_eq!(decrypt_secret(&first, &key).unwrap(), secret);
        assert_eq!(decrypt_secret(&second, &key).unwrap(), secret);
        assert!(matches!(
            decrypt_secret(&first, &[8; 32]),
            Err(ApiError::Internal(_))
        ));
    }
}

#[test]
fn damaged_secrets_are_refused() {
    let key = [7; 32];
    let line = |value: &str| match decrypt_secret(value, &key) {
        Err(ApiError::Internal(detail)) => detail,
        other => panic!("{other:?}"),
    };
    assert_eq!(line("xy"), "Invalid character 'x' at position 0");
    assert_eq!(line("abc"), "Odd number of digits");
    assert_eq!(line(&"00".repeat(12)), "aead::Error");
    match decrypt_secret(&"00".repeat(11), &key) {
        Err(ApiError::Client {
            status,
            code,
            message,
        }) => assert_eq!(
            (status, code, message.as_str()),
            (500, "secret_error", "invalid encrypted secret")
        ),
        other => panic!("{other:?}"),
    }
}

#[test]
fn secrets_that_are_not_text_are_refused() {
    let key = [7; 32];
    let cipher = Aes256Gcm::new(&key.into());
    let sealed = |plaintext: &[u8]| {
        let ciphertext = cipher.encrypt(Nonce::from_slice(&[9; 12]), plaintext).unwrap();
        format!("{}{}", hex::encode([9; 12]), hex::encode(ciphertext))
    };
    assert_eq!(decrypt_secret(&sealed(b"text"), &key).unwrap(), "text");
    assert_eq!(
        encrypt_secret_with("text", &key, &[9; 12]).unwrap(),
        sealed(b"text")
    );
    match decrypt_secret(&sealed(b"\xff\xfe"), &key) {
        Err(ApiError::Internal(detail)) => {
            assert_eq!(detail, "invalid utf-8 sequence of 1 bytes from index 0")
        }
        other => panic!("{other:?}"),
    }
}

#[test]
fn signatures() {
    assert_eq!(
        sign_payload("whsec_test", "1700000000", EVENT, b"{\"a\":1}"),
        "v1=c8fa861b86103585017de6aad4b269b395056db6f909f8258512ade331096d8b"
    );
    assert_eq!(
        sign_payload("whsec_test", "1700000000", EVENT, b"a\xffb"),
        "v1=3a5ee7de249c2aef77043de72bb070bbb0b85c6679a1f565dbf69e9e6d8edfd5"
    );
}

#[test]
fn deliveries_are_signed_with_the_secret_of_the_endpoint() {
    let key = [3; 32];
    let stored = encrypt_secret("whsec_test", &key).unwrap();
    match deliver(&job(&stored, 0), &key, 1700000000) {
        DeliveryAction::Send(request) => {
            assert_eq!(request.url, "https://example.com/hook");
            assert_eq!(request.event_id, "00000000-0000-4000-8000-000000000001");
            assert_eq!(request.timestamp, "1700000000");
            assert_eq!(
                request.body,
                "{\"data\":{\"a\":1},\"id\":\"00000000-0000-4000-8000-000000000001\",\
                 \"type\":\"invoice.paid\"}"
            );
            assert_eq!(
                request.signature,
                "v1=b08da1dbbcf3bf0da72febf6b8391a1a3ecd62a160f7cf7f665d10e81f7e89f2"
            );
            let value: serde_json::Value = serde_json::from_str(&request.body).unwrap();
            assert_eq!(value.to_string(), request.body);
        }
        other => panic!("{other:?}"),
    }
}

#[test]
fn unreadable_secrets_fail_the_delivery() {
    let failure = |ciphertext: &str| match deliver(&job(ciphertext, 0), &[3; 32], 0) {
        DeliveryAction::Update(DeliveryUpdate::Retry {
            id,
            attempts,
            last_error,
            delay_seconds,
        }) => {
            assert_eq!((id, attempts, delay_seconds), (Uuid { bits: 9 }, 1, 1));
            last_error
        }
        other => panic!("{other:?}"),
    };
    assert_eq!(failure("no"), "secret: internal error");
    assert_eq!(
        failure("00"),
        "secret: secret_error: invalid encrypted secret"
    );
}

#[test]
fn count_of_attempts_matters_to_failures_alone() {
    let key = [3; 32];
    let stored = encrypt_secret("whsec_test", &key).unwrap();
    for attempts in [-1, 0, i32::MAX] {
        assert!(matches!(
            deliver_counted(&job(&stored, attempts), &key, 0),
            Some(DeliveryAction::Send(_))
        ));
        let delivered = DeliveryOutcome::Answered(200);
        assert!(matches!(
            conclude_delivery(&job(&stored, attempts), delivered),
            DeliveryUpdate::Delivered { .. }
        ));
    }
    assert!(matches!(
        deliver_counted(&job("no", 0), &key, 0),
        Some(DeliveryAction::Update(_))
    ));
    for attempts in [-1, i32::MAX] {
        assert!(deliver_counted(&job("no", attempts), &key, 0).is_none());
    }
}

#[test]
fn waits_between_looks_for_deliveries() {
    assert_eq!(wait_after_claim(ClaimOutcome::Claimed), 0);
    assert_eq!(wait_after_claim(ClaimOutcome::Idle), 500);
    assert_eq!(wait_after_claim(ClaimOutcome::Failed), 2000);
}

#[test]
fn deliveries_are_tried_six_times() {
    for (attempts, delay) in [(0, 1), (1, 5), (2, 30), (3, 120), (4, 600)] {
        match record_failure(&job("", attempts), "x".to_string()) {
            DeliveryUpdate::Retry {
                attempts: next,
                last_error,
                delay_seconds,
                ..
            } => {
                assert_eq!(next, attempts + 1);
                assert_eq!(last_error, "x");
                assert_eq!(delay_seconds, delay);
            }
            other => panic!("{other:?}"),
        }
    }
    for attempts in [5, 6, 100] {
        match record_failure(&job("", attempts), "x".to_string()) {
            DeliveryUpdate::Exhausted {
                attempts: next,
                last_error,
                ..
            } => {
                assert_eq!(next, attempts + 1);
                assert_eq!(last_error, "x");
            }
            other => panic!("{other:?}"),
        }
    }
}

#[test]
fn outcomes_of_deliveries() {
    let error = |outcome: DeliveryOutcome| match conclude_delivery(&job("", 0), outcome) {
        DeliveryUpdate::Retry { last_error, .. } => last_error,
        other => panic!("{other:?}"),
    };
    for code in [200, 204, 299] {
        assert!(matches!(
            conclude_delivery(&job("", 0), DeliveryOutcome::Answered(code)),
            DeliveryUpdate::Delivered { .. }
        ));
    }
    assert_eq!(
        error(DeliveryOutcome::Answered(500)),
        "receiver returned 500 Internal Server Error"
    );
    assert_eq!(
        error(DeliveryOutcome::Answered(302)),
        "receiver returned 302 Found"
    );
    assert_eq!(
        error(DeliveryOutcome::Unreachable("refused".to_string())),
        "refused"
    );
    assert_eq!(error(DeliveryOutcome::TimedOut), "delivery timeout");
}

#[test]
fn webhook_urls() {
    for good in [
        "http://example.com",
        "https://example.com:8443/a?b#c",
        "HTTPS://Example.com",
        "http://127.0.0.1:9",
        "http://[::1]/",
    ] {
        assert!(validate_webhook_url(good).is_ok(), "{good}");
    }
    for bad in [
        "",
        "example.com",
        "/hook",
        "ftp://example.com",
        "mailto:a@b.c",
        "http://",
        "file:///etc",
    ] {
        match validate_webhook_url(bad) {
            Err(ApiError::Client {
                status,
                code,
                message,
            }) => assert_eq!(
                (status, code, message.as_str()),
                (
                    422,
                    "invalid_webhook_url",
                    "url must be valid http or https"
                )
            ),
            other => panic!("{bad}: {other:?}"),
        }
    }
}

#[test]
fn url_parts_are_judged() {
    let parts = |scheme: &str, host: Option<&str>| {
        Some(UrlParts {
            scheme: scheme.to_string(),
            host: host.map(|host| host.to_string()),
        })
    };
    assert!(check_url_parts(parts("http", Some("h"))).is_ok());
    assert!(check_url_parts(parts("https", Some("h"))).is_ok());
    assert!(check_url_parts(parts("https", None)).is_err());
    assert!(check_url_parts(parts("ws", Some("h"))).is_err());
    assert!(check_url_parts(None).is_err());
}

#[test]
fn endpoints_get_a_secret() {
    let key = [1; 32];
    let bytes: Vec<u8> = (0..32).collect();
    let url = "https://example.com/hook";
    let endpoint = create_endpoint_with(input(url), &key, &bytes, &[2; 12]).unwrap();
    assert_eq!(
        endpoint.secret,
        "whsec_AAECAwQFBgcICQoLDA0ODxAREhMUFRYXGBkaGxwdHh8"
    );
    assert!(endpoint
        .secret_ciphertext
        .starts_with("020202020202020202020202"));
    assert_eq!(
        decrypt_secret(&endpoint.secret_ciphertext, &key).unwrap(),
        endpoint.secret
    );
    let endpoint = create_endpoint_with(input(url), &key, &[255; 32], &[2; 12]).unwrap();
    assert_eq!(
        endpoint.secret,
        "whsec___________________________________________8"
    );

    let first = create_endpoint(input(url), &key).unwrap();
    let second = create_endpoint(input(url), &key).unwrap();
    assert_ne!(first.secret, second.secret);
    assert_eq!(first.secret.len(), 49);
    assert_eq!(
        decrypt_secret(&first.secret_ciphertext, &key).unwrap(),
        first.secret
    );
    assert!(create_endpoint(input("ftp://x"), &key).is_err());

    let secret = first.secret.clone();
    let shown = endpoint_created(first, Uuid { bits: 4 }, 77);
    assert_eq!(shown.secret, Some(secret));
    assert!(shown.active);
    assert_eq!((shown.id, shown.created_at), (Uuid { bits: 4 }, 77));
    assert_eq!(shown.url, url);
}

#[test]
fn endpoints_are_listed_without_their_secret() {
    let rows = vec![
        EndpointRow {
            id: Some(Uuid { bits: 1 }),
            url: Some("https://a".to_string()),
            active: Some(true),
            created_at: Some(5),
        },
        EndpointRow {
            id: None,
            url: None,
            active: None,
            created_at: None,
        },
    ];
    let listed = list_endpoints(rows, 99);
    assert_eq!(listed.len(), 2);
    assert_eq!(listed[0].id, Uuid { bits: 1 });
    assert_eq!(listed[0].url, "https://a");
    assert!(listed[0].active);
    assert_eq!(listed[0].created_at, 5);
    assert_eq!(listed[1].id, Uuid { bits: 0 });
    assert_eq!(listed[1].url, "");
    assert!(!listed[1].active);
    assert_eq!(listed[1].created_at, 99);
    assert!(listed.iter().all(|endpoint| endpoint.secret.is_none()));
}
