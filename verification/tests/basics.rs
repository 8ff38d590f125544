use invoice_service::error::ApiError;
use invoice_service::http::is_success;
use invoice_service::ids::Uuid;
use invoice_service::mock_psp::{
    processing_reply, reply_for_token, reply_for_token_with, ChargeStep, PspState,
};
use invoice_service::models::PayInput;
use invoice_service::text::{
    byte_len, contains_char, quote, quote_optional, same_text, split_once, strip_prefix,
};

fn pay(card_token: &str) -> PayInput {
    PayInput {
        card_token: card_token.to_string(),
    }
}

#[test]
fn identifiers_are_hyphenated() {
    let id = Uuid {
        bits: 0x0123456789abcdef_fedcba9876543210,
    };
    assert_eq!(id.text(), "01234567-89ab-cdef-fedc-ba9876543210");
    assert_eq!(Uuid::nil().text(), "00000000-0000-0000-0000-000000000000");
    let fresh = Uuid::new_v4();
    assert_eq!(fresh.text().as_bytes()[14], b'4');
    assert_ne!(fresh, Uuid::new_v4());
}

#[test]
fn errors_are_answered() {
    let id = Uuid { bits: 1 };
    let error = ApiError::client(422, "a_code", "a \"message\"");
    let reply = error.reply(id);
    assert_eq!(reply.status, 422);
    assert_eq!(
        reply.body,
        "{\"error\":{\"code\":\"a_code\",\"message\":\"a \\\"message\\\"\",\
         \"request_id\":\"00000000-0000-0000-0000-000000000001\"}}"
    );
    let value: serde_json::Value = serde_json::from_str(&reply.body).unwrap();
    assert_eq!(value.to_string(), reply.body);
    assert_eq!(error.line(), "a_code: a \"message\"");

    let error = ApiError::db("the detail".to_string());
    let reply = error.reply(id);
    assert_eq!(reply.status, 500);
    assert!(reply.body.contains("\"code\":\"internal_error\",\"message\":\"database failure\""));
    assert!(!reply.body.contains("detail"));
    assert_eq!(error.line(), "database error");

    let error = ApiError::Internal("the detail".to_string());
    assert!(error
        .reply(id)
        .body
        .contains("\"code\":\"internal_error\",\"message\":\"internal failure\""));
    assert_eq!(error.line(), "internal error");
    let first = ApiError::db(String::new()).into_response();
    let second = ApiError::db(String::new()).into_response();
    assert_eq!(first.status, 500);
    assert_ne!(first.body, second.body);
    let value: serde_json::Value = serde_json::from_str(&first.body).unwrap();
    let id = uuid::Uuid::parse_str(value["error"]["request_id"].as_str().unwrap()).unwrap();
    assert_eq!(id.get_version_num(), 4);
    assert_eq!(id.get_variant(), uuid::Variant::RFC4122);
}

#[test]
fn texts() {
    assert!(same_text("a\u{e9}", "a\u{e9}"));
    assert!(!same_text("a", "A"));
    assert_eq!(byte_len("a\u{e9}"), 3);
    assert!(contains_char("a@b", '@'));
    assert!(!contains_char("ab", '@'));
    assert_eq!(strip_prefix("dodo_x", "dodo_"), Some("x"));
    assert_eq!(strip_prefix("dodo", "dodo_"), None);
    assert_eq!(split_once("a_b_c", '_'), Some(("a", "b_c")));
    assert_eq!(split_once("abc", '_'), None);
    assert!(is_success(200) && is_success(299));
    assert!(!is_success(199) && !is_success(300));
}

#[test]
fn texts_are_quoted_as_json() {
    let text = "\u{0}\u{1}\u{8}\t\n\u{b}\u{c}\r\u{1f} \"\\/\u{7f}\u{e9}\u{2028}\u{1f600}";
    let quoted = quote(text);
    assert_eq!(
        quoted,
        "\"\\u0000\\u0001\\b\\t\\n\\u000b\\f\\r\\u001f \\\"\\\\/\u{7f}\u{e9}\u{2028}\u{1f600}\""
    );
    let value: String = serde_json::from_str(&quoted).unwrap();
    assert_eq!(value, text);
    assert_eq!(quote_optional(&None), "null");
    assert_eq!(quote_optional(&Some("x".to_string())), "\"x\"");
}

#[test]
fn tokens_decide_the_outcome() {
    let outcome = |token: &str| {
        let (delay, reply) = reply_for_token_with(token, "ref".to_string());
        (delay, reply.status, reply.psp_ref, reply.code)
    };
    let text = |text: &str| text.to_string();
    let failed = |code: &str| (100, text("failed"), None, Some(text(code)));
    assert_eq!(
        outcome("tok_success"),
        (100, text("succeeded"), Some(text("ref")), None)
    );
    assert_eq!(
        outcome("tok_timeout"),
        (30_000, text("succeeded"), Some(text("ref")), None)
    );
    assert_eq!(
        outcome("tok_insufficient_funds"),
        failed("insufficient_funds")
    );
    assert_eq!(outcome("tok_card_declined"), failed("card_declined"));
    assert_eq!(outcome("anything"), failed("unknown_token"));
    let (_, reply) = reply_for_token("tok_success");
    let reference = uuid::Uuid::parse_str(&reply.psp_ref.unwrap()).unwrap();
    assert_eq!(reference.get_version_num(), 4);
}

#[test]
fn charges_are_created_once() {
    let mut psp = PspState::new();
    let reply = match psp.create_charge_with(Some("k"), &pay("tok_success"), "r1".to_string()) {
        ChargeStep::Started {
            delay_millis,
            reply,
        } => {
            assert_eq!(delay_millis, 100);
            reply
        }
        other => panic!("{other:?}"),
    };
    match psp.create_charge_with(Some("k"), &pay("tok_card_declined"), "r2".to_string()) {
        ChargeStep::Known(reply) => {
            assert_eq!(reply.status, "processing");
            assert_eq!(reply.psp_ref.as_deref(), Some("r1"));
        }
        other => panic!("{other:?}"),
    }
    psp.complete_charge("k", reply);
    assert_eq!(psp.get_charge("k").unwrap().status, "succeeded");
    assert_eq!(psp.charge_or_processing("k").status, "succeeded");
    assert_eq!(psp.charge_or_processing("other").status, "processing");
    assert_eq!(processing_reply().psp_ref, None);
    match psp.create_charge(Some("k"), &pay("tok_success")) {
        ChargeStep::Known(reply) => assert_eq!(reply.psp_ref.as_deref(), Some("r1")),
        other => panic!("{other:?}"),
    }
    assert_eq!(psp.get_call_count("k"), 3);
    assert_eq!(psp.get_call_count("other"), 0);
}

#[test]
fn refused_charges() {
    let mut psp = PspState::new();
    for key in [None, Some("")] {
        match psp.create_charge(key, &pay("tok_success")) {
            ChargeStep::Refused(reply) => assert_eq!(
                (reply.status, reply.body.as_str()),
                (400, "{\"error\":\"Idempotency-Key required\"}")
            ),
            other => panic!("{other:?}"),
        }
    }
    match psp.create_charge(Some("k"), &pay("tok_network_error")) {
        ChargeStep::Refused(reply) => assert_eq!(
            (reply.status, reply.body.as_str()),
            (500, "{\"error\":\"network_error\"}")
        ),
        other => panic!("{other:?}"),
    }
    assert_eq!(psp.get_call_count("k"), 1);
    let missing = psp.get_charge("k").unwrap_err();
    assert_eq!(
        (missing.status, missing.body.as_str()),
        (404, "{\"error\":\"charge not found\"}")
    );
}
