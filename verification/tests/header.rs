use directive_bridge::bridge::{plan_request, prepare_request};
use directive_bridge::envelope::{Endpoint, Envelope, Scope};
use directive_bridge::error::BridgeError;
use directive_bridge::header::is_header_text;
use reqwest::header::HeaderValue;
use serde_json::Value;

fn bearer_envelope(token: &str) -> Envelope {
    Envelope {
        payload_version: "3".to_string(),
        endpoint: Some(Endpoint {
            scope: Scope { ty: "BearerToken".to_string(), token: Some(token.to_string()) },
        }),
        payload: None,
    }
}

#[test]
fn header_text_accepts_printable_text_and_tab() {
    assert!(is_header_text(""));
    assert!(is_header_text("Bearer abc.def-123"));
    assert!(is_header_text("a\tb"));
    assert!(is_header_text(" ~"));
    assert!(is_header_text("gr\u{fc}n \u{20ac} \u{1f600}"));
}

#[test]
fn header_text_rejects_control_characters() {
    assert!(!is_header_text("a\nb"));
    assert!(!is_header_text("a\rb"));
    assert!(!is_header_text("\u{0}"));
    assert!(!is_header_text("abc\u{1f}"));
    assert!(!is_header_text("abc\u{7f}def"));
}

#[test]
fn header_text_agrees_with_the_header_type() {
    let samples = [
        "", "x", "Bearer T1", "a\tb", "a\nb", "\u{7f}", "\u{1}", "\u{80}", "caf\u{e9}", "a b c",
        "line\r\n", "\u{1f}x", " ", "~",
    ];
    for s in samples {
        assert_eq!(is_header_text(s), HeaderValue::from_str(s).is_ok());
    }
}

#[test]
fn credential_that_fits_no_header_is_refused() {
    let e = bearer_envelope("T1\nX-Injected: 1");
    assert_eq!(
        plan_request(&e, Some("{}".to_string()), &None, "http://127.0.0.1:8080"),
        Err(BridgeError::InvalidCredential)
    );
    assert_eq!(
        plan_request(&e, None, &None, "http://127.0.0.1:8080"),
        Err(BridgeError::InvalidCredential)
    );
    let event = serde_json::from_str::<Value>(
        r#"{"directive":{"header":{"payloadVersion":"3"},"endpoint":{"scope":{"type":"BearerToken"}}}}"#,
    )
    .unwrap();
    assert_eq!(
        prepare_request(&event, &Some("bad\u{7f}".to_string()), "http://127.0.0.1:8080"),
        Err(BridgeError::InvalidCredential)
    );
    assert!(prepare_request(&event, &Some("good".to_string()), "http://127.0.0.1:8080").is_ok());
}
