use directive_bridge::bridge::{
    authorize, build_request, complete, error_envelope, plan_request, prepare_request, respond,
    BridgeResponse, ForwardRequest,
};
use directive_bridge::envelope::{Endpoint, Envelope, Scope};
use directive_bridge::error::BridgeError;
use directive_bridge::service::LambdaService;
use directive_bridge::status::{classify_status, ErrorType};
use serde_json::Value;

const BASE: &str = "http://127.0.0.1:8080";

fn json(text: &str) -> Value {
    serde_json::from_str::<Value>(text).unwrap()
}

fn directive(version: &str, token: Option<&str>) -> Value {
    let token_part = match token {
        Some(t) => format!(r#","token":"{}""#, t),
        None => String::new(),
    };
    json(&format!(
        r#"{{"directive":{{"header":{{"payloadVersion":"{}","namespace":"Alexa.PowerController"}},"endpoint":{{"scope":{{"type":"BearerToken"{}}},"endpointId":"switch.kitchen"}},"payload":{{}}}}}}"#,
        version, token_part
    ))
}

#[test]
fn prepare_request_describes_the_post() {
    let event = directive("3", Some("T1"));
    let request = prepare_request(&event, &Some("FALLBACK".to_string()), BASE).unwrap();
    let expected = ForwardRequest {
        url: "http://127.0.0.1:8080/api/alexa/smart_home".to_string(),
        authorization: "Bearer T1".to_string(),
        content_type: "application/json".to_string(),
        body: serde_json::to_string(&event).unwrap(),
    };
    assert_eq!(request, expected);
}

#[test]
fn prepare_request_relays_the_whole_directive() {
    let event = directive("3", Some("T1"));
    let request = prepare_request(&event, &None, BASE).unwrap();
    assert_eq!(json(&request.body), event);
    assert!(request.body.contains("switch.kitchen"));
    assert!(request.body.contains("Alexa.PowerController"));
}

#[test]
fn prepare_request_uses_fallback() {
    let event = directive("3", None);
    let request = prepare_request(&event, &Some("FALLBACK".to_string()), BASE).unwrap();
    assert_eq!(request.authorization, "Bearer FALLBACK");
    assert_eq!(prepare_request(&event, &None, BASE), Err(BridgeError::MissingCredential));
}

#[test]
fn unsupported_version_is_refused_whatever_else_holds() {
    for version in ["2", "", "3.0", " 3", "33", "three"] {
        assert_eq!(
            prepare_request(&directive(version, Some("T1")), &None, BASE),
            Err(BridgeError::UnsupportedVersion)
        );
        assert_eq!(
            prepare_request(&directive(version, None), &Some("FALLBACK".to_string()), BASE),
            Err(BridgeError::UnsupportedVersion)
        );
    }
    let no_scope = json(r#"{"directive":{"header":{"payloadVersion":"4"}}}"#);
    assert_eq!(prepare_request(&no_scope, &None, BASE), Err(BridgeError::UnsupportedVersion));
    let wrong_type = json(
        r#"{"directive":{"header":{"payloadVersion":"1"},"endpoint":{"scope":{"type":"Basic"}}}}"#,
    );
    assert_eq!(prepare_request(&wrong_type, &None, BASE), Err(BridgeError::UnsupportedVersion));
}

#[test]
fn prepare_request_errors() {
    assert_eq!(prepare_request(&json("[1,2]"), &None, BASE), Err(BridgeError::MalformedEnvelope));
    assert_eq!(
        prepare_request(&json(r#"{"directive":{"header":{"payloadVersion":"3"}}}"#), &None, BASE),
        Err(BridgeError::MissingScope)
    );
    assert_eq!(
        prepare_request(
            &json(r#"{"directive":{"header":{"payloadVersion":"3"},"payload":{"scope":{"type":"Basic","token":"x"}}}}"#),
            &Some("FALLBACK".to_string()),
            BASE
        ),
        Err(BridgeError::UnsupportedScopeType)
    );
    assert_eq!(
        prepare_request(
            &json(r#"{"directive":{"header":{"payloadVersion":"3"},"payload":{"grantee":{"type":"BearerToken"}}}}"#),
            &None,
            BASE
        ),
        Err(BridgeError::MissingCredential)
    );
}

#[test]
fn authorize_checks_version_first() {
    let e = Envelope {
        payload_version: "2".to_string(),
        endpoint: Some(Endpoint { scope: Scope { ty: "Basic".to_string(), token: None } }),
        payload: None,
    };
    assert_eq!(authorize(&e, &None), Err(BridgeError::UnsupportedVersion));
    let ok = Envelope {
        payload_version: "3".to_string(),
        endpoint: Some(Endpoint {
            scope: Scope { ty: "BearerToken".to_string(), token: Some("abc".to_string()) },
        }),
        payload: None,
    };
    assert_eq!(authorize(&ok, &None), Ok("abc".to_string()));
}

#[test]
fn plan_request_reports_the_first_failure() {
    let bearer = Envelope {
        payload_version: "3".to_string(),
        endpoint: Some(Endpoint {
            scope: Scope { ty: "BearerToken".to_string(), token: Some("abc".to_string()) },
        }),
        payload: None,
    };
    assert_eq!(
        plan_request(&bearer, Some("{}".to_string()), &None, BASE),
        Ok(ForwardRequest {
            url: "http://127.0.0.1:8080/api/alexa/smart_home".to_string(),
            authorization: "Bearer abc".to_string(),
            content_type: "application/json".to_string(),
            body: "{}".to_string(),
        })
    );
    assert_eq!(plan_request(&bearer, None, &None, BASE), Err(BridgeError::RequestEncodeError));
    let old = Envelope { payload_version: "2".to_string(), endpoint: None, payload: None };
    assert_eq!(plan_request(&old, None, &None, BASE), Err(BridgeError::UnsupportedVersion));
    let bare = Envelope { payload_version: "3".to_string(), endpoint: None, payload: None };
    assert_eq!(plan_request(&bare, None, &None, BASE), Err(BridgeError::MissingScope));
}

#[test]
fn build_request_exact() {
    let r = build_request("tok", "{}".to_string(), "http://10.0.0.1:1");
    assert_eq!(r.url, "http://10.0.0.1:1/api/alexa/smart_home");
    assert_eq!(r.authorization, "Bearer tok");
    assert_eq!(r.content_type, "application/json");
    assert_eq!(r.body, "{}");
}

#[test]
fn classify_status_success_family() {
    for status in 200u16..=208 {
        assert_eq!(classify_status(status), None);
    }
}

#[test]
fn classify_status_authorization() {
    assert_eq!(classify_status(401), Some(ErrorType::InvalidAuthorizationCredential));
    assert_eq!(classify_status(403), Some(ErrorType::InvalidAuthorizationCredential));
}

#[test]
fn classify_status_everything_else() {
    for status in [0u16, 100, 199, 209, 226, 301, 400, 402, 404, 429, 500, 503, 599, 999, 65535] {
        assert_eq!(classify_status(status), Some(ErrorType::InternalError));
    }
}

#[test]
fn error_type_names() {
    assert_eq!(ErrorType::InvalidAuthorizationCredential.name(), "INVALID_AUTHORIZATION_CREDENTIAL");
    assert_eq!(ErrorType::InternalError.name(), "INTERNAL_ERROR");
}

#[test]
fn status_401_gives_invalid_authorization_credential() {
    let body = r#"{"message":"denied"}"#;
    let response = complete(401, body.to_string()).unwrap();
    assert_eq!(
        response,
        BridgeResponse::Classified {
            error_type: ErrorType::InvalidAuthorizationCredential,
            message: body.to_string(),
        }
    );
    let out = response.into_json();
    let expected = json(
        r#"{"event":{"payload":{"type":"INVALID_AUTHORIZATION_CREDENTIAL","message":"{\"message\":\"denied\"}"}}}"#,
    );
    assert_eq!(out, expected);
}

#[test]
fn status_200_passes_the_answer_through() {
    let response = complete(200, r#"{"ok":true}"#.to_string()).unwrap();
    assert_eq!(response, BridgeResponse::Passthrough(json(r#"{"ok":true}"#)));
    let out = response.into_json();
    assert_eq!(serde_json::to_string(&out).unwrap(), r#"{"ok":true}"#);
}

#[test]
fn status_503_gives_internal_error() {
    let body = r#""backend down""#;
    let out = complete(503, body.to_string()).unwrap().into_json();
    assert_eq!(
        out,
        json(r#"{"event":{"payload":{"type":"INTERNAL_ERROR","message":"\"backend down\""}}}"#)
    );
    assert_eq!(out["event"]["payload"]["message"].as_str(), Some(body));
}

#[test]
fn answer_that_is_no_json_is_fatal() {
    assert_eq!(complete(200, "not json".to_string()), Err(BridgeError::ResponseDecodeError));
    assert_eq!(complete(500, "Internal Server Error".to_string()), Err(BridgeError::ResponseDecodeError));
    assert_eq!(complete(401, String::new()), Err(BridgeError::ResponseDecodeError));
    assert_eq!(complete(200, "{} trailing".to_string()), Err(BridgeError::ResponseDecodeError));
}

#[test]
fn respond_for_each_outcome() {
    assert_eq!(respond(204, "x".to_string(), None), Err(BridgeError::ResponseDecodeError));
    assert_eq!(
        respond(208, "ignored".to_string(), Some(json("[1]"))),
        Ok(BridgeResponse::Passthrough(json("[1]")))
    );
    assert_eq!(
        respond(403, "raw".to_string(), Some(json("[1]"))),
        Ok(BridgeResponse::Classified {
            error_type: ErrorType::InvalidAuthorizationCredential,
            message: "raw".to_string(),
        })
    );
    assert_eq!(
        respond(404, "raw".to_string(), Some(json("null"))),
        Ok(BridgeResponse::Classified {
            error_type: ErrorType::InternalError,
            message: "raw".to_string(),
        })
    );
}

#[test]
fn error_envelope_shape() {
    let v = error_envelope(ErrorType::InternalError, "boom".to_string());
    assert_eq!(v, json(r#"{"event":{"payload":{"message":"boom","type":"INTERNAL_ERROR"}}}"#));
    assert_eq!(v["event"]["payload"]["type"].as_str(), Some("INTERNAL_ERROR"));
    assert_eq!(v["event"]["payload"]["message"].as_str(), Some("boom"));
    assert_eq!(v.as_object().unwrap().len(), 1);
    assert_eq!(v["event"].as_object().unwrap().len(), 1);
    assert_eq!(v["event"]["payload"].as_object().unwrap().len(), 2);
}

#[test]
fn repeated_invocations_give_identical_results() {
    let event = directive("3", None);
    let fallback = Some("FALLBACK".to_string());
    let first = prepare_request(&event, &fallback, BASE);
    let second = prepare_request(&event, &fallback, BASE);
    assert_eq!(first, second);
    for status in [200u16, 401, 503] {
        let a = complete(status, r#"{"ok":true}"#.to_string()).unwrap().into_json();
        let b = complete(status, r#"{"ok":true}"#.to_string()).unwrap().into_json();
        assert_eq!(serde_json::to_string(&a).unwrap(), serde_json::to_string(&b).unwrap());
    }
}

#[test]
fn bridge_error_messages() {
    assert_eq!(BridgeError::MalformedEnvelope.message(), "failed to parse event payload");
    assert_eq!(BridgeError::UnsupportedVersion.message(), "only payload version 3 is supported");
    assert_eq!(BridgeError::MissingScope.message(), "missing authorization scope");
    assert_eq!(BridgeError::UnsupportedScopeType.message(), "only BearerToken is supported");
    assert_eq!(BridgeError::MissingCredential.message(), "access token missing");
    assert_eq!(BridgeError::InvalidCredential.message(), "failed to create auth header");
    assert_eq!(BridgeError::RequestEncodeError.message(), "failed to serialize event payload");
    assert_eq!(BridgeError::ResponseDecodeError.message(), "failed to parse response message");
}

#[test]
fn service_holds_the_default_credential() {
    let mut service = LambdaService::new(7u32);
    assert_eq!(service.access_token(), None);
    assert!(service.is_ready());
    service.set_access_token("FALLBACK".to_string());
    assert_eq!(service.access_token(), Some("FALLBACK".to_string()));
    assert_eq!(service.access_token(), Some("FALLBACK".to_string()));
    assert_eq!(service.f, 7);
    assert!(service.is_ready());
}
