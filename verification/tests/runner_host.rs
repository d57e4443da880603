//! The runner's decisions (mock short-circuit, wallclock, decoding) and
//! the host capability surface.

use mcp_exec::config::RuntimePolicy;
use mcp_exec::error::RunnerError;
use mcp_exec::host::{status_decision, u16_to_string, HostState};
use mcp_exec::json::Json;
use mcp_exec::runner::{decode_exec_result, engine_settings, try_mock_json};

fn obj(fields: Vec<(&str, Json)>) -> Json {
    Json::Obj(fields.into_iter().map(|(k, v)| (k.to_string(), v)).collect())
}

const MOCK: &[u8] = br#"{"_mock_mcp_exec":true,"responses":{"tool-invoke":{"ok":1}}}"#;

#[test]
fn mock_artifact_answers_its_action() {
    let result = try_mock_json(MOCK, "tool-invoke").expect("is a mock").expect("action exists");
    let expected = obj(vec![("ok", Json::Num("1".to_string()))]);
    assert!(result.eq_val(&expected));
}

#[test]
fn mock_artifact_rejects_unknown_actions() {
    let result = try_mock_json(MOCK, "other-action").expect("is a mock");
    match result {
        Err(RunnerError::ActionNotFound { action }) => assert_eq!(action, "other-action"),
        other => panic!("expected a missing action, got {other:?}"),
    }
}

#[test]
fn non_mock_bytes_are_no_mock() {
    assert!(try_mock_json(b"\0asm not json", "tool-invoke").is_none());
    assert!(try_mock_json(br#"{"responses":{}}"#, "tool-invoke").is_none());
    assert!(try_mock_json(br#"{"_mock_mcp_exec":false,"responses":{}}"#, "x").is_none());
    assert!(try_mock_json(br#"{"_mock_mcp_exec":true,"responses":[1]}"#, "x").is_none());
    assert!(try_mock_json(br#"{"_mock_mcp_exec":true}"#, "x").is_none());
}

#[test]
fn decode_returns_the_parsed_reply() {
    let v = decode_exec_result(r#"{"hello":"world"}"#, 10, 30000).expect("valid reply");
    let expected = obj(vec![("hello", Json::Str("world".to_string()))]);
    assert!(v.eq_val(&expected));
}

#[test]
fn decode_rejects_invalid_json() {
    match decode_exec_result("not json", 10, 30000) {
        Err(RunnerError::Serde(_)) => {}
        other => panic!("expected a decode failure, got {other:?}"),
    }
}

#[test]
fn decode_times_out_over_the_wallclock_bound() {
    // a guest that took 500 ms against a 150 ms bound never succeeds
    match decode_exec_result(r#"{"ok":1}"#, 500, 150) {
        Err(RunnerError::Timeout { elapsed_ms }) => assert_eq!(elapsed_ms, 500),
        other => panic!("expected a timeout, got {other:?}"),
    }
}

#[test]
fn engine_settings_follow_the_policy() {
    let mut runtime = RuntimePolicy::default();
    let s = engine_settings(&runtime);
    assert!(s.component_model && !s.async_support && s.epoch_interruption);
    assert!(!s.consume_fuel);

    runtime.fuel = Some(1_000_000);
    assert!(engine_settings(&runtime).consume_fuel);
}

#[test]
fn http_request_requires_flag() {
    let state = HostState::new(false);
    let result = state.http_request_precheck("GET", "https://example.com", &Vec::new());
    assert!(matches!(result, Err(err) if err == "http-disabled"));
}

#[test]
fn http_request_rejects_invalid_method() {
    let state = HostState::new(true);
    let result = state.http_request_precheck("???", "https://example.com", &Vec::new());
    assert!(matches!(result, Err(err) if err == "invalid-method"));
}

#[test]
fn secret_get_is_disabled() {
    let state = HostState::new(true);
    let result = state.secret_get("api-key");
    assert!(matches!(result, Err(err) if err == "secrets-disabled"));
}

#[test]
fn headers_are_split_and_trimmed() {
    let state = HostState::new(true);
    let headers = vec![
        "Content-Type: application/json".to_string(),
        " X-Trace :  abc ".to_string(),
    ];
    let checked = state
        .http_request_precheck("POST", "https://example.com", &headers)
        .expect("valid request");
    assert_eq!(checked.method, "POST");
    assert_eq!(checked.url, "https://example.com");
    assert_eq!(
        checked.headers,
        vec![
            ("Content-Type".to_string(), "application/json".to_string()),
            ("X-Trace".to_string(), "abc".to_string()),
        ]
    );
}

#[test]
fn bad_headers_name_the_offender() {
    let state = HostState::new(true);

    let err = state
        .http_request_precheck("GET", "https://example.com", &vec!["NoColon".to_string()])
        .expect_err("no colon");
    assert_eq!(err, "invalid-header:NoColon");

    let err = state
        .http_request_precheck("GET", "https://example.com", &vec!["Bad Name: x".to_string()])
        .expect_err("bad name");
    assert_eq!(err, "invalid-header-name:Bad Name");

    let err = state
        .http_request_precheck("GET", "https://example.com", &vec!["X-A: \u{7f}".to_string()])
        .expect_err("bad value");
    assert_eq!(err, "invalid-header-value:X-A: \u{7f}");
}

#[test]
fn statuses_map_to_results() {
    assert!(status_decision(200).is_ok());
    assert!(status_decision(299).is_ok());
    assert_eq!(status_decision(199).expect_err("1xx fails"), "status-199");
    assert_eq!(status_decision(404).expect_err("4xx fails"), "status-404");
    assert_eq!(status_decision(500).expect_err("5xx fails"), "status-500");
    assert_eq!(u16_to_string(0), "0");
    assert_eq!(u16_to_string(65535), "65535");
}

#[test]
fn kv_state_is_per_call_and_empty() {
    // two sandboxes share no key-value state: a write in one is invisible
    // everywhere, including its own store
    let mut first = HostState::new(true);
    let second = HostState::new(true);
    first.kv_put("ns", "key", "value");
    assert!(second.kv_get("ns", "key").is_none());
    assert!(first.kv_get("ns", "key").is_none());
}

#[test]
fn disabled_http_guest_still_completes() {
    // a guest that sees `http-disabled` can still answer: the capability
    // error is a value, the invocation itself succeeds
    let state = HostState::new(false);
    let outcome = state.http_request_precheck("GET", "https://example.com", &Vec::new());
    let guest_reply = match outcome {
        Err(e) => format!(r#"{{"http_error":"{e}"}}"#),
        Ok(_) => r#"{"http_error":null}"#.to_string(),
    };
    let v = decode_exec_result(&guest_reply, 5, 30000).expect("the call still succeeds");
    let expected = obj(vec![("http_error", Json::Str("http-disabled".to_string()))]);
    assert!(v.eq_val(&expected));
}
