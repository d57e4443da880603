//! Retry orchestration, the native test backends, tool maps and the
//! supporting types.

use mcp_exec::config::{ExecConfig, LocalStore, RuntimePolicy, ToolStore, VerifyPolicy};
use mcp_exec::describe::{classify_probe, extract_capabilities, Maybe};
use mcp_exec::error::{ExecError, RunnerError};
use mcp_exec::json::Json;
use mcp_exec::retry::{
    backoff, backoff_with, exec_with_retries_script, is_transient_error, linear_backoff,
    retry_decision, RetryDecision,
};
use mcp_exec::test_backend::{echo, exec_test_backend, flaky_echo, TestBackend};
use mcp_exec::tool_map::ToolMap;
use mcp_exec::tenant::TenantCtx;
use mcp_exec::types::{
    classify_invocation, is_json, InvocationFailure, McpError, ToolMapConfig, ToolRef,
};
use mcp_exec::ExecRequest;

fn obj(fields: Vec<(&str, Json)>) -> Json {
    Json::Obj(fields.into_iter().map(|(k, v)| (k.to_string(), v)).collect())
}

fn test_config(runtime: RuntimePolicy) -> ExecConfig {
    ExecConfig {
        store: ToolStore::Local(LocalStore::new(vec!["tools".to_string()])),
        security: VerifyPolicy {
            allow_unverified: true,
            required_digests: Vec::new(),
            trusted_signers: Vec::new(),
        },
        runtime,
        http_enabled: false,
    }
}

fn default_runtime_policy() -> RuntimePolicy {
    RuntimePolicy {
        per_call_timeout_ms: 10_000,
        max_attempts: 1,
        base_backoff_ms: 50,
        ..RuntimePolicy::default()
    }
}

#[test]
fn echo_ok() {
    let cfg = test_config(default_runtime_policy());
    let args = obj(vec![("hello", Json::Str("world".to_string()))]);
    let expected = args.duplicate();
    let result =
        exec_test_backend(&TestBackend::NativeEcho, 0, args, &cfg).expect("tool success");
    assert!(result.eq_val(&expected));
}

#[test]
fn echo_timeout() {
    let mut runtime = default_runtime_policy();
    runtime.per_call_timeout_ms = 200;
    let cfg = test_config(runtime);
    let args = obj(vec![
        ("sleep_ms", Json::Num("500".to_string())),
        ("note", Json::Str("slow".to_string())),
    ]);

    let err = exec_test_backend(&TestBackend::NativeTimeout { sleep_ms: 400 }, 0, args, &cfg)
        .expect_err("should timeout");

    match err {
        ExecError::Runner { source, .. } => match source {
            RunnerError::Timeout { .. } => {}
            other => panic!("expected timeout error, got {other:?}"),
        },
        other => panic!("expected runner timeout, got {other:?}"),
    }
}

#[test]
fn echo_transient_retries() {
    let mut runtime = default_runtime_policy();
    runtime.per_call_timeout_ms = 3_000;
    runtime.max_attempts = 5;
    runtime.base_backoff_ms = 50;
    let cfg = test_config(runtime);

    let args = obj(vec![
        ("flaky", Json::Bool(true)),
        ("message", Json::Str("hello".to_string())),
    ]);
    let expected = args.duplicate();

    let outcomes: Vec<Result<Json, ExecError>> = (0..5u32)
        .map(|attempt| {
            exec_test_backend(&TestBackend::NativeFlaky, attempt, args.duplicate(), &cfg)
        })
        .collect();

    let (result, attempts, total_backoff_ms) =
        exec_with_retries_script(outcomes, cfg.runtime.max_attempts, cfg.runtime.base_backoff_ms);
    let value = result.expect("flaky tool should eventually succeed");
    assert!(value.eq_val(&expected));
    assert_eq!(attempts, 3);
    // two sleeps of the linear schedule: 50 and 100 ms
    assert_eq!(total_backoff_ms, 150);
}

#[test]
fn single_attempt_returns_the_failure_at_once() {
    let outcomes: Vec<Result<Json, ExecError>> = vec![Err(ExecError::runner(
        "echo",
        RunnerError::Timeout { elapsed_ms: 30 },
    ))];
    let (result, attempts, total_backoff_ms) = exec_with_retries_script(outcomes, 1, 50);
    match result.expect_err("no retry happens") {
        ExecError::Runner { component, source } => {
            assert_eq!(component, "echo");
            assert!(matches!(source, RunnerError::Timeout { elapsed_ms: 30 }));
        }
        other => panic!("expected the timeout back, got {other:?}"),
    }
    assert_eq!(attempts, 1);
    assert_eq!(total_backoff_ms, 0);
}

#[test]
fn fatal_errors_are_never_retried() {
    let outcomes: Vec<Result<Json, ExecError>> = vec![
        Err(ExecError::not_found("missing")),
        Ok(Json::Null),
        Ok(Json::Null),
    ];
    let (result, attempts, total_backoff_ms) = exec_with_retries_script(outcomes, 3, 50);
    assert!(matches!(result, Err(ExecError::NotFound { .. })));
    assert_eq!(attempts, 1);
    assert_eq!(total_backoff_ms, 0);
}

#[test]
fn transient_classification_follows_the_code() {
    assert!(is_transient_error(&ExecError::runner(
        "echo",
        RunnerError::Timeout { elapsed_ms: 10 }
    )));
    assert!(is_transient_error(&ExecError::tool_error(
        "echo",
        "tool-invoke",
        "transient.echo",
        Json::Null
    )));
    assert!(!is_transient_error(&ExecError::tool_error(
        "echo",
        "tool-invoke",
        "fatal.echo",
        Json::Null
    )));
    assert!(!is_transient_error(&ExecError::runner(
        "echo",
        RunnerError::NotImplemented
    )));
    assert!(!is_transient_error(&ExecError::not_found("echo")));
}

#[test]
fn retry_decisions_follow_the_schedule() {
    let timeout = ExecError::runner("echo", RunnerError::Timeout { elapsed_ms: 10 });
    match retry_decision(&timeout, 1, 3, 50) {
        RetryDecision::RetryAfterMs(ms) => assert_eq!(ms, 50),
        RetryDecision::GiveUp => panic!("attempts remain"),
    }
    match retry_decision(&timeout, 2, 3, 50) {
        RetryDecision::RetryAfterMs(ms) => assert_eq!(ms, 100),
        RetryDecision::GiveUp => panic!("attempts remain"),
    }
    assert!(matches!(retry_decision(&timeout, 3, 3, 50), RetryDecision::GiveUp));
    assert!(matches!(retry_decision(&timeout, 1, 1, 50), RetryDecision::GiveUp));
    assert!(matches!(retry_decision(&timeout, 1, 0, 50), RetryDecision::GiveUp));

    let fatal = ExecError::not_found("echo");
    assert!(matches!(retry_decision(&fatal, 1, 5, 50), RetryDecision::GiveUp));

    assert_eq!(linear_backoff(u64::MAX, 2), u64::MAX);
}

#[test]
fn jittered_backoff_follows_the_formula() {
    // base 100, attempt 0, jitter 1.0: 100 * 1 * 1.0
    assert_eq!(backoff_with(100, 0, 1000), 100);
    // base 100, attempt 1, jitter 0.5: 100 * 2 * 0.5
    assert_eq!(backoff_with(100, 1, 500), 100);
    // base 100, attempt 2, jitter 1.5: 100 * 4 * 1.5
    assert_eq!(backoff_with(100, 2, 1500), 600);
    // a zero base counts as one millisecond before scaling
    assert_eq!(backoff_with(0, 0, 1000), 1);
    // rounding: 3 * 1 * 0.5 rounds half up to 2
    assert_eq!(backoff_with(3, 0, 500), 2);
    // the shift saturates at 2^16
    assert_eq!(backoff_with(1, 40, 1000), 65536);

    for attempt in 0..6u32 {
        let ms = backoff(100, attempt);
        let scale = 1u64 << attempt.min(16);
        assert!(ms >= 100 * scale / 2);
        assert!(ms <= 100 * scale * 3 / 2);
    }
}

#[test]
fn flaky_echo_succeeds_on_the_third_attempt() {
    let req = obj(vec![("message", Json::Str("hello".to_string()))]);
    assert_eq!(flaky_echo(&req, 0).expect_err("first fails"), "transient.echo");
    assert_eq!(flaky_echo(&req, 1).expect_err("second fails"), "transient.echo");
    assert!(flaky_echo(&req, 2).expect("third succeeds").eq_val(&req));
    assert!(echo(&req).expect("echo always succeeds").eq_val(&req));
}

#[test]
fn flaky_backend_reports_a_transient_tool_error() {
    let cfg = test_config(default_runtime_policy());
    let err = exec_test_backend(&TestBackend::NativeFlaky, 0, Json::Null, &cfg)
        .expect_err("first attempt fails");
    match &err {
        ExecError::Tool { component, action, code, .. } => {
            assert_eq!(component, "echo-flaky");
            assert_eq!(action, "tool-invoke");
            assert_eq!(code, "transient.echo");
        }
        other => panic!("expected a tool error, got {other:?}"),
    }
    assert!(is_transient_error(&err));
}

fn tool(name: &str) -> ToolRef {
    ToolRef {
        name: name.to_string(),
        component: format!("./{name}.wasm"),
        entry: "tool_invoke".to_string(),
        timeout_ms: None,
        max_retries: None,
        retry_backoff_ms: None,
    }
}

#[test]
fn tool_map_keeps_order_and_rejects_duplicates() {
    let config = ToolMapConfig { tools: vec![tool("echo"), tool("weather")] };
    let map = ToolMap::from_config(&config).expect("unique names");
    assert_eq!(map.get("echo").expect("registered").component, "./echo.wasm");
    assert_eq!(map.get("weather").expect("registered").name, "weather");
    match map.get("missing") {
        Err(McpError::ToolNotFound(name)) => assert_eq!(name, "missing"),
        other => panic!("expected ToolNotFound, got {other:?}"),
    }
    let listed = map.iter();
    assert_eq!(listed.len(), 2);
    assert_eq!(listed[0].0, "echo");
    assert_eq!(listed[1].0, "weather");

    let dup = ToolMapConfig { tools: vec![tool("echo"), tool("echo")] };
    match ToolMap::from_config(&dup) {
        Err(McpError::InvalidInput(msg)) => {
            assert_eq!(msg, "duplicate tool name `echo`");
        }
        Err(other) => panic!("expected InvalidInput, got {other:?}"),
        Ok(_) => panic!("duplicates must be rejected"),
    }
}

#[test]
fn tool_ref_defaults() {
    let t = tool("echo");
    assert_eq!(t.component_path(), "./echo.wasm");
    assert_eq!(t.timeout(), None);
    assert_eq!(t.max_retries(), 0);
    assert_eq!(t.retry_backoff(), 200);

    let t = ToolRef { timeout_ms: Some(1500), max_retries: Some(2), retry_backoff_ms: Some(75), ..tool("echo") };
    assert_eq!(t.timeout(), Some(1500));
    assert_eq!(t.max_retries(), 2);
    assert_eq!(t.retry_backoff(), 75);
}

#[test]
fn is_json_goes_by_extension_then_content() {
    assert!(is_json("config.json", "tools: []"));
    assert!(!is_json("config.yaml", r#"{"tools":[]}"#));
    assert!(!is_json("config.yml", r#"{"tools":[]}"#));
    assert!(is_json("config", r#"  {"tools":[]}"#));
    assert!(is_json("config", "\n\t[1]"));
    assert!(!is_json("config", "tools: []"));
    assert!(!is_json("config", ""));
    assert!(is_json("dir.yaml/config", r#"{"a":1}"#));
    assert!(!is_json(".json", "tools: []"));
}

#[test]
fn probe_outcomes_classify() {
    let ok = classify_probe(Ok(Json::Bool(true))).expect("data passes through");
    assert!(matches!(ok, Maybe::Data(Json::Bool(true))));

    let missing = classify_probe(Err(ExecError::not_found("echo"))).expect("not found is fine");
    assert!(matches!(missing, Maybe::Unsupported));

    let iface = classify_probe(Err(ExecError::tool_error(
        "echo",
        "capabilities",
        "iface-error.not-found",
        Json::Null,
    )))
    .expect("unsupported probe action");
    assert!(matches!(iface, Maybe::Unsupported));

    let other = classify_probe(Err(ExecError::runner("echo", RunnerError::NotImplemented)));
    assert!(matches!(other, Err(ExecError::Runner { .. })));
}

#[test]
fn capabilities_are_the_string_entries() {
    let value = Json::Arr(vec![
        Json::Str("get".to_string()),
        Json::Num("1".to_string()),
        Json::Str("put".to_string()),
        Json::Null,
    ]);
    assert_eq!(extract_capabilities(&value), vec!["get", "put"]);
    assert!(extract_capabilities(&Json::Null).is_empty());
    assert!(extract_capabilities(&obj(vec![])).is_empty());
}

#[test]
fn invocation_failures_classify_by_trap() {
    match classify_invocation(true, "echo", "wasm trap: out of bounds") {
        InvocationFailure::Transient(m) => assert_eq!(m, "wasm trap: out of bounds"),
        other => panic!("expected transient, got {other:?}"),
    }
    match classify_invocation(false, "echo", "bad import") {
        InvocationFailure::Fatal(McpError::ExecutionFailed(m)) => {
            assert_eq!(m, "tool `echo` failed: bad import");
        }
        other => panic!("expected fatal, got {other:?}"),
    }
}

#[test]
fn mcp_error_constructors_carry_their_fields() {
    match McpError::tool_not_found("echo") {
        McpError::ToolNotFound(name) => assert_eq!(name, "echo"),
        other => panic!("expected ToolNotFound, got {other:?}"),
    }
    match McpError::timeout("echo", 1500) {
        McpError::Timeout { name, timeout_ms } => {
            assert_eq!(name, "echo");
            assert_eq!(timeout_ms, 1500);
        }
        other => panic!("expected Timeout, got {other:?}"),
    }
}

#[test]
fn attempt_counter_reaches_the_tenant() {
    let mut req = ExecRequest {
        component: "echo".to_string(),
        action: "tool-invoke".to_string(),
        args: Json::Null,
        tenant: Some(TenantCtx::new("acme".to_string())),
    };
    req.set_attempt(3);
    let tenant = req.tenant.as_ref().expect("tenant kept");
    assert_eq!(tenant.tenant_id, "acme");
    assert_eq!(tenant.attempt, 2);

    let mut bare = ExecRequest {
        component: "echo".to_string(),
        action: "tool-invoke".to_string(),
        args: Json::Null,
        tenant: None,
    };
    bare.set_attempt(2);
    assert!(bare.tenant.is_none());
}

#[test]
fn json_values_compare_deeply() {
    let a = obj(vec![
        ("list", Json::Arr(vec![Json::Num("1".to_string()), Json::Bool(false)])),
        ("name", Json::Str("echo".to_string())),
    ]);
    let b = a.duplicate();
    assert!(a.eq_val(&b));

    let c = obj(vec![
        ("list", Json::Arr(vec![Json::Num("1".to_string()), Json::Bool(true)])),
        ("name", Json::Str("echo".to_string())),
    ]);
    assert!(!a.eq_val(&c));
    assert!(!a.eq_val(&Json::Null));

    match a.obj_get("name") {
        Some(Json::Str(s)) => assert_eq!(s, "echo"),
        other => panic!("expected the name, got {other:?}"),
    }
    assert!(a.obj_get("missing").is_none());
    assert!(Json::Null.obj_get("name").is_none());
}

#[test]
fn runtime_policy_defaults() {
    let d = RuntimePolicy::default();
    assert_eq!(d.per_call_timeout_ms, 30_000);
    assert_eq!(d.max_attempts, 1);
    assert_eq!(d.base_backoff_ms, 200);
    assert_eq!(d.wallclock_timeout_ms, 30_000);
    assert!(d.fuel.is_none());
    assert!(d.max_memory.is_none());

    let s = LocalStore::new(vec!["a".to_string()]);
    assert_eq!(s.expected_extension.as_deref(), Some("wasm"));

    let p = VerifyPolicy::default();
    assert!(!p.allow_unverified);
    assert!(p.required_digests.is_empty());
    assert!(p.trusted_signers.is_empty());
    assert!(p.required_digest_for("echo").is_none());

    let p2 = VerifyPolicy {
        allow_unverified: false,
        required_digests: vec![("echo".to_string(), "aa".to_string())],
        trusted_signers: Vec::new(),
    };
    assert_eq!(p2.required_digest_for("echo").as_deref(), Some("aa"));
}
