//! Native test backends: tools that run without a sandbox so the retry
//! and timeout behaviour of the pipeline can be driven deterministically.
//! Flakiness is injected through the explicit attempt counter, never
//! through process-wide state.

use vstd::prelude::*;
use crate::config::ExecConfig;
use crate::error::{ExecError, RunnerError};
use crate::json::Json;

verus! {

/// Test-only backends that run native tools without a sandbox.
pub enum TestBackend {
    /// Returns its input unchanged.
    NativeEcho,
    /// Fails with a transient tool error on the first two attempts, then
    /// echoes.
    NativeFlaky,
    /// Stands for a guest that sleeps this long before echoing.
    NativeTimeout { sleep_ms: u64 },
}

/// Echoes the request unchanged.
pub fn echo(req: &Json) -> (r: Result<Json, String>)
    ensures
        r matches Ok(v) && v@ == req@,
{
    Ok(req.duplicate())
}

/// Echoes from the third attempt on; the first two attempts (zero-based
/// counter 0 and 1) fail with the message `transient.echo`.
pub fn flaky_echo(req: &Json, attempt: u32) -> (r: Result<Json, String>)
    ensures
        attempt < 2 ==> (r matches Err(m) && m@ == "transient.echo"@),
        attempt >= 2 ==> (r matches Ok(v) && v@ == req@),
{
    if attempt < 2 {
        Err("transient.echo".to_owned())
    } else {
        Ok(req.duplicate())
    }
}

/// Builds the payload a tool error carries: `{"message": <message>}`.
fn tool_error(component: &str, action: &str, code: &str, message: String) -> (e: ExecError)
    ensures
        ({
            &&& e matches ExecError::Tool { component: c, action: a, code: k, payload }
            &&& c@ == component@
            &&& a@ == action@
            &&& k@ == code@
            &&& payload@.get("message"@) matches Some(m)
            &&& m == crate::json::JsonModel::Str(message@)
        }),
{
    let ghost msg_view = message@;
    let mut fields_vec: Vec<(String, Json)> = Vec::new();
    fields_vec.push(("message".to_owned(), Json::Str(message)));
    let payload = Json::Obj(fields_vec);
    proof {
        assert(fields_vec@.len() == 1);
        assert(fields_vec@[0].0@ == "message"@);
        assert(crate::json::json_model(fields_vec@[0].1) == crate::json::JsonModel::Str(msg_view));
        let fm = payload@->Obj_0;
        assert(fm.len() == 1);
        assert(fm[0] == (fields_vec@[0].0@, crate::json::json_model(fields_vec@[0].1)));
        assert(crate::json::spec_obj_lookup(fm, "message"@) == Some(
            crate::json::JsonModel::Str(msg_view),
        ));
        assert(payload@.get("message"@) == Some(crate::json::JsonModel::Str(msg_view)));
    }
    ExecError::tool_error(component, action, code, payload)
}

/// Runs a native test backend for one attempt (zero-based).  The echo
/// backend returns its input unchanged; the flaky backend reports a
/// `transient.echo` tool error on the first two attempts; the timeout
/// backend times out exactly when its sleep exceeds the per-call deadline.
pub fn exec_test_backend(backend: &TestBackend, attempt: u32, input: Json, cfg: &ExecConfig) -> (r:
    Result<Json, ExecError>)
    ensures
        backend is NativeEcho ==> (r matches Ok(v) && v@ == input@),
        backend is NativeFlaky && attempt < 2 ==> ({
            &&& r matches Err(e)
            &&& e matches ExecError::Tool { component, action, code, .. }
            &&& component@ == "echo-flaky"@
            &&& action@ == "tool-invoke"@
            &&& code@ == "transient.echo"@
        }),
        backend is NativeFlaky && attempt >= 2 ==> (r matches Ok(v) && v@ == input@),
        backend matches TestBackend::NativeTimeout { sleep_ms } ==> {
            if sleep_ms > cfg.runtime.per_call_timeout_ms {
                &&& r matches Err(e)
                &&& e matches ExecError::Runner { component, source }
                &&& component@ == "echo-timeout"@
                &&& source matches RunnerError::Timeout { elapsed_ms }
                &&& elapsed_ms == cfg.runtime.per_call_timeout_ms
            } else {
                r matches Ok(v) && v@ == input@
            }
        },
{
    match backend {
        TestBackend::NativeEcho => Ok(input),
        TestBackend::NativeFlaky => {
            match flaky_echo(&input, attempt) {
                Ok(v) => Ok(v),
                Err(message) => Err(
                    tool_error("echo-flaky", "tool-invoke", "transient.echo", message),
                ),
            }
        },
        TestBackend::NativeTimeout { sleep_ms } => {
            if *sleep_ms > cfg.runtime.per_call_timeout_ms {
                Err(
                    ExecError::runner(
                        "echo-timeout",
                        RunnerError::Timeout { elapsed_ms: cfg.runtime.per_call_timeout_ms },
                    ),
                )
            } else {
                Ok(input)
            }
        },
    }
}

} // verus!
