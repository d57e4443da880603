//! The runner's decision core.  The surrounding host owns the sandbox: it
//! compiles the artifact, instantiates it and calls the guest's `exec`
//! export on a worker under the per-call deadline.  Everything the runner
//! decides — how the engine is configured, the mock short-circuit taken
//! when compilation fails, the wallclock check and the decoding of the
//! guest's reply — stands here with a contract.

use vstd::prelude::*;
use vstd::string::StringSliceAdditionalSpecFns;
use crate::config::RuntimePolicy;
use crate::error::RunnerError;
use crate::json::{parse_json, spec_obj_lookup, spec_parse_json, Json, JsonModel};

verus! {

/// Per-call execution context handed to a runner.
pub struct ExecutionContext<'a> {
    pub runtime: &'a RuntimePolicy,
    pub http_enabled: bool,
}

/// How a fresh sandbox engine is configured for one call.
#[derive(Clone, Copy, Debug, PartialEq, Eq, Structural)]
pub struct EngineSettings {
    pub component_model: bool,
    pub async_support: bool,
    pub epoch_interruption: bool,
    pub consume_fuel: bool,
}

/// A fresh engine supports the component model, runs no async host, uses
/// epoch interruption for wallclock teardown, and accounts fuel exactly
/// when the policy sets a fuel limit.
pub fn engine_settings(runtime: &RuntimePolicy) -> (s: EngineSettings)
    ensures
        s.component_model,
        !s.async_support,
        s.epoch_interruption,
        s.consume_fuel == (runtime.fuel is Some),
{
    EngineSettings {
        component_model: true,
        async_support: false,
        epoch_interruption: true,
        consume_fuel: runtime.fuel.is_some(),
    }
}

/// What the mock short-circuit decides for the parsed artifact bytes.
pub enum SpecMockOutcome {
    /// The bytes are no mock artifact: surface the original sandbox error.
    NotMock,
    /// The canned response registered for the action.
    Found(JsonModel),
    /// A mock artifact without a response for the action.
    MissingAction,
}

/// The mock rule: bytes that parse as a JSON object with
/// `"_mock_mcp_exec": true` and an object member `"responses"` answer
/// `responses[action]` verbatim, or fail with a missing action.
pub open spec fn spec_mock_outcome(parsed: Option<JsonModel>, action: Seq<char>) -> SpecMockOutcome {
    match parsed {
        None => SpecMockOutcome::NotMock,
        Some(root) => {
            if root.get("_mock_mcp_exec"@) != Some(JsonModel::Bool(true)) {
                SpecMockOutcome::NotMock
            } else {
                match root.get("responses"@) {
                    Some(responses) => match responses {
                        JsonModel::Obj(fields) => match spec_obj_lookup(fields, action) {
                            Some(v) => SpecMockOutcome::Found(v),
                            None => SpecMockOutcome::MissingAction,
                        },
                        _ => SpecMockOutcome::NotMock,
                    },
                    None => SpecMockOutcome::NotMock,
                }
            }
        },
    }
}

/// The mock short-circuit tried before a compile failure is reported.
pub fn try_mock_json(bytes: &[u8], action: &str) -> (r: Option<Result<Json, RunnerError>>)
    ensures
        match spec_mock_outcome(spec_parse_json(bytes@), action@) {
            SpecMockOutcome::NotMock => r is None,
            SpecMockOutcome::Found(v) => (r matches Some(res) && res matches Ok(out) && out@ == v),
            SpecMockOutcome::MissingAction => (r matches Some(res) && res matches Err(e)
                && e matches RunnerError::ActionNotFound { action: a } && a@ == action@),
        },
{
    let root = match parse_json(bytes) {
        Ok(v) => v,
        Err(_) => {
            return None;
        },
    };
    let enabled = match root.obj_get("_mock_mcp_exec") {
        Some(flag) => match flag {
            Json::Bool(b) => *b,
            _ => false,
        },
        None => false,
    };
    if !enabled {
        return None;
    }
    let responses = match root.obj_get("responses") {
        Some(r) => r,
        None => {
            return None;
        },
    };
    match responses {
        Json::Obj(_) => {},
        _ => {
            return None;
        },
    }
    match responses.obj_get(action) {
        Some(v) => Some(Ok(v.duplicate())),
        None => Some(Err(RunnerError::ActionNotFound { action: action.to_owned() })),
    }
}

/// Decides what a guest reply means: a call measured over the wallclock
/// bound times out even though it returned; otherwise the reply must be
/// valid JSON and a successful call returns exactly its parsed value.
pub fn decode_exec_result(raw: &str, elapsed_ms: u64, wallclock_timeout_ms: u64) -> (r: Result<
    Json,
    RunnerError,
>)
    ensures
        elapsed_ms > wallclock_timeout_ms ==> (r matches Err(e) && e matches RunnerError::Timeout {
            elapsed_ms: t,
        } && t == elapsed_ms),
        elapsed_ms <= wallclock_timeout_ms ==> match spec_parse_json(raw.spec_bytes()) {
            Some(v) => (r matches Ok(out) && out@ == v),
            None => (r matches Err(e) && e is Serde),
        },
{
    if elapsed_ms > wallclock_timeout_ms {
        return Err(RunnerError::Timeout { elapsed_ms });
    }
    match parse_json(raw.as_bytes()) {
        Ok(v) => Ok(v),
        Err(m) => Err(RunnerError::Serde(m)),
    }
}

} // verus!
