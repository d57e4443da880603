//! Layered error taxonomy of the pipeline.  Each nested error keeps the
//! component (and, where applicable, the action) it arose from.

use vstd::prelude::*;
use crate::json::Json;

verus! {

/// Failures while locating artifact bytes.
#[derive(Debug)]
pub enum ResolveError {
    /// No artifact matched the component name in the configured store(s).
    NotFound,
    /// Reading a located artifact from disk failed.
    Io(String),
    /// Fetching a remote artifact over HTTP failed.
    HttpFetch(String),
    OciNotImplemented,
    WargNotImplemented,
}

/// Failures while holding resolved bytes to the verification policy.
#[derive(Debug)]
pub enum VerificationError {
    DigestMismatch { expected: String, actual: String },
    UnsignedRejected,
}

/// Failures while executing a verified artifact in the sandbox.
#[derive(Debug)]
pub enum RunnerError {
    /// The call exceeded a deadline; `elapsed_ms` is the enforced or
    /// measured duration.
    Timeout { elapsed_ms: u64 },
    /// Compile, link, instantiate or type-mismatch failure in the sandbox.
    Sandbox(String),
    /// The mock short-circuit had no response for the requested action.
    ActionNotFound { action: String },
    /// Malformed JSON going into or coming out of the guest.
    Serde(String),
    /// Engine construction or worker failures.
    Internal(String),
    /// The runner is not implemented for this configuration.
    NotImplemented,
}

/// Top-level pipeline error.
#[derive(Debug)]
pub enum ExecError {
    Resolve { component: String, source: ResolveError },
    Verification { component: String, source: VerificationError },
    Runner { component: String, source: RunnerError },
    /// An error reported by the tool itself; `code` is a dotted string and
    /// codes starting with `transient.` are retryable.
    Tool { component: String, action: String, code: String, payload: Json },
    /// Convenience flattening of `Resolve::NotFound`.
    NotFound { component: String },
}

impl ExecError {
    pub fn resolve(component: &str, source: ResolveError) -> (e: Self)
        ensures
            e matches ExecError::Resolve { component: c, source: s } && c@ == component@ && s
                == source,
    {
        ExecError::Resolve { component: component.to_owned(), source }
    }

    pub fn verification(component: &str, source: VerificationError) -> (e: Self)
        ensures
            e matches ExecError::Verification { component: c, source: s } && c@ == component@ && s
                == source,
    {
        ExecError::Verification { component: component.to_owned(), source }
    }

    pub fn runner(component: &str, source: RunnerError) -> (e: Self)
        ensures
            e matches ExecError::Runner { component: c, source: s } && c@ == component@ && s
                == source,
    {
        ExecError::Runner { component: component.to_owned(), source }
    }

    pub fn tool_error(component: &str, action: &str, code: &str, payload: Json) -> (e: Self)
        ensures
            e matches ExecError::Tool { component: c, action: a, code: k, payload: p } && c@
                == component@ && a@ == action@ && k@ == code@ && p == payload,
    {
        ExecError::Tool {
            component: component.to_owned(),
            action: action.to_owned(),
            code: code.to_owned(),
            payload,
        }
    }

    pub fn not_found(component: &str) -> (e: Self)
        ensures
            e matches ExecError::NotFound { component: c } && c@ == component@,
    {
        ExecError::NotFound { component: component.to_owned() }
    }
}

} // verus!
