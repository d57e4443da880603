//! Host-side execution engine for sandboxed tool components.
//!
//! The pipeline resolves a named tool to artifact bytes, verifies the bytes
//! against a digest policy, and decides how a sandboxed invocation of the
//! tool proceeds: mock short-circuiting, wallclock enforcement, host
//! capability gating, and retry with backoff.

pub mod config;
pub mod describe;
pub mod digest;
pub mod error;
pub mod host;
pub mod json;
pub mod resolve;
pub mod retry;
pub mod runner;
pub mod tenant;
pub mod test_backend;
pub mod text;
pub mod tool_map;
pub mod types;
pub mod verify;

pub use config::{
    ExecConfig, HttpFileStore, LocalStore, OciAuth, OciStore, RuntimePolicy, ToolStore,
    VerifyPolicy, WargStore,
};
pub use error::{ExecError, ResolveError, RunnerError, VerificationError};
pub use json::Json;
pub use tenant::TenantCtx;

use vstd::prelude::*;
use crate::digest::{spec_digest, spec_digest_matches};
use crate::resolve::FileLookup;
use crate::verify::VerifiedArtifact;

verus! {

/// A single request against the pipeline: which component to run, which
/// action to invoke on it, and the JSON arguments handed to the guest.
#[derive(Debug)]
pub struct ExecRequest {
    pub component: String,
    pub action: String,
    pub args: Json,
    pub tenant: Option<TenantCtx>,
}

impl ExecRequest {
    /// Writes the zero-based attempt counter into the tenant context, when
    /// one is present, as the retry orchestrator does before each attempt.
    pub fn set_attempt(&mut self, attempt: u32)
        requires
            attempt >= 1,
        ensures
            final(self).component == old(self).component,
            final(self).action == old(self).action,
            final(self).args == old(self).args,
            match old(self).tenant {
                Some(t) => final(self).tenant matches Some(t2) && t2.tenant_id@ == t.tenant_id@
                    && t2.environment == t.environment && t2.attempt == attempt - 1,
                None => final(self).tenant is None,
            },
    {
        let new_tenant = match &self.tenant {
            Some(t) => Some(
                TenantCtx {
                    tenant_id: t.tenant_id.clone(),
                    environment: match &t.environment {
                        Some(e) => Some(e.clone()),
                        None => None,
                    },
                    attempt: attempt - 1,
                },
            ),
            None => None,
        };
        self.tenant = new_tenant;
    }
}

/// The pipeline's first half: the store probing outcome becomes a resolved
/// artifact, which is held to the verification policy.  The runner never
/// sees an artifact that did not pass here.
pub fn resolve_and_verify(
    component: &str,
    store: &ToolStore,
    lookup: FileLookup,
    policy: &VerifyPolicy,
) -> (r: Result<VerifiedArtifact, ExecError>)
    ensures
        r matches Ok(v) ==> v.wf(),
        store is Oci ==> ({
            &&& r matches Err(e)
            &&& e matches ExecError::Resolve { component: c, source }
            &&& c@ == component@
            &&& source is OciNotImplemented
        }),
        store is Warg ==> ({
            &&& r matches Err(e)
            &&& e matches ExecError::Resolve { component: c, source }
            &&& c@ == component@
            &&& source is WargNotImplemented
        }),
        !(store is Oci) && !(store is Warg) ==> match lookup {
            FileLookup::Found { path, bytes } => match policy.spec_required_digest(component@) {
                Some(d) => {
                    if spec_digest_matches(spec_digest(bytes@), d) {
                        r matches Ok(v) && v.resolved.bytes@ == bytes@ && v.resolved.digest@
                            == spec_digest(bytes@)
                    } else {
                        {
                            &&& r matches Err(e)
                            &&& e matches ExecError::Verification { component: c, source }
                            &&& c@ == component@
                            &&& source matches VerificationError::DigestMismatch {
                                expected,
                                actual,
                            }
                            &&& expected@ == d
                            &&& actual@ == spec_digest(bytes@)
                        }
                    }
                },
                None => {
                    if policy.allow_unverified {
                        r matches Ok(v) && v.resolved.bytes@ == bytes@ && v.resolved.digest@
                            == spec_digest(bytes@)
                    } else {
                        {
                            &&& r matches Err(e)
                            &&& e matches ExecError::Verification { component: c, source }
                            &&& c@ == component@
                            &&& source is UnsignedRejected
                        }
                    }
                },
            },
            FileLookup::Missing => ({
                &&& r matches Err(e)
                &&& e matches ExecError::Resolve { component: c, source }
                &&& c@ == component@
                &&& source is NotFound
            }),
            FileLookup::IoError { message } => ({
                &&& r matches Err(e)
                &&& e matches ExecError::Resolve { component: c, source }
                &&& c@ == component@
                &&& source matches ResolveError::Io(m)
                &&& m@ == message@
            }),
            FileLookup::FetchError { message } => ({
                &&& r matches Err(e)
                &&& e matches ExecError::Resolve { component: c, source }
                &&& c@ == component@
                &&& source matches ResolveError::HttpFetch(m)
                &&& m@ == message@
            }),
        },
{
    let artifact = match resolve::resolve(component, store, lookup) {
        Ok(a) => a,
        Err(e) => {
            return Err(ExecError::resolve(component, e));
        },
    };
    match verify::verify(component, artifact, policy) {
        Ok(v) => Ok(v),
        Err(e) => Err(ExecError::verification(component, e)),
    }
}

} // verus!
