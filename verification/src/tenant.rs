//! Tenant context threaded through a call; the retry orchestrator writes the
//! zero-based attempt counter before each attempt.

use vstd::prelude::*;

verus! {

#[derive(Clone, Debug, PartialEq, Eq)]
pub struct TenantCtx {
    pub tenant_id: String,
    pub environment: Option<String>,
    /// Zero-based attempt counter, written by the retry orchestrator.
    pub attempt: u32,
}

impl TenantCtx {
    pub fn new(tenant_id: String) -> (t: Self)
        ensures
            t.tenant_id == tenant_id,
            t.environment is None,
            t.attempt == 0,
    {
        TenantCtx { tenant_id, environment: None, attempt: 0 }
    }
}

} // verus!
