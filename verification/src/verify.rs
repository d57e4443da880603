//! Verification of resolved bytes against the digest policy.

use vstd::prelude::*;
use crate::config::VerifyPolicy;
use crate::digest::{digest_matches, spec_digest, spec_digest_matches};
use crate::error::VerificationError;
use crate::resolve::ResolvedArtifact;

verus! {

/// An artifact that passed verification.  `verified_digest` records the
/// digest the bytes were attested with; the signer stays `None` until
/// signing lands.
#[derive(Debug)]
pub struct VerifiedArtifact {
    pub resolved: ResolvedArtifact,
    pub verified_digest: Option<String>,
    pub verified_signer: Option<String>,
}

impl VerifiedArtifact {
    /// The resolved artifact is well formed and the attested digest is its
    /// digest: the bytes hash to what the artifact claims.
    pub open spec fn wf(&self) -> bool {
        &&& self.resolved.wf()
        &&& self.verified_digest matches Some(d) && d@ == self.resolved.digest@
        &&& self.verified_signer is None
    }
}

/// Attestation law: a verified artifact's bytes hash to the digest it
/// records, whatever bytes they are.
pub proof fn lemma_verified_digest(v: VerifiedArtifact)
    requires
        v.wf(),
    ensures
        v.verified_digest matches Some(d) && d@ == spec_digest(v.resolved.bytes@),
{
}

/// Holds the artifact to the policy.  With a required digest for the
/// component, verification succeeds exactly when the artifact's digest
/// matches it, case-insensitively; without one, it succeeds exactly when
/// the policy allows unverified artifacts.  The bytes are never changed.
pub fn verify(component: &str, artifact: ResolvedArtifact, policy: &VerifyPolicy) -> (r: Result<
    VerifiedArtifact,
    VerificationError,
>)
    requires
        artifact.wf(),
    ensures
        policy.spec_required_digest(component@) matches Some(d) ==> {
            &&& r is Ok <==> spec_digest_matches(artifact.digest@, d)
            &&& r matches Err(e) ==> e matches VerificationError::DigestMismatch {
                expected,
                actual,
            } && expected@ == d && actual@ == artifact.digest@
        },
        policy.spec_required_digest(component@) is None && !policy.allow_unverified ==> (
        r matches Err(e) && e is UnsignedRejected),
        policy.spec_required_digest(component@) is None && policy.allow_unverified ==> r is Ok,
        r matches Ok(v) ==> {
            &&& v.wf()
            &&& v.resolved.bytes@ == artifact.bytes@
            &&& v.resolved.digest@ == artifact.digest@
            &&& v.resolved.digest@ == spec_digest(v.resolved.bytes@)
            &&& v.resolved.origin == artifact.origin
        },
{
    match policy.required_digest_for(component) {
        Some(expected) => {
            if digest_matches(artifact.digest.as_str(), expected.as_str()) {
                Ok(
                    VerifiedArtifact {
                        verified_digest: Some(artifact.digest.clone()),
                        resolved: artifact,
                        verified_signer: None,
                    },
                )
            } else {
                Err(VerificationError::DigestMismatch { expected, actual: artifact.digest })
            }
        },
        None => {
            if policy.allow_unverified {
                Ok(
                    VerifiedArtifact {
                        verified_digest: Some(artifact.digest.clone()),
                        resolved: artifact,
                        verified_signer: None,
                    },
                )
            } else {
                Err(VerificationError::UnsignedRejected)
            }
        },
    }
}

} // verus!
