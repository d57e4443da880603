//! Resolution of a component name into artifact bytes with a content
//! digest.  Probing the filesystem or the network is the surrounding
//! host's job; it hands the outcome in as a [`FileLookup`] and this module
//! turns it into a [`ResolvedArtifact`] or the exact error the store
//! semantics call for.

use vstd::prelude::*;
use vstd::string::{StrSliceExecFns, StringExecFns};
use std::sync::Arc;
use crate::config::ToolStore;
use crate::digest::{compute_digest, spec_digest};
use crate::error::ResolveError;
use crate::text::{spec_ends_with, str_ends_with};

verus! {

/// Where resolved bytes came from.
#[derive(Clone, Debug)]
pub enum ArtifactOrigin {
    Local(String),
    Oci { reference: String },
    Warg { package: String, reference: Option<String> },
}

/// Artifact bytes with their content digest.  The bytes are shared, not
/// copied, across the verification and runner boundaries.
#[derive(Clone, Debug)]
pub struct ResolvedArtifact {
    pub origin: ArtifactOrigin,
    pub bytes: Arc<Vec<u8>>,
    pub digest: String,
}

impl ResolvedArtifact {
    /// The digest field is the lowercase hex SHA-256 of the bytes.
    pub open spec fn wf(&self) -> bool {
        self.digest@ == spec_digest(self.bytes@)
    }

}

/// Digest stability: artifacts resolved from equal bytes carry equal
/// digests, however often and wherever they were resolved.
pub proof fn lemma_digest_stability(a1: ResolvedArtifact, a2: ResolvedArtifact)
    requires
        a1.wf(),
        a2.wf(),
        a1.bytes@ == a2.bytes@,
    ensures
        a1.digest@ == a2.digest@,
{
}

/// The outcome of probing a store for a component's bytes, handed in by
/// the I/O layer around the library.
pub enum FileLookup {
    /// A candidate file was found and read whole.
    Found { path: String, bytes: Vec<u8> },
    /// A candidate file was found but could not be read.
    IoError { message: String },
    /// A remote fetch failed.
    FetchError { message: String },
    /// No candidate matched.
    Missing,
}

/// The file names under which a component may be stored, in the order they
/// are to be tried.
pub open spec fn spec_candidate_file_names(component: Seq<char>, extension: Option<Seq<char>>) -> Seq<
    Seq<char>,
> {
    let base: Seq<Seq<char>> = seq![component];
    let with_ext: Seq<Seq<char>> = match extension {
        Some(ext) => {
            if !spec_ends_with(component, "."@ + ext) {
                base.push(component + "."@ + ext)
            } else {
                base
            }
        },
        None => base,
    };
    let with_wasm: Seq<Seq<char>> = if !spec_ends_with(component, ".wasm"@) {
        with_ext.push(component + ".wasm"@)
    } else {
        with_ext
    };
    if !spec_ends_with(component, ".component.wasm"@) {
        with_wasm.push(component + ".component.wasm"@)
    } else {
        with_wasm
    }
}

/// Candidate file names for a component: the name verbatim; the name with
/// the expected extension appended unless it already ends with it; then
/// `<name>.wasm` and `<name>.component.wasm` under the same rule.
pub fn candidate_file_names(component: &str, extension: Option<&str>) -> (r: Vec<String>)
    ensures
        r@.len() == spec_candidate_file_names(
            component@,
            match extension {
                Some(e) => Some(e@),
                None => None,
            },
        ).len(),
        forall|i: int|
            0 <= i < r@.len() ==> r@[i]@ == spec_candidate_file_names(
                component@,
                match extension {
                    Some(e) => Some(e@),
                    None => None,
                },
            )[i],
{
    let ghost spec_names = spec_candidate_file_names(
        component@,
        match extension {
            Some(e) => Some(e@),
            None => None,
        },
    );
    let mut names: Vec<String> = Vec::new();
    names.push(component.to_owned());
    if let Some(ext) = extension {
        let dotted = String::from_str(".").concat(ext);
        if !str_ends_with(component, dotted.as_str()) {
            names.push(component.to_owned().concat(dotted.as_str()));
        }
    }
    if !str_ends_with(component, ".wasm") {
        names.push(component.to_owned().concat(".wasm"));
    }
    if !str_ends_with(component, ".component.wasm") {
        names.push(component.to_owned().concat(".component.wasm"));
    }
    proof {
        assert forall|i: int| 0 <= i < names@.len() implies names@[i]@ == spec_names[i] by {
            assert(names@.len() == spec_names.len());
        }
    }
    names
}

/// Turns the store kind and the probing outcome into the resolved artifact
/// or the error the store semantics prescribe.  OCI and Warg stores are not
/// implemented; for the others the outcome decides: found bytes become an
/// artifact with their digest, a read failure is `Io`, a fetch failure is
/// `HttpFetch`, and nothing found is `NotFound`.
pub fn resolve(component: &str, store: &ToolStore, lookup: FileLookup) -> (r: Result<
    ResolvedArtifact,
    ResolveError,
>)
    ensures
        store is Oci ==> (r matches Err(e) && e is OciNotImplemented),
        store is Warg ==> (r matches Err(e) && e is WargNotImplemented),
        !(store is Oci) && !(store is Warg) ==> match lookup {
            FileLookup::Found { path, bytes } => {
                &&& r matches Ok(a)
                &&& a.wf()
                &&& a.bytes@ == bytes@
                &&& a.digest@ == spec_digest(bytes@)
                &&& a.origin matches ArtifactOrigin::Local(p)
                &&& p@ == path@
            },
            FileLookup::IoError { message } => r matches Err(e) && e matches ResolveError::Io(m)
                && m@ == message@,
            FileLookup::FetchError { message } => r matches Err(e) && e matches ResolveError::HttpFetch(
                m,
            ) && m@ == message@,
            FileLookup::Missing => r matches Err(e) && e is NotFound,
        },
{
    match store {
        ToolStore::Oci(_) => Err(ResolveError::OciNotImplemented),
        ToolStore::Warg(_) => Err(ResolveError::WargNotImplemented),
        _ => match lookup {
            FileLookup::Found { path, bytes } => {
                let digest = compute_digest(bytes.as_slice());
                Ok(ResolvedArtifact { origin: ArtifactOrigin::Local(path), bytes: Arc::new(bytes), digest })
            },
            FileLookup::IoError { message } => Err(ResolveError::Io(message)),
            FileLookup::FetchError { message } => Err(ResolveError::HttpFetch(message)),
            FileLookup::Missing => Err(ResolveError::NotFound),
        },
    }
}

} // verus!
