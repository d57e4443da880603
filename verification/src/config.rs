//! Configuration for a single executor invocation: where artifacts come
//! from, how they must be verified, and the runtime limits applied to the
//! sandboxed call.

use vstd::prelude::*;
use vstd::string::StringExecFns;

verus! {

/// Configuration for a single executor invocation.
#[derive(Clone, Debug)]
pub struct ExecConfig {
    pub store: ToolStore,
    pub security: VerifyPolicy,
    pub runtime: RuntimePolicy,
    pub http_enabled: bool,
}

/// Supported tool stores that can be resolved into runnable artifacts.
#[derive(Clone, Debug)]
pub enum ToolStore {
    /// A single directory searched with the default extension rules.
    LocalDir(String),
    /// A local filesystem lookup strategy over several roots.
    Local(LocalStore),
    /// An OCI registry (resolution not implemented).
    Oci(OciStore),
    /// A Warg registry (resolution not implemented).
    Warg(WargStore),
    /// A single file fetched over HTTP and cached on disk.
    HttpSingleFile(HttpFileStore),
}

/// Local filesystem lookup strategy.
#[derive(Clone, Debug)]
pub struct LocalStore {
    pub search_paths: Vec<String>,
    pub expected_extension: Option<String>,
}

impl LocalStore {
    pub fn new(search_paths: Vec<String>) -> (s: Self)
        ensures
            s.search_paths == search_paths,
            s.expected_extension matches Some(e) && e@ == "wasm"@,
    {
        LocalStore { search_paths, expected_extension: Some(String::from_str("wasm")) }
    }
}

/// OCI registry configuration.
#[derive(Clone, Debug)]
pub struct OciStore {
    pub registry: String,
    pub repository: String,
    pub reference: Option<String>,
    pub auth: Option<OciAuth>,
}

/// Authentication options for OCI registries.
#[derive(Clone, Debug)]
pub enum OciAuth {
    Anonymous,
    BearerToken(String),
    UsernamePassword { username: String, password: String },
}

/// Warg registry configuration.
#[derive(Clone, Debug)]
pub struct WargStore {
    pub server: String,
    pub package: String,
    pub reference: Option<String>,
}

/// A single artifact fetched from a URL and cached under
/// `cache_dir/<name>.wasm`.
#[derive(Clone, Debug)]
pub struct HttpFileStore {
    pub name: String,
    pub url: String,
    pub cache_dir: String,
}

/// First-match lookup of a required digest by component name.
pub open spec fn spec_digest_lookup(entries: Seq<(String, String)>, name: Seq<char>) -> Option<
    Seq<char>,
>
    decreases entries.len(),
{
    if entries.len() == 0 {
        None
    } else if entries[0].0@ == name {
        Some(entries[0].1@)
    } else {
        spec_digest_lookup(entries.drop_first(), name)
    }
}

/// Policy describing how artifacts must be verified prior to execution.
#[derive(Clone, Debug)]
pub struct VerifyPolicy {
    /// Whether artifacts without a matching digest entry are still allowed.
    pub allow_unverified: bool,
    /// Expected digests (hex encoded) keyed by component identifier.
    pub required_digests: Vec<(String, String)>,
    /// Signers that are trusted to vouch for artifacts; accepted but not
    /// consulted until signing lands.
    pub trusted_signers: Vec<String>,
}

impl VerifyPolicy {
    /// The digest the policy requires of `name`, if any.
    pub open spec fn spec_required_digest(&self, name: Seq<char>) -> Option<Seq<char>> {
        spec_digest_lookup(self.required_digests@, name)
    }

    pub fn required_digest_for(&self, name: &str) -> (r: Option<String>)
        ensures
            match r {
                Some(d) => self.spec_required_digest(name@) == Some(d@),
                None => self.spec_required_digest(name@) is None,
            },
    {
        let name_owned: String = name.to_owned();
        let n = self.required_digests.len();
        proof {
            assert(self.required_digests@.skip(0) =~= self.required_digests@);
        }
        let mut i: usize = 0;
        while i < n
            invariant
                n == self.required_digests.len(),
                i <= n,
                name_owned@ == name@,
                spec_digest_lookup(self.required_digests@, name@) == spec_digest_lookup(
                    self.required_digests@.skip(i as int),
                    name@,
                ),
            decreases n - i,
        {
            proof {
                assert(self.required_digests@.skip(i as int)[0] == self.required_digests@[i as int]);
                assert(self.required_digests@.skip(i as int).drop_first() =~= self.required_digests@.skip(
                    i as int + 1,
                ));
            }
            if self.required_digests[i].0 == name_owned {
                return Some(self.required_digests[i].1.clone());
            }
            i = i + 1;
        }
        proof {
            assert(self.required_digests@.skip(n as int).len() == 0);
        }
        None
    }
}

impl Default for VerifyPolicy {
    fn default() -> (d: Self)
        ensures
            !d.allow_unverified,
            d.required_digests@ == Seq::<(String, String)>::empty(),
            d.trusted_signers@ == Seq::<String>::empty(),
    {
        VerifyPolicy {
            allow_unverified: false,
            required_digests: Vec::new(),
            trusted_signers: Vec::new(),
        }
    }
}

/// Runtime resource limits applied to a sandboxed execution.  Durations are
/// carried as milliseconds.
#[derive(Clone, Copy, Debug)]
pub struct RuntimePolicy {
    pub fuel: Option<u64>,
    pub max_memory: Option<u64>,
    /// Outer deadline on the whole runner invocation.
    pub per_call_timeout_ms: u64,
    /// How many attempts the retry orchestrator may make in total.
    pub max_attempts: u32,
    /// Base delay of the linear retry schedule.
    pub base_backoff_ms: u64,
    /// Inner sanity bound on the measured duration of the guest call.
    pub wallclock_timeout_ms: u64,
}

impl Default for RuntimePolicy {
    fn default() -> (d: Self)
        ensures
            d.fuel is None,
            d.max_memory is None,
            d.per_call_timeout_ms == 30000,
            d.max_attempts == 1,
            d.base_backoff_ms == 200,
            d.wallclock_timeout_ms == 30000,
    {
        RuntimePolicy {
            fuel: None,
            max_memory: None,
            per_call_timeout_ms: 30000,
            max_attempts: 1,
            base_backoff_ms: 200,
            wallclock_timeout_ms: 30000,
        }
    }
}

} // verus!
