//! Resolution, digesting and verification, end to end over in-memory
//! artifact bytes.

use mcp_exec::config::{LocalStore, ToolStore, VerifyPolicy, OciStore, WargStore};
use mcp_exec::digest::{compute_digest, digest_matches};
use mcp_exec::error::{ExecError, ResolveError, VerificationError};
use mcp_exec::resolve::{candidate_file_names, resolve, ArtifactOrigin, FileLookup};
use mcp_exec::resolve_and_verify;
use mcp_exec::verify::verify;

const FAKE_DIGEST: &str = "cc2919bd23dc402f861854d8e5c7f0c76d49b1a0bac4c4f7e05db5c13b7b155f";

fn local_store() -> ToolStore {
    ToolStore::Local(LocalStore::new(vec!["tools".to_string()]))
}

fn found(bytes: &[u8]) -> FileLookup {
    FileLookup::Found { path: "tools/echo.component.wasm".to_string(), bytes: bytes.to_vec() }
}

#[test]
fn digest_of_known_bytes() {
    assert_eq!(compute_digest(b"fake wasm contents"), FAKE_DIGEST);
    assert_eq!(
        compute_digest(b""),
        "e3b0c44298fc1c149afbf4c8996fb92427ae41e4649b934ca495991b7852b855"
    );
    assert_eq!(
        compute_digest(b"abc"),
        "ba7816bf8f01cfea414140de5dae2223b00361a396177a9cb410ff61f20015ad"
    );
}

#[test]
fn digest_is_stable_across_resolves() {
    let a = resolve("echo", &local_store(), found(b"fake wasm contents")).expect("resolve");
    let b = resolve("echo", &local_store(), found(b"fake wasm contents")).expect("resolve again");
    assert_eq!(a.digest, b.digest);
    assert_eq!(a.digest, FAKE_DIGEST);
}

#[test]
fn digest_match_is_case_insensitive() {
    assert!(digest_matches("AbCdEf0123", "aBcDeF0123"));
    assert!(digest_matches(FAKE_DIGEST, &FAKE_DIGEST.to_uppercase()));
    assert!(!digest_matches("00", "01"));
    assert!(!digest_matches("0", "00"));
}

#[test]
fn candidates_follow_the_naming_rules() {
    let names = candidate_file_names("echo", Some("wasm"));
    assert_eq!(names, vec!["echo", "echo.wasm", "echo.wasm", "echo.component.wasm"]);

    let names = candidate_file_names("echo.component", Some("wasm"));
    assert_eq!(
        names,
        vec![
            "echo.component",
            "echo.component.wasm",
            "echo.component.wasm",
            "echo.component.component.wasm"
        ]
    );

    let names = candidate_file_names("echo.wasm", Some("wasm"));
    assert_eq!(names, vec!["echo.wasm", "echo.wasm.component.wasm"]);

    let names = candidate_file_names("echo", None);
    assert_eq!(names, vec!["echo", "echo.wasm", "echo.component.wasm"]);
}

#[test]
fn local_resolve_and_verify_success() {
    let bytes = b"fake wasm contents";
    let digest = resolve("echo.component", &local_store(), found(bytes))
        .expect("resolve")
        .digest;

    let policy = VerifyPolicy {
        allow_unverified: false,
        required_digests: vec![("echo.component".to_string(), digest.clone())],
        trusted_signers: Vec::new(),
    };

    let resolved =
        resolve("echo.component", &local_store(), found(bytes)).expect("resolve second time");
    let verified = verify("echo.component", resolved, &policy).expect("verify");

    assert_eq!(verified.resolved.digest, digest);
    assert_eq!(verified.verified_digest.as_deref(), Some(digest.as_str()));
    assert!(verified.verified_signer.is_none());
    assert_eq!(verified.resolved.bytes.as_slice(), bytes);
}

#[test]
fn verify_rejects_digest_mismatch() {
    let zeros = "0".repeat(64);
    let policy = VerifyPolicy {
        allow_unverified: false,
        required_digests: vec![("echo".to_string(), zeros.clone())],
        trusted_signers: Vec::new(),
    };
    let err = resolve_and_verify("echo", &local_store(), found(b"fake wasm contents"), &policy)
        .expect_err("must reject");
    match err {
        ExecError::Verification { component, source } => {
            assert_eq!(component, "echo");
            match source {
                VerificationError::DigestMismatch { expected, actual } => {
                    assert_eq!(expected, zeros);
                    assert_eq!(actual, FAKE_DIGEST);
                }
                other => panic!("expected a digest mismatch, got {other:?}"),
            }
        }
        other => panic!("expected a verification error, got {other:?}"),
    }
}

#[test]
fn verify_rejects_unsigned_when_policy_disallows() {
    let policy = VerifyPolicy {
        allow_unverified: false,
        required_digests: Vec::new(),
        trusted_signers: Vec::new(),
    };
    let resolved = resolve("echo", &local_store(), found(b"x")).expect("resolve");
    match verify("echo", resolved, &policy) {
        Err(VerificationError::UnsignedRejected) => {}
        other => panic!("expected UnsignedRejected, got {other:?}"),
    }
}

#[test]
fn verify_accepts_uppercase_required_digest() {
    let policy = VerifyPolicy {
        allow_unverified: false,
        required_digests: vec![("echo".to_string(), FAKE_DIGEST.to_uppercase())],
        trusted_signers: Vec::new(),
    };
    let resolved = resolve("echo", &local_store(), found(b"fake wasm contents")).expect("resolve");
    let verified = verify("echo", resolved, &policy).expect("case-insensitive match");
    assert_eq!(verified.resolved.digest, FAKE_DIGEST);
}

#[test]
fn verify_accepts_unsigned_when_policy_allows() {
    let policy = VerifyPolicy {
        allow_unverified: true,
        required_digests: Vec::new(),
        trusted_signers: Vec::new(),
    };
    let resolved = resolve("echo", &local_store(), found(b"anything")).expect("resolve");
    assert!(verify("echo", resolved, &policy).is_ok());
}

#[test]
fn missing_component_resolves_to_not_found() {
    let policy = VerifyPolicy {
        allow_unverified: true,
        required_digests: Vec::new(),
        trusted_signers: Vec::new(),
    };
    let err = resolve_and_verify("missing", &local_store(), FileLookup::Missing, &policy)
        .expect_err("nothing to find");
    match err {
        ExecError::Resolve { component, source } => {
            assert_eq!(component, "missing");
            assert!(matches!(source, ResolveError::NotFound));
        }
        other => panic!("expected a resolve error, got {other:?}"),
    }
}

#[test]
fn read_failures_surface_as_io_errors() {
    let err = resolve(
        "echo",
        &local_store(),
        FileLookup::IoError { message: "permission denied".to_string() },
    )
    .expect_err("read failed");
    match err {
        ResolveError::Io(m) => assert_eq!(m, "permission denied"),
        other => panic!("expected an I/O error, got {other:?}"),
    }
}

#[test]
fn fetch_failures_surface_as_http_errors() {
    let err = resolve(
        "echo",
        &ToolStore::HttpSingleFile(mcp_exec::config::HttpFileStore {
            name: "echo".to_string(),
            url: "https://example.com/echo.wasm".to_string(),
            cache_dir: "cache".to_string(),
        }),
        FileLookup::FetchError { message: "connection refused".to_string() },
    )
    .expect_err("fetch failed");
    match err {
        ResolveError::HttpFetch(m) => assert_eq!(m, "connection refused"),
        other => panic!("expected an HTTP fetch error, got {other:?}"),
    }
}

#[test]
fn registry_stores_are_not_implemented() {
    let oci = ToolStore::Oci(OciStore {
        registry: "registry.example.com".to_string(),
        repository: "tools/echo".to_string(),
        reference: None,
        auth: None,
    });
    assert!(matches!(
        resolve("echo", &oci, FileLookup::Missing),
        Err(ResolveError::OciNotImplemented)
    ));

    let warg = ToolStore::Warg(WargStore {
        server: "warg.example.com".to_string(),
        package: "echo".to_string(),
        reference: None,
    });
    assert!(matches!(
        resolve("echo", &warg, FileLookup::Missing),
        Err(ResolveError::WargNotImplemented)
    ));
}

#[test]
fn resolved_artifact_keeps_its_origin() {
    let a = resolve("echo", &local_store(), found(b"x")).expect("resolve");
    match a.origin {
        ArtifactOrigin::Local(path) => assert_eq!(path, "tools/echo.component.wasm"),
        other => panic!("expected a local origin, got {other:?}"),
    }
}
