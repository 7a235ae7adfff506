use boxer::errors::AcquireError;
use boxer::package::{PackageClient, PackageVersionMetadataResp, select_version};

fn entry(version: &str, needs_build: bool, bundle: &str, identifier: &str) -> PackageVersionMetadataResp {
    PackageVersionMetadataResp {
        version: version.to_string(),
        needs_build,
        bundle: bundle.to_string(),
        identifier: identifier.to_string(),
        published_at: "2024-01-01T00:00:00Z".to_string(),
    }
}

#[test]
fn selection_picks_exact_match() {
    let available = vec![
        entry("0.0.1", false, "a.tar", "ida"),
        entry("0.0.2", false, "b.tar", "idb"),
        entry("0.0.3", false, "c.tar", "idc"),
    ];
    let i = select_version(&available, &"0.0.2".to_string());
    assert_eq!(i, 1);
    assert_eq!(available[i].bundle, "b.tar");
}

#[test]
fn selection_falls_back_to_first_entry() {
    let available = vec![
        entry("0.0.9", false, "a.tar", "ida"),
        entry("0.0.2", false, "b.tar", "idb"),
    ];
    let i = select_version(&available, &"9.9.9".to_string());
    assert_eq!(i, 0);
    assert_eq!(available[i].bundle, "a.tar");
}

#[test]
fn selection_takes_last_of_duplicate_matches() {
    let available = vec![
        entry("0.0.1", false, "first.tar", "ida"),
        entry("0.0.1", false, "second.tar", "idb"),
    ];
    let i = select_version(&available, &"0.0.1".to_string());
    assert_eq!(i, 1);
    assert_eq!(available[i].bundle, "second.tar");
}

#[test]
fn request_uris_follow_registry_layout() {
    let client = PackageClient::new();
    assert_eq!(client.meta_uri("@devcomp/luau-asm"), "http://localhost:8080/api/meta/@devcomp/luau-asm");
    assert_eq!(client.git_uri("abc123"), "http://localhost:8080/api/git/abc123");
    assert_eq!(client.bundle_uri("luau-asm-0.0.1.tar"), "http://localhost:8080/dl/luau-asm-0.0.1.tar");
    assert_eq!(client.bundle_dest("luau-asm-0.0.1.tar"), "./packages/luau-asm-0.0.1.tar");
    assert_eq!(
        PackageClient::user_agent("3ae7fc"),
        "boxer-rbx / 3ae7fc boxer-rbx package manager http client"
    );
}

#[test]
fn explicit_registry_configuration_is_used_in_uris() {
    let client = PackageClient::with_registry(
        "registry.example:9000".to_string(),
        "./deps".to_string(),
        false,
    );
    assert_eq!(client.meta_uri("pkg"), "http://registry.example:9000/api/meta/pkg");
    assert_eq!(client.bundle_dest("pkg.tar"), "./deps/pkg.tar");
}

#[test]
fn exit_codes_are_nonzero_and_distinct() {
    let errors = vec![
        AcquireError::RegistryUnreachable,
        AcquireError::MalformedMetadata,
        AcquireError::DownloadFailed,
        AcquireError::WriteFailed,
        AcquireError::ManifestNotFound,
        AcquireError::ManifestUnreadable,
        AcquireError::ManifestMalformed,
        AcquireError::GitCloneFailed,
        AcquireError::BuildFailed("stderr text".to_string()),
    ];
    let mut seen: Vec<i32> = Vec::new();
    for e in &errors {
        let code = e.exit_code();
        assert_ne!(code, 0);
        assert!(!seen.contains(&code));
        seen.push(code);
    }
}
