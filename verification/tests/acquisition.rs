use boxer::acquire::{
    AcquireEvent, AcquireState, Action, BuildOutcome, BytesOutcome, CloneOutcome, MetadataOutcome,
    TextOutcome, UpdateOutcome, WriteOutcome,
};
use boxer::errors::AcquireError;
use boxer::manifest::{ManifestReadOutcome, TomlItem, TomlTop};
use boxer::package::{PackageClient, PackageMetadataResp, PackageVersionMetadataResp};

fn metadata(versions: Vec<PackageVersionMetadataResp>) -> PackageMetadataResp {
    PackageMetadataResp {
        owner: "devcomp".to_string(),
        name: "luau-asm".to_string(),
        latest_version: "0.0.1".to_string(),
        available_versions: versions,
    }
}

fn version_entry(needs_build: bool) -> PackageVersionMetadataResp {
    PackageVersionMetadataResp {
        version: "0.0.1".to_string(),
        needs_build,
        bundle: "luau-asm-0.0.1.tar".to_string(),
        identifier: "abc123".to_string(),
        published_at: "2024-01-01T00:00:00Z".to_string(),
    }
}

fn manifest_doc() -> Vec<(String, TomlTop)> {
    vec![
        (
            "package".to_string(),
            TomlTop::Table(vec![
                ("name".to_string(), TomlItem::Str("luau-asm".to_string())),
                ("version".to_string(), TomlItem::Str("0.0.1".to_string())),
                ("git".to_string(), TomlItem::Str("https://example.test/luau-asm.git".to_string())),
            ]),
        ),
        (
            "lib".to_string(),
            TomlTop::Table(vec![("release_type".to_string(), TomlItem::Str("debug".to_string()))]),
        ),
        (
            "scripts".to_string(),
            TomlTop::Table(vec![(
                "post_install".to_string(),
                TomlItem::Str("npm run build".to_string()),
            )]),
        ),
        ("dependencies".to_string(), TomlTop::Table(vec![])),
    ]
}

#[test]
fn prebuilt_acquisition_downloads_and_writes_bundle() {
    let client = PackageClient::new();
    let (state, action) = client.download_package("@devcomp/luau-asm", "0.0.1");
    match &action {
        Action::FetchMetadata { uri } => {
            assert_eq!(uri, "http://localhost:8080/api/meta/@devcomp/luau-asm")
        }
        _ => panic!("acquisition must begin with the metadata request"),
    }

    let meta = metadata(vec![version_entry(false)]);
    let (state, action) = client.step(state, AcquireEvent::Metadata(MetadataOutcome::Received(meta)));
    match &action {
        Action::FetchBundle { uri } => assert_eq!(uri, "http://localhost:8080/dl/luau-asm-0.0.1.tar"),
        _ => panic!("a prebuilt version must fetch its bundle"),
    }

    let body = vec![1u8, 2, 3, 4, 5];
    let (state, action) = client.step(state, AcquireEvent::Bundle(BytesOutcome::Received(body.clone())));
    match &action {
        Action::WriteBundle { path, bytes } => {
            assert_eq!(path, "./packages/luau-asm-0.0.1.tar");
            assert_eq!(bytes, &body);
        }
        _ => panic!("a downloaded bundle must be written"),
    }

    let (state, action) = client.step(state, AcquireEvent::BundleWrite(WriteOutcome::Written));
    assert!(matches!(state, AcquireState::Done));
    assert!(matches!(action, Action::Finish));
}

#[test]
fn bundle_write_plan_is_identical_on_rerun() {
    let client = PackageClient::new();
    let body = vec![9u8, 8, 7];
    let mut plans: Vec<(String, Vec<u8>)> = Vec::new();
    for _ in 0..2 {
        let (state, _) = client.download_package("@devcomp/luau-asm", "0.0.1");
        let meta = metadata(vec![version_entry(false)]);
        let (state, _) = client.step(state, AcquireEvent::Metadata(MetadataOutcome::Received(meta)));
        let (_, action) = client.step(state, AcquireEvent::Bundle(BytesOutcome::Received(body.clone())));
        match action {
            Action::WriteBundle { path, bytes } => plans.push((path, bytes)),
            _ => panic!("a downloaded bundle must be written"),
        }
    }
    assert_eq!(plans[0], plans[1]);
}

#[test]
fn source_acquisition_clones_fresh_cache_and_builds() {
    let client = PackageClient::new();
    let (state, _) = client.download_package("@devcomp/luau-asm", "0.0.1");

    let meta = metadata(vec![version_entry(true)]);
    let (state, action) = client.step(state, AcquireEvent::Metadata(MetadataOutcome::Received(meta)));
    match &action {
        Action::FetchGitUri { uri } => assert_eq!(uri, "http://localhost:8080/api/git/abc123"),
        _ => panic!("a source version must fetch its git URI"),
    }

    let uri_body = "https://example.test/luau-asm.git\n".to_string();
    let (state, action) = client.step(state, AcquireEvent::GitUri(TextOutcome::Received(uri_body)));
    match &action {
        Action::CloneRepo { git_uri, dest } => {
            assert_eq!(git_uri, "https://example.test/luau-asm.git");
            assert_eq!(dest, "./boxer/repos/abc123");
        }
        _ => panic!("a resolved git URI must be cloned"),
    }

    // A cache directory that did not yet exist: the clone succeeds and no
    // update is ever planned.
    let (state, action) = client.step(state, AcquireEvent::Clone(CloneOutcome::Cloned));
    match &action {
        Action::ReadManifest { path } => assert_eq!(path, "./boxer/repos/abc123"),
        _ => panic!("a fresh clone proceeds straight to the manifest"),
    }
    assert!(matches!(
        state,
        AcquireState::ReadingManifest { degraded: false, .. }
    ));

    let text = "manifest text".to_string();
    let (state, action) = client.step(state, AcquireEvent::ManifestRead(ManifestReadOutcome::Found(text)));
    match &action {
        Action::DecodeManifest { contents } => assert_eq!(contents, "manifest text"),
        _ => panic!("read manifest text must be decoded"),
    }

    let (state, action) = client.step(state, AcquireEvent::ManifestDecoded(Some(manifest_doc())));
    match &action {
        Action::RunBuild { command, workdir } => {
            assert_eq!(command.program, "sh");
            assert_eq!(command.args, vec!["-c".to_string(), "npm run build".to_string()]);
            assert_eq!(workdir, "./boxer/repos/abc123");
        }
        _ => panic!("a parsed manifest must run its post-install script"),
    }

    let outcome = BuildOutcome::Exited { success: true, stderr: String::new() };
    let (state, action) = client.step(state, AcquireEvent::Build(outcome));
    assert!(matches!(state, AcquireState::Done));
    assert!(matches!(action, Action::Finish));
}

#[test]
fn cached_source_is_updated_never_recloned() {
    let client = PackageClient::new();
    let (state, _) = client.download_package("@devcomp/luau-asm", "0.0.1");
    let meta = metadata(vec![version_entry(true)]);
    let (state, _) = client.step(state, AcquireEvent::Metadata(MetadataOutcome::Received(meta)));
    let uri_body = "https://example.test/luau-asm.git".to_string();
    let (state, _) = client.step(state, AcquireEvent::GitUri(TextOutcome::Received(uri_body)));

    // The cache directory already exists: fetch-and-merge, never a re-clone.
    let (state, action) = client.step(state, AcquireEvent::Clone(CloneOutcome::AlreadyExists));
    match &action {
        Action::UpdateRepo { path } => assert_eq!(path, "./boxer/repos/abc123"),
        _ => panic!("an already-cached repository must be updated in place"),
    }

    // The update cannot complete: the existing checkout is used, the
    // degradation is recorded, and the run does not fail.
    let (state, action) = client.step(state, AcquireEvent::Update(UpdateOutcome::Degraded));
    assert!(matches!(
        state,
        AcquireState::ReadingManifest { degraded: true, .. }
    ));
    match &action {
        Action::ReadManifest { path } => assert_eq!(path, "./boxer/repos/abc123"),
        _ => panic!("a degraded update still proceeds to the manifest"),
    }
}

#[test]
fn failed_build_is_fatal_and_carries_stderr() {
    let client = PackageClient::new();
    let (state, _) = client.download_package("@devcomp/luau-asm", "0.0.1");
    let meta = metadata(vec![version_entry(true)]);
    let (state, _) = client.step(state, AcquireEvent::Metadata(MetadataOutcome::Received(meta)));
    let (state, _) = client.step(
        state,
        AcquireEvent::GitUri(TextOutcome::Received("https://example.test/r.git".to_string())),
    );
    let (state, _) = client.step(state, AcquireEvent::Clone(CloneOutcome::Cloned));
    let (state, _) = client.step(
        state,
        AcquireEvent::ManifestRead(ManifestReadOutcome::Found("x".to_string())),
    );
    let (state, _) = client.step(state, AcquireEvent::ManifestDecoded(Some(manifest_doc())));

    let outcome = BuildOutcome::Exited { success: false, stderr: "build exploded".to_string() };
    let (state, action) = client.step(state, AcquireEvent::Build(outcome));
    match state {
        AcquireState::Failed(AcquireError::BuildFailed(stderr)) => {
            assert_eq!(stderr, "build exploded")
        }
        _ => panic!("a non-zero build exit must fail the acquisition"),
    }
    match action {
        Action::Fail(e) => assert_ne!(e.exit_code(), 0),
        _ => panic!("a failed acquisition must exit"),
    }
}

#[test]
fn missing_manifest_fails_acquisition_with_not_found() {
    let client = PackageClient::new();
    let (state, _) = client.download_package("@devcomp/luau-asm", "0.0.1");
    let meta = metadata(vec![version_entry(true)]);
    let (state, _) = client.step(state, AcquireEvent::Metadata(MetadataOutcome::Received(meta)));
    let (state, _) = client.step(
        state,
        AcquireEvent::GitUri(TextOutcome::Received("https://example.test/r.git".to_string())),
    );
    let (state, _) = client.step(state, AcquireEvent::Clone(CloneOutcome::Cloned));
    let (state, action) = client.step(
        state,
        AcquireEvent::ManifestRead(ManifestReadOutcome::NotFound),
    );
    assert!(matches!(state, AcquireState::Failed(AcquireError::ManifestNotFound)));
    match action {
        Action::Fail(e) => assert_ne!(e.exit_code(), 0),
        _ => panic!("a missing manifest must exit the acquisition"),
    }
}

#[test]
fn undecodable_manifest_fails_acquisition_as_malformed() {
    let client = PackageClient::new();
    let (state, _) = client.download_package("@devcomp/luau-asm", "0.0.1");
    let meta = metadata(vec![version_entry(true)]);
    let (state, _) = client.step(state, AcquireEvent::Metadata(MetadataOutcome::Received(meta)));
    let (state, _) = client.step(
        state,
        AcquireEvent::GitUri(TextOutcome::Received("https://example.test/r.git".to_string())),
    );
    let (state, _) = client.step(state, AcquireEvent::Clone(CloneOutcome::Cloned));
    let (state, _) = client.step(
        state,
        AcquireEvent::ManifestRead(ManifestReadOutcome::Found("not { valid toml".to_string())),
    );
    let (state, action) = client.step(state, AcquireEvent::ManifestDecoded(None));
    assert!(matches!(state, AcquireState::Failed(AcquireError::ManifestMalformed)));
    match action {
        Action::Fail(e) => assert_ne!(e.exit_code(), 0),
        _ => panic!("an undecodable manifest must exit the acquisition"),
    }
}

#[test]
fn transport_failures_map_to_their_errors() {
    let client = PackageClient::new();

    let (state, _) = client.download_package("@devcomp/luau-asm", "0.0.1");
    let (state, _) = client.step(state, AcquireEvent::Metadata(MetadataOutcome::Unreachable));
    assert!(matches!(state, AcquireState::Failed(AcquireError::RegistryUnreachable)));

    let (state, _) = client.download_package("@devcomp/luau-asm", "0.0.1");
    let (state, _) = client.step(state, AcquireEvent::Metadata(MetadataOutcome::Malformed));
    assert!(matches!(state, AcquireState::Failed(AcquireError::MalformedMetadata)));

    let (state, _) = client.download_package("@devcomp/luau-asm", "0.0.1");
    let meta = metadata(vec![]);
    let (state, _) = client.step(state, AcquireEvent::Metadata(MetadataOutcome::Received(meta)));
    assert!(matches!(state, AcquireState::Failed(AcquireError::MalformedMetadata)));

    let (state, _) = client.download_package("@devcomp/luau-asm", "0.0.1");
    let meta = metadata(vec![version_entry(false)]);
    let (state, _) = client.step(state, AcquireEvent::Metadata(MetadataOutcome::Received(meta)));
    let (state, _) = client.step(state, AcquireEvent::Bundle(BytesOutcome::Failed));
    assert!(matches!(state, AcquireState::Failed(AcquireError::DownloadFailed)));

    let (state, _) = client.download_package("@devcomp/luau-asm", "0.0.1");
    let meta = metadata(vec![version_entry(false)]);
    let (state, _) = client.step(state, AcquireEvent::Metadata(MetadataOutcome::Received(meta)));
    let (state, _) = client.step(state, AcquireEvent::Bundle(BytesOutcome::Received(vec![0u8])));
    let (state, _) = client.step(state, AcquireEvent::BundleWrite(WriteOutcome::Failed));
    assert!(matches!(state, AcquireState::Failed(AcquireError::WriteFailed)));

    let (state, _) = client.download_package("@devcomp/luau-asm", "0.0.1");
    let meta = metadata(vec![version_entry(true)]);
    let (state, _) = client.step(state, AcquireEvent::Metadata(MetadataOutcome::Received(meta)));
    let (state, _) = client.step(state, AcquireEvent::GitUri(TextOutcome::Unreachable));
    assert!(matches!(state, AcquireState::Failed(AcquireError::RegistryUnreachable)));

    let (state, _) = client.download_package("@devcomp/luau-asm", "0.0.1");
    let meta = metadata(vec![version_entry(true)]);
    let (state, _) = client.step(state, AcquireEvent::Metadata(MetadataOutcome::Received(meta)));
    let (state, _) = client.step(
        state,
        AcquireEvent::GitUri(TextOutcome::Received("https://example.test/r.git".to_string())),
    );
    let (state, _) = client.step(state, AcquireEvent::Clone(CloneOutcome::Failed));
    assert!(matches!(state, AcquireState::Failed(AcquireError::GitCloneFailed)));
}

#[test]
fn stray_events_are_ignored() {
    let client = PackageClient::new();
    let (state, action) = client.step(
        AcquireState::Done,
        AcquireEvent::Update(UpdateOutcome::Updated),
    );
    assert!(matches!(state, AcquireState::Done));
    assert!(matches!(action, Action::Ignore));

    let (state, _) = client.download_package("@devcomp/luau-asm", "0.0.1");
    let (state, action) = client.step(state, AcquireEvent::Clone(CloneOutcome::Cloned));
    assert!(matches!(state, AcquireState::ResolvingMetadata { .. }));
    assert!(matches!(action, Action::Ignore));
}

#[test]
fn windows_client_plans_cmd_invocation() {
    let client = PackageClient::new_for_platform(true);
    let (state, _) = client.download_package("@devcomp/luau-asm", "0.0.1");
    let meta = metadata(vec![version_entry(true)]);
    let (state, _) = client.step(state, AcquireEvent::Metadata(MetadataOutcome::Received(meta)));
    let (state, _) = client.step(
        state,
        AcquireEvent::GitUri(TextOutcome::Received("https://example.test/r.git".to_string())),
    );
    let (state, _) = client.step(state, AcquireEvent::Clone(CloneOutcome::Cloned));
    let (state, _) = client.step(
        state,
        AcquireEvent::ManifestRead(ManifestReadOutcome::Found("x".to_string())),
    );
    let (_, action) = client.step(state, AcquireEvent::ManifestDecoded(Some(manifest_doc())));
    match action {
        Action::RunBuild { command, .. } => {
            assert_eq!(command.program, "cmd");
            assert_eq!(command.args, vec!["/c".to_string(), "npm run build".to_string()]);
        }
        _ => panic!("a parsed manifest must run its post-install script"),
    }
}
