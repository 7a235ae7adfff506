//! The acquisition orchestrator: a state machine from outcome events to next
//! states and planned actions. One acquisition runs
//!
//! ```text
//! ResolvingMetadata -> { CloningSource [-> UpdatingSource]
//!                           -> ReadingManifest -> ParsingManifest -> RunningBuild -> Done }
//!                   -> { FetchingBundle -> WritingBundle -> Done }
//! ```
//!
//! branching on the selected version's `needs_build` flag; any fatal outcome
//! moves to `Failed`. A failed cache update is the one non-fatal outcome: the
//! run continues from whatever checkout sits on disk, with the degradation
//! recorded in the state. The surrounding process performs each planned
//! action — an HTTP request, a git operation, a file read or write, a
//! subprocess — and reports its outcome as the next event; every decision
//! between outcomes is made, verified, here.

use vstd::prelude::*;
use crate::command::{ShellCommand, shell_invocation, joined, tokens_of, trimmed, trim_ws};
use crate::errors::AcquireError;
use crate::manifest::{
    ItemModel, ManfiestHandler, ManifestReadOutcome, ManifestSchema, TomlTop, assoc_lookup,
    doc_model, manifest_wf, post_install_script, section_model, str_at, table_at,
};
use crate::meta::get_meta;
use crate::package::{
    PackageClient, PackageMetadataResp, select_version, selected_index, spec_bundle_dest,
    spec_bundle_uri, spec_git_uri, spec_meta_uri, spec_repo_dest,
};

verus! {

/// The outcome of the metadata request.
pub enum MetadataOutcome {
    /// The response decoded into the expected shape.
    Received(PackageMetadataResp),
    /// The response arrived but did not decode into the expected shape.
    Malformed,
    /// Transport failure or timeout.
    Unreachable,
}

/// The outcome of the git-URI lookup request.
pub enum TextOutcome {
    /// The plain-text response body.
    Received(String),
    /// Transport failure or timeout.
    Unreachable,
}

/// The outcome of the attempted clone.
pub enum CloneOutcome {
    /// A fresh clone now sits at the target path.
    Cloned,
    /// The target path already exists: the repository was previously cached.
    AlreadyExists,
    /// The clone failed for any other reason.
    Failed,
}

/// The outcome of the fetch-and-merge update of a cached repository.
pub enum UpdateOutcome {
    /// The cached checkout was advanced.
    Updated,
    /// Some step of the update failed; the checkout is usable but possibly
    /// stale.
    Degraded,
}

/// The outcome of the bundle download.
pub enum BytesOutcome {
    /// The full response body.
    Received(Vec<u8>),
    /// Transport failure or timeout.
    Failed,
}

/// The outcome of persisting the bundle.
pub enum WriteOutcome {
    Written,
    Failed,
}

/// The outcome of the build subprocess.
pub enum BuildOutcome {
    /// The subprocess ran to an exit; carries whether the exit status was
    /// zero, and the captured standard-error text.
    Exited { success: bool, stderr: String },
    /// The subprocess could not be spawned; carries the spawn error text.
    SpawnFailed(String),
}

/// One outcome event, handed back after performing a planned action.
pub enum AcquireEvent {
    Metadata(MetadataOutcome),
    GitUri(TextOutcome),
    Clone(CloneOutcome),
    Update(UpdateOutcome),
    ManifestRead(ManifestReadOutcome),
    ManifestDecoded(Option<Vec<(String, TomlTop)>>),
    Build(BuildOutcome),
    Bundle(BytesOutcome),
    BundleWrite(WriteOutcome),
}

/// What an acquisition is waiting on.
pub enum AcquireState {
    /// Waiting for the namespace's metadata; holds the namespace and the
    /// requested version.
    ResolvingMetadata { namespace: String, version: String },
    /// Waiting for the git clone URI of the selected source package.
    FetchingSourceUri { identifier: String },
    /// Waiting for the clone into the cache path.
    CloningSource { identifier: String, path: String },
    /// Waiting for the fetch-and-merge update of the cached repository.
    UpdatingSource { path: String },
    /// Waiting for `Boxer.toml` to be read from the checkout; `degraded`
    /// records that a cache update failed and the checkout may be stale.
    ReadingManifest { path: String, degraded: bool },
    /// Waiting for the manifest text to be TOML-decoded.
    ParsingManifest { path: String, degraded: bool },
    /// Waiting for the post-install build subprocess.
    RunningBuild { path: String },
    /// Waiting for the selected bundle's bytes.
    FetchingBundle { bundle: String },
    /// Waiting for the downloaded bundle to be persisted.
    WritingBundle,
    /// The acquisition completed.
    Done,
    /// The acquisition terminated with a fatal error.
    Failed(AcquireError),
}

/// One planned action, to be performed before the next event is reported.
pub enum Action {
    /// Issue `GET uri`, decode the body as package metadata, report a
    /// `Metadata` event.
    FetchMetadata { uri: String },
    /// Issue `GET uri`, report the plain-text body as a `GitUri` event.
    FetchGitUri { uri: String },
    /// Clone `git_uri` into `dest`, report a `Clone` event.
    CloneRepo { git_uri: String, dest: String },
    /// Open the repository at `path`, fetch the `main` branch from the
    /// `origin` remote, merge `FETCH_HEAD` into `HEAD`; report an `Update`
    /// event, `Degraded` on any failure.
    UpdateRepo { path: String },
    /// Read `Boxer.toml` from the directory `path`, report a `ManifestRead`
    /// event.
    ReadManifest { path: String },
    /// TOML-decode `contents`, report a `ManifestDecoded` event.
    DecodeManifest { contents: String },
    /// Spawn the planned shell command with working directory `workdir`,
    /// wait for it, report a `Build` event.
    RunBuild { command: ShellCommand, workdir: String },
    /// Issue `GET uri`, report the raw body bytes as a `Bundle` event.
    FetchBundle { uri: String },
    /// Write `bytes` to the file at `path`, report a `BundleWrite` event.
    WriteBundle { path: String, bytes: Vec<u8> },
    /// The acquisition completed; nothing further to perform.
    Finish,
    /// The acquisition failed; exit with the error's status.
    Fail(AcquireError),
    /// The event did not belong to the current state; nothing to perform.
    Ignore,
}

/// Whether `event` is the kind of outcome that `state` waits on.
pub open spec fn event_fits(state: AcquireState, event: AcquireEvent) -> bool {
    match (state, event) {
        (AcquireState::ResolvingMetadata { .. }, AcquireEvent::Metadata(_)) => true,
        (AcquireState::FetchingSourceUri { .. }, AcquireEvent::GitUri(_)) => true,
        (AcquireState::CloningSource { .. }, AcquireEvent::Clone(_)) => true,
        (AcquireState::UpdatingSource { .. }, AcquireEvent::Update(_)) => true,
        (AcquireState::ReadingManifest { .. }, AcquireEvent::ManifestRead(_)) => true,
        (AcquireState::ParsingManifest { .. }, AcquireEvent::ManifestDecoded(_)) => true,
        (AcquireState::RunningBuild { .. }, AcquireEvent::Build(_)) => true,
        (AcquireState::FetchingBundle { .. }, AcquireEvent::Bundle(_)) => true,
        (AcquireState::WritingBundle, AcquireEvent::BundleWrite(_)) => true,
        _ => false,
    }
}

/// The state and action that failure `e` terminates with.
pub open spec fn failed_with(r: (AcquireState, Action), e: AcquireError) -> bool {
    r.0 == AcquireState::Failed(e) && r.1 == Action::Fail(e)
}

impl PackageClient {
    /// Begin acquiring `package_namespace` at `package_version`: the run
    /// starts by resolving the namespace's metadata from the registry.
    pub fn download_package(&self, package_namespace: &str, package_version: &str) -> (r: (
        AcquireState,
        Action,
    ))
        ensures
            r.0 matches AcquireState::ResolvingMetadata { namespace, version }
                && namespace@ == package_namespace@ && version@ == package_version@,
            r.1 matches Action::FetchMetadata { uri } && uri@ == spec_meta_uri(
                self.registry@,
                package_namespace@,
            ),
    {
        let uri = self.meta_uri(package_namespace);
        (
            AcquireState::ResolvingMetadata {
                namespace: String::from_str(package_namespace),
                version: String::from_str(package_version),
            },
            Action::FetchMetadata { uri },
        )
    }

    /// Advance the acquisition by one event. Every decision of the run is
    /// made here; an event that does not belong to the current state leaves
    /// the state unchanged and plans nothing.
    pub fn step(&self, state: AcquireState, event: AcquireEvent) -> (r: (AcquireState, Action))
        ensures
            // A stray event changes nothing.
            !event_fits(state, event) ==> r.0 == state && r.1 == Action::Ignore,
            // Metadata resolution: transport failure and undecodable bodies are
            // fatal; an empty version list has no entry to select and counts as
            // malformed. Otherwise the selected entry decides the path: source
            // packages continue with the git-URI lookup, prebuilt ones with the
            // bundle download.
            state matches AcquireState::ResolvingMetadata { namespace, version } ==> (match event {
                AcquireEvent::Metadata(MetadataOutcome::Unreachable) => failed_with(
                    r,
                    AcquireError::RegistryUnreachable,
                ),
                AcquireEvent::Metadata(MetadataOutcome::Malformed) => failed_with(
                    r,
                    AcquireError::MalformedMetadata,
                ),
                AcquireEvent::Metadata(MetadataOutcome::Received(meta)) => {
                    if meta.available_versions@.len() == 0 {
                        failed_with(r, AcquireError::MalformedMetadata)
                    } else {
                        let sel = meta.available_versions@[selected_index(
                            meta.available_versions@,
                            version@,
                        )];
                        &&& sel.needs_build ==> {
                            &&& r.0 matches AcquireState::FetchingSourceUri { identifier }
                                && identifier@ == sel.identifier@
                            &&& r.1 matches Action::FetchGitUri { uri } && uri@ == spec_git_uri(
                                self.registry@,
                                sel.identifier@,
                            )
                        }
                        &&& !sel.needs_build ==> {
                            &&& r.0 matches AcquireState::FetchingBundle { bundle } && bundle@
                                == sel.bundle@
                            &&& r.1 matches Action::FetchBundle { uri } && uri@ == spec_bundle_uri(
                                self.registry@,
                                sel.bundle@,
                            )
                        }
                    }
                },
                _ => true,
            }),
            // Git-URI lookup: the clone of the trimmed URI is planned into the
            // cache path keyed by the source identifier.
            state matches AcquireState::FetchingSourceUri { identifier } ==> (match event {
                AcquireEvent::GitUri(TextOutcome::Unreachable) => failed_with(
                    r,
                    AcquireError::RegistryUnreachable,
                ),
                AcquireEvent::GitUri(TextOutcome::Received(u)) => {
                    &&& r.0 matches AcquireState::CloningSource { identifier: id, path } && id@
                        == identifier@ && path@ == spec_repo_dest("./boxer/repos"@, identifier@)
                    &&& r.1 matches Action::CloneRepo { git_uri, dest } && git_uri@ == trimmed(u@)
                        && dest@ == spec_repo_dest("./boxer/repos"@, identifier@)
                },
                _ => true,
            }),
            // Clone: a fresh clone proceeds to the manifest; an already-cached
            // path is updated in place, never re-cloned; any other failure is
            // fatal.
            state matches AcquireState::CloningSource { identifier, path } ==> (match event {
                AcquireEvent::Clone(CloneOutcome::Cloned) => {
                    &&& r.0 matches AcquireState::ReadingManifest { path: p, degraded } && p@
                        == path@ && degraded == false
                    &&& r.1 matches Action::ReadManifest { path: p } && p@ == path@
                },
                AcquireEvent::Clone(CloneOutcome::AlreadyExists) => {
                    &&& r.0 matches AcquireState::UpdatingSource { path: p } && p@ == path@
                    &&& r.1 matches Action::UpdateRepo { path: p } && p@ == path@
                },
                AcquireEvent::Clone(CloneOutcome::Failed) => failed_with(
                    r,
                    AcquireError::GitCloneFailed,
                ),
                _ => true,
            }),
            // Update: both outcomes proceed to the manifest — an update
            // failure degrades to the checkout already on disk and is recorded
            // in the state, never fatal.
            state matches AcquireState::UpdatingSource { path } ==> (match event {
                AcquireEvent::Update(outcome) => {
                    &&& r.0 matches AcquireState::ReadingManifest { path: p, degraded } && p@
                        == path@ && degraded == (outcome is Degraded)
                    &&& r.1 matches Action::ReadManifest { path: p } && p@ == path@
                },
                _ => true,
            }),
            // Manifest read: an absent file and an unreadable file are the two
            // distinct fatal errors; text read whole goes on to TOML decoding.
            state matches AcquireState::ReadingManifest { path, degraded } ==> (match event {
                AcquireEvent::ManifestRead(outcome) => match outcome {
                    ManifestReadOutcome::Found(text) => {
                        &&& r.0 matches AcquireState::ParsingManifest { path: p, degraded: d }
                            && p@ == path@ && d == degraded
                        &&& r.1 matches Action::DecodeManifest { contents } && contents@ == text@
                    },
                    ManifestReadOutcome::NotFound => failed_with(
                        r,
                        AcquireError::ManifestNotFound,
                    ),
                    ManifestReadOutcome::Unreadable => failed_with(
                        r,
                        AcquireError::ManifestUnreadable,
                    ),
                },
                _ => true,
            }),
            // Manifest decode: a document that fails to decode or does not
            // match the schema is fatal, as is a missing or non-string
            // `post_install` script; otherwise the script's shell invocation
            // is planned in the checkout.
            state matches AcquireState::ParsingManifest { path, degraded } ==> (match event {
                AcquireEvent::ManifestDecoded(decoded) => match decoded {
                    Option::None => failed_with(r, AcquireError::ManifestMalformed),
                    Option::Some(doc) => {
                        if !manifest_wf(doc_model(doc@)) {
                            failed_with(r, AcquireError::ManifestMalformed)
                        } else {
                            let scripts = table_at(doc_model(doc@), "scripts"@);
                            if !(assoc_lookup(scripts, "post_install"@) matches Some(
                                ItemModel::Str(_),
                            )) {
                                failed_with(r, AcquireError::ManifestMalformed)
                            } else {
                                &&& r.0 matches AcquireState::RunningBuild { path: p } && p@
                                    == path@
                                &&& r.1 matches Action::RunBuild { command, workdir } && workdir@
                                    == path@ && command.args@.len() == 2 && command.args@[1]@
                                    == joined(tokens_of(str_at(scripts, "post_install"@)))
                                    && (self.config.windows ==> command.program@ == "cmd"@
                                    && command.args@[0]@ == "/c"@) && (!self.config.windows
                                    ==> command.program@ == "sh"@ && command.args@[0]@ == "-c"@)
                            }
                        }
                    },
                },
                _ => true,
            }),
            // Build: a zero exit completes the acquisition; a non-zero exit or
            // a failed spawn is fatal and carries the error text.
            state matches AcquireState::RunningBuild { path } ==> (match event {
                AcquireEvent::Build(outcome) => match outcome {
                    BuildOutcome::Exited { success: true, .. } => r.0 == AcquireState::Done && r.1
                        == Action::Finish,
                    BuildOutcome::Exited { success: false, stderr } => failed_with(
                        r,
                        AcquireError::BuildFailed(stderr),
                    ),
                    BuildOutcome::SpawnFailed(msg) => failed_with(
                        r,
                        AcquireError::BuildFailed(msg),
                    ),
                },
                _ => true,
            }),
            // Bundle download: exactly the received bytes are planned for the
            // write, to the bundle's fixed place under the dependency
            // directory.
            state matches AcquireState::FetchingBundle { bundle } ==> (match event {
                AcquireEvent::Bundle(BytesOutcome::Received(body)) => {
                    &&& r.0 == AcquireState::WritingBundle
                    &&& r.1 matches Action::WriteBundle { path, bytes } && path@
                        == spec_bundle_dest(self.config.deps_dir@, bundle@) && bytes@ == body@
                },
                AcquireEvent::Bundle(BytesOutcome::Failed) => failed_with(
                    r,
                    AcquireError::DownloadFailed,
                ),
                _ => true,
            }),
            // Bundle write: done, or a fatal filesystem error.
            state matches AcquireState::WritingBundle ==> (match event {
                AcquireEvent::BundleWrite(WriteOutcome::Written) => r.0 == AcquireState::Done
                    && r.1 == Action::Finish,
                AcquireEvent::BundleWrite(WriteOutcome::Failed) => failed_with(
                    r,
                    AcquireError::WriteFailed,
                ),
                _ => true,
            }),
            // A fetch-and-merge is planned only in response to a clone that
            // found the cache path already present — an absent cache is never
            // updated, only cloned.
            r.1 matches Action::UpdateRepo { .. } ==> state matches AcquireState::CloningSource {
                ..
            } && event == AcquireEvent::Clone(CloneOutcome::AlreadyExists),
            // A clone is planned only in response to the git-URI lookup — a
            // cached repository is never re-cloned.
            r.1 matches Action::CloneRepo { .. } ==> state
                matches AcquireState::FetchingSourceUri { .. } && (event matches
                AcquireEvent::GitUri(TextOutcome::Received(_))),
            // A degraded update is not an error: no failure, and the run
            // continues into the manifest of the checkout on disk.
            (state matches AcquireState::UpdatingSource { .. } && event == AcquireEvent::Update(
                UpdateOutcome::Degraded,
            )) ==> !(r.0 is Failed) && (r.0 matches AcquireState::ReadingManifest { degraded, .. }
                && degraded == true),
    {
        match (state, event) {
            (
                AcquireState::ResolvingMetadata { namespace: _, version },
                AcquireEvent::Metadata(outcome),
            ) => match outcome {
                MetadataOutcome::Unreachable => fail(AcquireError::RegistryUnreachable),
                MetadataOutcome::Malformed => fail(AcquireError::MalformedMetadata),
                MetadataOutcome::Received(meta) => {
                    if meta.available_versions.len() == 0 {
                        fail(AcquireError::MalformedMetadata)
                    } else {
                        let i = select_version(&meta.available_versions, &version);
                        let sel = &meta.available_versions[i];
                        if sel.needs_build {
                            let identifier = sel.identifier.clone();
                            let uri = self.git_uri(identifier.as_str());
                            (
                                AcquireState::FetchingSourceUri { identifier },
                                Action::FetchGitUri { uri },
                            )
                        } else {
                            let bundle = sel.bundle.clone();
                            let uri = self.bundle_uri(bundle.as_str());
                            (
                                AcquireState::FetchingBundle { bundle },
                                Action::FetchBundle { uri },
                            )
                        }
                    }
                },
            },
            (AcquireState::FetchingSourceUri { identifier }, AcquireEvent::GitUri(outcome)) => match outcome {
                TextOutcome::Unreachable => fail(AcquireError::RegistryUnreachable),
                TextOutcome::Received(u) => {
                    let repos = get_meta().repos_path;
                    let path = crate::package::repo_dest(repos.as_str(), identifier.as_str());
                    let git_uri = trim_ws(u.as_str());
                    let dest = path.clone();
                    (
                        AcquireState::CloningSource { identifier, path },
                        Action::CloneRepo { git_uri, dest },
                    )
                },
            },
            (AcquireState::CloningSource { identifier: _, path }, AcquireEvent::Clone(outcome)) => match outcome {
                CloneOutcome::Cloned => {
                    let p = path.clone();
                    (
                        AcquireState::ReadingManifest { path, degraded: false },
                        Action::ReadManifest { path: p },
                    )
                },
                CloneOutcome::AlreadyExists => {
                    let p = path.clone();
                    (AcquireState::UpdatingSource { path }, Action::UpdateRepo { path: p })
                },
                CloneOutcome::Failed => fail(AcquireError::GitCloneFailed),
            },
            (AcquireState::UpdatingSource { path }, AcquireEvent::Update(outcome)) => {
                let degraded = match outcome {
                    UpdateOutcome::Updated => false,
                    UpdateOutcome::Degraded => true,
                };
                let p = path.clone();
                (
                    AcquireState::ReadingManifest { path, degraded },
                    Action::ReadManifest { path: p },
                )
            },
            (
                AcquireState::ReadingManifest { path, degraded },
                AcquireEvent::ManifestRead(outcome),
            ) => match ManfiestHandler::from_read(outcome) {
                Result::Ok(handler) => (
                    AcquireState::ParsingManifest { path, degraded },
                    Action::DecodeManifest { contents: handler.manifest_contents },
                ),
                Result::Err(e) => fail(e),
            },
            (
                AcquireState::ParsingManifest { path, degraded: _ },
                AcquireEvent::ManifestDecoded(decoded),
            ) => match ManfiestHandler::parse_manifest(&decoded) {
                Result::Err(e) => fail(e),
                Result::Ok(schema) => match post_install_script(&schema) {
                    Result::Err(e) => fail(e),
                    Result::Ok(cmd) => {
                        let command = shell_invocation(cmd.as_str(), self.config.windows);
                        let workdir = path.clone();
                        (
                            AcquireState::RunningBuild { path },
                            Action::RunBuild { command, workdir },
                        )
                    },
                },
            },
            (AcquireState::RunningBuild { path: _ }, AcquireEvent::Build(outcome)) => match outcome {
                BuildOutcome::Exited { success, stderr } => {
                    if success {
                        (AcquireState::Done, Action::Finish)
                    } else {
                        fail(AcquireError::BuildFailed(stderr))
                    }
                },
                BuildOutcome::SpawnFailed(msg) => fail(AcquireError::BuildFailed(msg)),
            },
            (AcquireState::FetchingBundle { bundle }, AcquireEvent::Bundle(outcome)) => match outcome {
                BytesOutcome::Failed => fail(AcquireError::DownloadFailed),
                BytesOutcome::Received(body) => {
                    let path = self.bundle_dest(bundle.as_str());
                    (AcquireState::WritingBundle, Action::WriteBundle { path, bytes: body })
                },
            },
            (AcquireState::WritingBundle, AcquireEvent::BundleWrite(outcome)) => match outcome {
                WriteOutcome::Written => (AcquireState::Done, Action::Finish),
                WriteOutcome::Failed => fail(AcquireError::WriteFailed),
            },
            (s, _) => (s, Action::Ignore),
        }
    }
}

/// Re-acquiring the same bundle is idempotent: two bundle downloads that
/// arrive under one bundle name with byte-identical bodies plan writes to
/// the same path with byte-identical content — which `step` guarantees for
/// every download it accepts, since the planned write carries exactly the
/// received body to the bundle's fixed place under the dependency directory.
pub proof fn lemma_bundle_write_idempotent(
    first: (AcquireState, Action),
    second: (AcquireState, Action),
    deps_dir: Seq<char>,
    bundle: Seq<char>,
    body: Seq<u8>,
)
    requires
        first.1 matches Action::WriteBundle { path, bytes } && path@ == spec_bundle_dest(
            deps_dir,
            bundle,
        ) && bytes@ == body,
        second.1 matches Action::WriteBundle { path, bytes } && path@ == spec_bundle_dest(
            deps_dir,
            bundle,
        ) && bytes@ == body,
    ensures
        first.1 matches Action::WriteBundle { path: p1, bytes: b1 } && (second.1 matches
            Action::WriteBundle { path: p2, bytes: b2 } && p1@ == p2@ && b1@ == b2@),
{
}

/// The terminal pair for failure `e`. The state and the action both carry
/// the error, so it is copied variant by variant: only that copy is known to
/// equal the original in the contracts.
fn fail(e: AcquireError) -> (r: (AcquireState, Action))
    ensures
        failed_with(r, e),
{
    let copy = match &e {
        AcquireError::RegistryUnreachable => AcquireError::RegistryUnreachable,
        AcquireError::MalformedMetadata => AcquireError::MalformedMetadata,
        AcquireError::DownloadFailed => AcquireError::DownloadFailed,
        AcquireError::WriteFailed => AcquireError::WriteFailed,
        AcquireError::ManifestNotFound => AcquireError::ManifestNotFound,
        AcquireError::ManifestUnreadable => AcquireError::ManifestUnreadable,
        AcquireError::ManifestMalformed => AcquireError::ManifestMalformed,
        AcquireError::GitCloneFailed => AcquireError::GitCloneFailed,
        AcquireError::BuildFailed(s) => AcquireError::BuildFailed(s.clone()),
    };
    (AcquireState::Failed(copy), Action::Fail(e))
}

} // verus!
