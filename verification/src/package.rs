//! Registry-facing data: the metadata a registry returns for a package, the
//! client configuration, and the two pure decisions made over them — which
//! request URIs to issue and which version entry an acquisition targets.

use vstd::prelude::*;

verus! {

/// Seconds every registry request may take before it is reported as
/// `RegistryUnreachable`.
pub const REQUEST_TIMEOUT_SECS: u64 = 10;

/// Metadata the registry returns for one package namespace.
pub struct PackageMetadataResp {
    pub owner: String,
    pub name: String,
    pub latest_version: String,
    pub available_versions: Vec<PackageVersionMetadataResp>,
}

/// Metadata of one published version of a package.
pub struct PackageVersionMetadataResp {
    /// The version string, compared verbatim against the requested version.
    pub version: String,
    /// Whether this version must be built from source rather than downloaded
    /// as a prebuilt bundle.
    pub needs_build: bool,
    /// Opaque bundle file name, meaningful when `needs_build` is false.
    pub bundle: String,
    /// Opaque source-repository identifier, meaningful when `needs_build` is
    /// true.
    pub identifier: String,
    /// When this version was published; carried along, never interpreted.
    pub published_at: String,
}

/// Local configuration of the client.
pub struct ClientConfig {
    /// Directory that downloaded bundles are written into.
    pub deps_dir: String,
    /// Whether build commands are planned for the Windows shell.
    pub windows: bool,
}

/// The acquisition client: the registry authority it talks to and its local
/// configuration. The HTTP connection itself lives outside the library; this
/// type owns every decision about what to request and where to put results.
pub struct PackageClient {
    pub registry: String,
    pub config: ClientConfig,
}

/// Whether position `i` of `vs` is an exact string match for the requested
/// version `req`.
pub open spec fn matches_at(vs: Seq<PackageVersionMetadataResp>, req: Seq<char>, i: int) -> bool {
    0 <= i < vs.len() && vs[i].version@ == req
}

/// Whether any entry of `vs` is an exact string match for `req`.
pub open spec fn has_match(vs: Seq<PackageVersionMetadataResp>, req: Seq<char>) -> bool {
    exists|i: int| matches_at(vs, req, i)
}

/// The index version selection picks from `vs` for requested version `req`:
/// the last exact string match, or position 0 when no entry matches. The
/// fallback is merely first-in-response-order; the registry promises no
/// ordering, so position 0 is not "latest".
pub open spec fn selected_index(vs: Seq<PackageVersionMetadataResp>, req: Seq<char>) -> int
    decreases vs.len(),
{
    if vs.len() == 0 {
        0
    } else if vs[vs.len() - 1].version@ == req {
        vs.len() - 1
    } else {
        selected_index(vs.drop_last(), req)
    }
}

/// Version selection picks an exact match whenever one exists — the last
/// one, since a scan in response order keeps overwriting its candidate — and
/// otherwise falls back to the first entry of the list.
pub proof fn lemma_version_selection(vs: Seq<PackageVersionMetadataResp>, req: Seq<char>)
    ensures
        has_match(vs, req) ==> matches_at(vs, req, selected_index(vs, req)),
        has_match(vs, req) ==> forall|j: int| matches_at(vs, req, j) ==> j <= selected_index(vs, req),
        !has_match(vs, req) ==> selected_index(vs, req) == 0,
    decreases vs.len(),
{
    if vs.len() == 0 {
    } else if vs[vs.len() - 1].version@ == req {
        assert(matches_at(vs, req, vs.len() - 1));
    } else {
        lemma_version_selection(vs.drop_last(), req);
        assert forall|j: int| matches_at(vs, req, j) implies matches_at(vs.drop_last(), req, j) by {
            assert(j < vs.len() - 1);
        }
        if has_match(vs, req) {
            let w = choose|i: int| matches_at(vs, req, i);
            assert(matches_at(vs.drop_last(), req, w));
        }
        if has_match(vs.drop_last(), req) {
            let w = choose|i: int| matches_at(vs.drop_last(), req, i);
            assert(matches_at(vs, req, w));
        }
    }
}

/// Scan `available` in order and return the index of the entry selection
/// picks for `requested`: the last exact match, else 0.
pub fn select_version(available: &Vec<PackageVersionMetadataResp>, requested: &String) -> (i: usize)
    requires
        available@.len() > 0,
    ensures
        i < available@.len(),
        i == selected_index(available@, requested@),
{
    let n = available.len();
    let mut best: usize = 0;
    let mut j: usize = 0;
    while j < n
        invariant
            n == available@.len(),
            0 < n,
            j <= n,
            best < n,
            best == selected_index(available@.take(j as int), requested@),
        decreases n - j,
    {
        assert(available@.take(j + 1).drop_last() =~= available@.take(j as int));
        if available[j].version.eq(requested) {
            best = j;
        }
        j = j + 1;
    }
    assert(available@.take(n as int) =~= available@);
    best
}

/// The URI that resolves a namespace's package metadata.
pub open spec fn spec_meta_uri(registry: Seq<char>, namespace: Seq<char>) -> Seq<char> {
    "http://"@ + registry + "/api/meta/"@ + namespace
}

/// The URI that resolves a source identifier to a git clone URI.
pub open spec fn spec_git_uri(registry: Seq<char>, identifier: Seq<char>) -> Seq<char> {
    "http://"@ + registry + "/api/git/"@ + identifier
}

/// The URI a prebuilt bundle is downloaded from.
pub open spec fn spec_bundle_uri(registry: Seq<char>, bundle: Seq<char>) -> Seq<char> {
    "http://"@ + registry + "/dl/"@ + bundle
}

/// The path a downloaded bundle is written to.
pub open spec fn spec_bundle_dest(deps_dir: Seq<char>, bundle: Seq<char>) -> Seq<char> {
    deps_dir + "/"@ + bundle
}

/// The path a source repository is cached at.
pub open spec fn spec_repo_dest(repos_path: Seq<char>, identifier: Seq<char>) -> Seq<char> {
    repos_path + "/"@ + identifier
}

impl PackageClient {
    /// A client against the fixed local registry, writing bundles under
    /// `./packages`, planning POSIX shell invocations.
    pub fn new() -> (r: Self)
        ensures
            r.registry@ == "localhost:8080"@,
            r.config.deps_dir@ == "./packages"@,
            r.config.windows == false,
    {
        Self::new_for_platform(false)
    }

    /// A client as `new` gives, but planning build invocations for the given
    /// platform: `cmd /c` where `windows` holds, `sh -c` otherwise.
    pub fn new_for_platform(windows: bool) -> (r: Self)
        ensures
            r.registry@ == "localhost:8080"@,
            r.config.deps_dir@ == "./packages"@,
            r.config.windows == windows,
    {
        Self::with_registry(
            String::from_str("localhost:8080"),
            String::from_str("./packages"),
            windows,
        )
    }

    /// A client against an explicitly given registry authority and dependency
    /// directory, so alternate registries and test doubles are supportable.
    pub fn with_registry(registry: String, deps_dir: String, windows: bool) -> (r: Self)
        ensures
            r.registry@ == registry@,
            r.config.deps_dir@ == deps_dir@,
            r.config.windows == windows,
    {
        PackageClient { registry, config: ClientConfig { deps_dir, windows } }
    }

    /// The URI that resolves a namespace's package metadata.
    pub fn meta_uri(&self, namespace: &str) -> (r: String)
        ensures
            r@ == spec_meta_uri(self.registry@, namespace@),
    {
        String::from_str("http://").concat(self.registry.as_str()).concat("/api/meta/").concat(
            namespace,
        )
    }

    /// The URI that resolves a source identifier to a git clone URI.
    pub fn git_uri(&self, identifier: &str) -> (r: String)
        ensures
            r@ == spec_git_uri(self.registry@, identifier@),
    {
        String::from_str("http://").concat(self.registry.as_str()).concat("/api/git/").concat(
            identifier,
        )
    }

    /// The URI a prebuilt bundle is downloaded from.
    pub fn bundle_uri(&self, bundle: &str) -> (r: String)
        ensures
            r@ == spec_bundle_uri(self.registry@, bundle@),
    {
        String::from_str("http://").concat(self.registry.as_str()).concat("/dl/").concat(bundle)
    }

    /// The path a downloaded bundle is written to: directly under the
    /// configured dependency directory, named after the bundle itself.
    pub fn bundle_dest(&self, bundle: &str) -> (r: String)
        ensures
            r@ == spec_bundle_dest(self.config.deps_dir@, bundle@),
    {
        self.config.deps_dir.clone().concat("/").concat(bundle)
    }

    /// The user-agent string every registry request carries: it identifies
    /// the client and embeds the build's version hash.
    pub fn user_agent(version_hash: &str) -> (r: String)
        ensures
            r@ == "boxer-rbx / "@ + version_hash@ + " boxer-rbx package manager http client"@,
    {
        String::from_str("boxer-rbx / ").concat(version_hash).concat(
            " boxer-rbx package manager http client",
        )
    }
}

/// The path a source package's repository is cached at: directly under the
/// cache root, keyed by the package's opaque source identifier.
pub fn repo_dest(repos_path: &str, identifier: &str) -> (r: String)
    ensures
        r@ == spec_repo_dest(repos_path@, identifier@),
{
    String::from_str(repos_path).concat("/").concat(identifier)
}

} // verus!
