//! Build-time metadata of the client itself: the version hash that the HTTP
//! user agent carries, and the root directory of the source-repository cache.

use vstd::prelude::*;

verus! {

/// Fixed metadata of this client build.
pub struct Metadata {
    /// Short hash identifying this build; part of the HTTP user agent.
    pub version_hash: String,
    /// Root directory under which source repositories are cached.
    pub repos_path: String,
}

/// The metadata of the running client: a fixed version hash and the fixed
/// cache root `./boxer/repos`.
pub fn get_meta() -> (r: Metadata)
    ensures
        r.version_hash@ == "3ae7fc"@,
        r.repos_path@ == "./boxer/repos"@,
{
    Metadata {
        version_hash: String::from_str("3ae7fc"),
        repos_path: String::from_str("./boxer/repos"),
    }
}

} // verus!
