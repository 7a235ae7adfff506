//! A package-acquisition client: resolves version metadata from a registry,
//! decides between building a package from a cached git checkout and
//! downloading a prebuilt bundle, and plans the manifest-driven post-install
//! build that follows a source checkout.
//!
//! The decision logic lives here, fully verified; the surrounding process
//! (HTTP requests, git operations, the filesystem and the build subprocess)
//! reports its outcomes as plain values and carries the planned actions out.

pub mod acquire;
pub mod command;
pub mod errors;
pub mod manifest;
pub mod meta;
pub mod package;
