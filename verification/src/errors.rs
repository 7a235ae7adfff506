//! The error taxonomy of an acquisition. Every fatal failure surfaces as one
//! of these variants; a degraded cache update is deliberately not among them,
//! because it is recovered locally and never terminates the acquisition.

use vstd::prelude::*;

verus! {

/// A fatal acquisition failure. Each variant maps to a distinct non-zero
/// process exit status.
#[derive(Debug)]
pub enum AcquireError {
    /// The registry could not be reached, or a request timed out.
    RegistryUnreachable,
    /// The metadata response did not decode into the expected shape.
    MalformedMetadata,
    /// The bundle download failed in transport.
    DownloadFailed,
    /// The downloaded bundle could not be persisted to disk.
    WriteFailed,
    /// The project directory holds no `Boxer.toml`.
    ManifestNotFound,
    /// `Boxer.toml` exists but could not be read.
    ManifestUnreadable,
    /// `Boxer.toml` was read but does not parse against the expected schema.
    ManifestMalformed,
    /// Cloning the source repository failed for a reason other than the
    /// target directory already existing.
    GitCloneFailed,
    /// The post-install build command exited with a non-zero status or could
    /// not be spawned; carries the captured standard-error text.
    BuildFailed(String),
}

impl AcquireError {
    /// The process exit status for this failure: non-zero, and distinct for
    /// every variant.
    pub open spec fn spec_exit_code(&self) -> i32 {
        match self {
            AcquireError::RegistryUnreachable => 2,
            AcquireError::MalformedMetadata => 3,
            AcquireError::DownloadFailed => 4,
            AcquireError::WriteFailed => 5,
            AcquireError::ManifestNotFound => 6,
            AcquireError::ManifestUnreadable => 7,
            AcquireError::ManifestMalformed => 8,
            AcquireError::GitCloneFailed => 9,
            AcquireError::BuildFailed(_) => 10,
        }
    }

    /// Every failure terminates the process with its own non-zero status.
    pub fn exit_code(&self) -> (r: i32)
        ensures
            r == self.spec_exit_code(),
            r != 0,
    {
        match self {
            AcquireError::RegistryUnreachable => 2,
            AcquireError::MalformedMetadata => 3,
            AcquireError::DownloadFailed => 4,
            AcquireError::WriteFailed => 5,
            AcquireError::ManifestNotFound => 6,
            AcquireError::ManifestUnreadable => 7,
            AcquireError::ManifestMalformed => 8,
            AcquireError::GitCloneFailed => 9,
            AcquireError::BuildFailed(_) => 10,
        }
    }
}

} // verus!
