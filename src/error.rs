use vstd::prelude::*;

verus! {

/// Errors that an upgrade reports to its caller.
#[derive(Debug, Clone, Copy, PartialEq, Eq, Structural)]
pub enum UpgradeError {
    /// The release page holds no version tag.
    NotFound,
    /// The latest release tag is not a semantic version.
    InvalidLatest,
    /// The download location is not a valid URL.
    InvalidUrl,
    /// The requested version is not a semantic version.
    InvalidVersion,
}

/// Conditions that never arise when the release server and the archive are
/// sound; the caller ends the process on any of them rather than go on.
#[derive(Debug, Clone, Copy, PartialEq, Eq, Structural)]
pub enum Defect {
    /// A fetch without conditions was answered "not modified".
    NotModified,
    /// The fresh staging directory already holds the executable.
    StagingNotEmpty,
    /// The archive's extension is not one that can be unpacked.
    UnsupportedArchive,
    /// The unpacking tool reported failure.
    UnpackFailed,
    /// Unpacking left no executable at the expected place.
    ExecutableMissing,
    /// The new executable failed when asked for its version.
    VersionQueryFailed,
    /// The new executable reports another version than the one installed.
    VersionMismatch,
}

} // verus!
