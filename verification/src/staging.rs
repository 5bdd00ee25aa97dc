//! Staged artifacts and fetch errors.

use vstd::prelude::*;

verus! {

/// Why a firmware image could not be staged locally.
#[derive(Debug, PartialEq, Eq)]
pub enum FetchError {
    /// The download itself failed.
    NetworkFailure,
    /// The staging file could not be written in full.
    WriteFailure,
}

/// A firmware image fully written to local storage: where it lies and how
/// many bytes were staged. A value of this type is handed over only once the
/// staging file has been flushed and closed, so a later read observes the
/// complete artifact.
#[derive(Debug)]
pub struct StagedArtifact {
    pub path: String,
    pub byte_length: u64,
}

} // verus!
