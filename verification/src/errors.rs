//! Error taxonomy of the synchronization engine.

use vstd::prelude::*;

verus! {

/// The errors a synchronization pass can surface to its caller.
///
/// Cache load or parse failures are recovered locally (an absent or
/// malformed cache file is treated as an empty cache) and never appear
/// here. Every other failure aborts the enclosing operation.
#[derive(Debug)]
pub enum SyncError {
    /// A local filesystem open, read, write or create failed.
    Io(String),
    /// A request failed, a response had a non-success status, or a
    /// stream was interrupted.
    Network(String),
    /// A downloaded file's content hash does not match the hash the
    /// manifest records for it.
    Integrity { path: String, expected: String, actual: String },
    /// A manifest or cache document was malformed or missed a required
    /// field.
    Format(String),
    /// A required endpoint URL was not configured.
    Config(String),
}

impl SyncError {
    /// True exactly for the integrity variant; lets callers apply the
    /// fail-fast policy without destructuring.
    pub fn is_integrity(&self) -> (r: bool)
        ensures
            r == (self is Integrity),
    {
        match self {
            SyncError::Integrity { .. } => true,
            _ => false,
        }
    }
}

} // verus!
