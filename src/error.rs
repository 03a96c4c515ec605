use vstd::prelude::*;

verus! {

/// The error kinds that a repository operation can end with.
#[derive(Debug)]
pub enum Error {
    /// No repository is open.
    NotInitialized,
    /// HEAD cannot be read, or does not name a branch.
    InvalidState,
    /// Fetch, push or clone failed at the transport level.
    TransportFailure { message: String },
    /// The remote refused a push that is not a fast-forward.
    NonFastForward,
    /// Some conflicting paths could not be resolved; the merge was rolled back.
    UnresolvableConflict,
    /// Resolved content could not be written to the working tree.
    IoFailure { message: String },
    /// The remote needs credentials and none were given.
    MissingCredentials,
    /// The fetched tip could not be found, even after fetching again.
    FetchedTipMissing,
    /// Any other failure reported by the version-control engine.
    Engine { message: String },
}

} // verus!
