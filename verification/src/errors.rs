//! The error taxonomy: one error kind per component, wrapped explicitly at
//! each boundary crossing. Component operations return their own kind; the
//! orchestrator and the pagination controller wrap whatever reaches them.

use vstd::prelude::*;

verus! {

/// Failure of one composite resolution.
#[derive(Clone, Copy, Debug, PartialEq, Eq, Structural)]
pub enum ResolutionError {
    /// The cache could not be written. A cache that cannot be read only
    /// degrades the read to a miss; a write failure aborts the resolution.
    CacheFailure,
    /// A remote fetch failed.
    RemoteFetchFailure,
    /// A remote payload could not be decoded; a malformed evolution-chain
    /// locator counts as such a payload.
    DeserializationFailure,
}

/// Failure of the persistent store.
#[derive(Clone, Copy, Debug, PartialEq, Eq, Structural)]
pub enum PersistenceError {
    /// The store rejected or lost the operation.
    StoreUnavailable,
    /// No connection to the store was established.
    NotConnected,
    /// Any other store-side failure.
    Other,
}

/// Failure surfaced by the spawn orchestrator or the pagination controller.
#[derive(Clone, Copy, Debug, PartialEq, Eq, Structural)]
pub enum OrchestrationError {
    /// A resolution failed underneath.
    Resolution(ResolutionError),
    /// A persistence operation failed underneath.
    Persistence(PersistenceError),
    /// A chat collaborator call failed.
    CollaboratorFailure,
}

impl OrchestrationError {
    /// Wrap a resolution failure at the orchestration boundary.
    pub fn from_resolution(e: ResolutionError) -> (r: Self)
        ensures
            r == OrchestrationError::Resolution(e),
    {
        OrchestrationError::Resolution(e)
    }

    /// Wrap a persistence failure at the orchestration boundary.
    pub fn from_persistence(e: PersistenceError) -> (r: Self)
        ensures
            r == OrchestrationError::Persistence(e),
    {
        OrchestrationError::Persistence(e)
    }
}

} // verus!
