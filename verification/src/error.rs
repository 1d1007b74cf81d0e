//! The closed error taxonomy shared by every component of the client.
//!
//! Errors are constructed at the failure site and never recovered here;
//! retry and backoff policy belongs to the layers outside this crate.

use vstd::prelude::*;

verus! {

/// One closed set of failure kinds. Every failure path of the client
/// returns a value of this type, so callers branch deterministically
/// between not-found, conflict and generic failure without inspecting
/// transport- or server-specific error shapes.
#[derive(Debug)]
pub enum Error {
    /// Bytes could not be parsed into the expected reply shape.
    Serialization(String),
    /// Explicit failure string from local or server logic.
    ErrResult(String),
    /// A query reply reported code 300: the configuration does not exist.
    ConfigNotFound(String),
    /// A query reply reported code 400: the item is being modified
    /// concurrently; the caller may retry later.
    ConfigQueryConflict(String),
    /// An operation was attempted after a deliberate shutdown.
    ClientShutdown(String),
    /// The underlying channel is not ready.
    ClientUnhealthy(String),
    /// Opaque lower-level connection or transport failure.
    TransportJoin(String),
    /// The supplied server address failed to resolve or parse.
    WrongServerAddress(String),
}

} // verus!
