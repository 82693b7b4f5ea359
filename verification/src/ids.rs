//! Identities: agents, chains, and timestamps.
//!
//! An agent identity is an opaque, comparable, unique key; a chain identity
//! names one isolated execution context.  Both are carried as plain 64-bit
//! values; the host environment that derives them from richer material does
//! so outside this library.

use vstd::prelude::*;

verus! {

/// The identity of one agent: the unique key of its badge.
#[derive(Debug, Clone, Copy, PartialEq, Eq, Structural, Hash)]
pub struct AgentId {
    pub id: u64,
}

/// The identity of one chain (an isolated execution context).
#[derive(Debug, Clone, Copy, PartialEq, Eq, Structural, Hash)]
pub struct ChainId {
    pub id: u64,
}

/// A point in time, in microseconds; per-badge timestamp fields are
/// monotonically non-decreasing.
pub type Timestamp = u64;

impl AgentId {
    pub fn new(id: u64) -> (r: AgentId)
        ensures
            r.id == id,
    {
        AgentId { id }
    }
}

impl ChainId {
    pub fn new(id: u64) -> (r: ChainId)
        ensures
            r.id == id,
    {
        ChainId { id }
    }
}

} // verus!
