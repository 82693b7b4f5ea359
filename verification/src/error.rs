//! The error kinds that fallible operations surface.
//!
//! Every fallible operation returns a tagged error value; none aborts chain
//! processing.  Inbound messages that reference a nonexistent agent are
//! silently dropped instead, since a message handler has no caller to report
//! to.

use vstd::prelude::*;

verus! {

/// A recoverable failure of one operation.
#[derive(Debug, Clone, Copy, PartialEq, Eq, Structural)]
pub enum LedgerError {
    /// No verified caller identity was available.
    NotAuthenticated,
    /// No registry target has been configured yet.
    NotInitialized,
    /// The identity already has a badge.
    AlreadyRegistered,
    /// The identity has no badge.
    AgentNotFound,
    /// A withdrawal asked for more than the staked balance.
    InsufficientStake,
}

impl LedgerError {
    /// A short human-readable description of the error.
    pub fn message(&self) -> (r: &'static str)
        ensures
            (*self == LedgerError::NotAuthenticated ==> r@ == "must be authenticated"@)
                && (*self == LedgerError::NotInitialized ==> r@ == "not initialized with registry"@)
                && (*self == LedgerError::AlreadyRegistered ==> r@ == "agent already registered"@)
                && (*self == LedgerError::AgentNotFound ==> r@ == "agent not found"@)
                && (*self == LedgerError::InsufficientStake ==> r@
                == "insufficient stake balance"@),
    {
        match self {
            LedgerError::NotAuthenticated => "must be authenticated",
            LedgerError::NotInitialized => "not initialized with registry",
            LedgerError::AlreadyRegistered => "agent already registered",
            LedgerError::AgentNotFound => "agent not found",
            LedgerError::InsufficientStake => "insufficient stake balance",
        }
    }
}

} // verus!
