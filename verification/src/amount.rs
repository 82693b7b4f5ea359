//! Monetary amounts, in attotokens.
//!
//! Stake balances and subscription costs are non-negative amounts.  Both
//! additions and subtractions saturate at the representation's bounds, so
//! a balance can never overflow and never go negative.

use vstd::prelude::*;

verus! {

pub const ATTO_PER_TOKEN: u128 = 1_000_000_000_000_000_000;

/// A non-negative amount of the native token, counted in attotokens
/// (`10^-18` of one token).
#[derive(Debug, Clone, Copy, PartialEq, Eq, Structural, PartialOrd, Ord, Hash)]
pub struct Amount {
    pub atto: u128,
}

/// Saturating addition on the underlying attotoken count.
pub open spec fn spec_sat_add(a: u128, b: u128) -> u128 {
    if a + b > u128::MAX {
        u128::MAX
    } else {
        (a + b) as u128
    }
}

/// Saturating subtraction on the underlying attotoken count.
pub open spec fn spec_sat_sub(a: u128, b: u128) -> u128 {
    if a >= b {
        (a - b) as u128
    } else {
        0
    }
}

impl Amount {
    /// The zero amount.
    pub fn zero() -> (r: Amount)
        ensures
            r.atto == 0,
    {
        Amount { atto: 0 }
    }

    /// An amount of `tokens` whole tokens.
    pub fn from_tokens(tokens: u64) -> (r: Amount)
        ensures
            r.atto == tokens * ATTO_PER_TOKEN,
    {
        Amount { atto: (tokens as u128) * ATTO_PER_TOKEN }
    }

    /// An amount of `atto` attotokens.
    pub fn from_attos(atto: u128) -> (r: Amount)
        ensures
            r.atto == atto,
    {
        Amount { atto }
    }

    /// Add, saturating at the largest representable amount.
    pub fn saturating_add(self, other: Amount) -> (r: Amount)
        ensures
            r.atto == spec_sat_add(self.atto, other.atto),
    {
        Amount { atto: self.atto.checked_add(other.atto).unwrap_or(u128::MAX) }
    }

    /// Subtract, saturating at zero.
    pub fn saturating_sub(self, other: Amount) -> (r: Amount)
        ensures
            r.atto == spec_sat_sub(self.atto, other.atto),
    {
        if self.atto >= other.atto {
            Amount { atto: self.atto - other.atto }
        } else {
            Amount { atto: 0 }
        }
    }

    /// Whether this amount is strictly smaller than `other`.
    pub fn lt(self, other: Amount) -> (r: bool)
        ensures
            r == (self.atto < other.atto),
    {
        self.atto < other.atto
    }
}

} // verus!
