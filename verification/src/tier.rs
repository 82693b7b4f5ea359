//! Reputation tiers: a coarse trust bucket derived purely from the score.

use vstd::prelude::*;

verus! {

/// A reputation tier.  The tier is never independent state: it is always
/// the value of [`spec_tier_of`] at the badge's current score, recomputed
/// after every score change.
#[derive(Debug, Clone, Copy, PartialEq, Eq, Structural, Default)]
pub enum ReputationTier {
    #[default]
    Unverified,
    Verified,
    Gold,
    Platinum,
}

/// The tier that a reputation score maps to: a total four-way partition
/// of the scores with no gaps and no overlaps.  Scores above the
/// `[0, 1000]` bound (which the badge invariant rules out) fall into the
/// top tier.
pub open spec fn spec_tier_of(score: u16) -> ReputationTier {
    if score <= 249 {
        ReputationTier::Unverified
    } else if score <= 499 {
        ReputationTier::Verified
    } else if score <= 749 {
        ReputationTier::Gold
    } else {
        ReputationTier::Platinum
    }
}

/// The request-rate ceiling attached to a tier; `None` means unlimited.
pub open spec fn spec_rate_limit(tier: ReputationTier) -> Option<u32> {
    match tier {
        ReputationTier::Unverified => Some(0u32),
        ReputationTier::Verified => Some(10u32),
        ReputationTier::Gold => Some(100u32),
        ReputationTier::Platinum => None,
    }
}

impl ReputationTier {
    /// Get the rate limit for this tier (requests per second).
    pub fn rate_limit(&self) -> (r: Option<u32>)
        ensures
            r == spec_rate_limit(*self),
    {
        match self {
            ReputationTier::Unverified => Some(0),
            ReputationTier::Verified => Some(10),
            ReputationTier::Gold => Some(100),
            ReputationTier::Platinum => None,
        }
    }

    /// The tier's name, as carried in score commitments.
    pub fn label(&self) -> (r: &'static str)
        ensures
            (*self == ReputationTier::Unverified ==> r@ == "Unverified"@)
                && (*self == ReputationTier::Verified ==> r@ == "Verified"@)
                && (*self == ReputationTier::Gold ==> r@ == "Gold"@)
                && (*self == ReputationTier::Platinum ==> r@ == "Platinum"@),
    {
        match self {
            ReputationTier::Unverified => "Unverified",
            ReputationTier::Verified => "Verified",
            ReputationTier::Gold => "Gold",
            ReputationTier::Platinum => "Platinum",
        }
    }

    /// Calculate the tier from a reputation score.
    pub fn from_score(score: u16) -> (r: Self)
        ensures
            r == spec_tier_of(score),
    {
        if score <= 249 {
            ReputationTier::Unverified
        } else if score <= 499 {
            ReputationTier::Verified
        } else if score <= 749 {
            ReputationTier::Gold
        } else {
            ReputationTier::Platinum
        }
    }
}

} // verus!
