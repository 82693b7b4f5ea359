//! The reputation badge: one durable record per agent identity.
//!
//! A badge is created on registration, mutated by every subsequent event,
//! and never deleted.  Its score stays within `[0, 1000]`, and its tier is
//! always the pure function of the score.

use crate::amount::Amount;
use crate::crypto::spec_hex;
use crate::crypto::hex_encode;
use crate::ids::AgentId;
use crate::ids::Timestamp;
use crate::manifest::AgentManifest;
use crate::manifest::StorageProvider;
use crate::tier::ReputationTier;
use crate::tier::spec_tier_of;
use vstd::prelude::*;

verus! {

/// A signed score delta applied with saturation at the `[0, 1000]` bounds.
pub open spec fn spec_apply_delta(score: u16, delta: int) -> u16 {
    let s = score + delta;
    if s < 0 {
        0u16
    } else if s > 1000 {
        1000u16
    } else {
        s as u16
    }
}

/// However a valid score delta is applied, the resulting score stays in
/// `[0, 1000]`: the bounds saturate and never overflow or underflow.
pub proof fn lemma_score_stays_bounded(score: u16, delta: int)
    ensures
        spec_apply_delta(score, delta) <= 1000,
{
}

/// The dynamic reputation badge of one agent.
#[derive(Debug, Clone)]
pub struct AgentBadge {
    /// The agent this badge belongs to.
    pub owner: AgentId,
    /// SHA-256 hash of the full code package (32 bytes).
    pub code_hash: Vec<u8>,
    /// Storage provider for the full code package.
    pub storage_provider: StorageProvider,
    /// Content ID for off-chain storage; never dereferenced by the core.
    pub storage_cid: String,
    /// Agent manifest with capabilities, tools, permissions.
    pub manifest: AgentManifest,
    /// Reputation score, always within `[0, 1000]`.
    pub reputation_score: u16,
    /// Current tier; always `spec_tier_of(reputation_score)`.
    pub tier: ReputationTier,
    /// Count of reported spam/abuse incidents; saturating, never decreases.
    pub spam_flags: u8,
    /// Total amount staked by the agent.
    pub stake_balance: Amount,
    /// Cost to subscribe to this agent.
    pub subscription_cost: Amount,
    /// Timestamp of the last audit.
    pub last_audit_timestamp: Timestamp,
    /// Number of successful tasks completed.
    pub tasks_completed: u64,
    /// Number of failed tasks.
    pub tasks_failed: u64,
    /// Number of code updates.
    pub update_count: u32,
    /// Timestamp of registration.
    pub registered_at: Timestamp,
    /// Timestamp of the last code update.
    pub last_updated_at: Timestamp,
}

/// The badge a freshly registered agent receives: base score 100,
/// lowest tier, zero stake, flags and counters, all timestamps `now`.
pub open spec fn spec_new_badge(
    owner: AgentId,
    code_hash: Vec<u8>,
    storage_provider: StorageProvider,
    storage_cid: String,
    manifest: AgentManifest,
    timestamp: Timestamp,
) -> AgentBadge {
    AgentBadge {
        owner,
        code_hash,
        storage_provider,
        storage_cid,
        manifest,
        reputation_score: 100u16,
        tier: ReputationTier::Unverified,
        spam_flags: 0u8,
        stake_balance: Amount { atto: 0 },
        subscription_cost: Amount { atto: 0 },
        last_audit_timestamp: timestamp,
        tasks_completed: 0u64,
        tasks_failed: 0u64,
        update_count: 0u32,
        registered_at: timestamp,
        last_updated_at: timestamp,
    }
}

impl AgentBadge {
    /// The badge invariant: the score is bounded, the tier is derived from
    /// it, and the stored code hash is a full SHA-256 digest.
    pub open spec fn wf(self) -> bool {
        &&& self.reputation_score <= 1000
        &&& self.tier == spec_tier_of(self.reputation_score)
        &&& self.code_hash@.len() == 32
    }

    /// Create a new badge for a freshly registered agent.
    pub fn new(
        owner: AgentId,
        code_hash: Vec<u8>,
        storage_provider: StorageProvider,
        storage_cid: String,
        manifest: AgentManifest,
        timestamp: Timestamp,
    ) -> (r: Self)
        requires
            code_hash@.len() == 32,
        ensures
            r == spec_new_badge(owner, code_hash, storage_provider, storage_cid, manifest,
            timestamp),
            r.wf(),
    {
        AgentBadge {
            owner,
            code_hash,
            storage_provider,
            storage_cid,
            manifest,
            reputation_score: 100,
            tier: ReputationTier::Unverified,
            spam_flags: 0,
            stake_balance: Amount::zero(),
            subscription_cost: Amount::zero(),
            last_audit_timestamp: timestamp,
            tasks_completed: 0,
            tasks_failed: 0,
            update_count: 0,
            registered_at: timestamp,
            last_updated_at: timestamp,
        }
    }

    /// Recalculate the tier from the current score.
    pub fn update_tier(&mut self)
        ensures
            *final(self) == (AgentBadge {
                tier: spec_tier_of(old(self).reputation_score),
                ..*old(self)
            }),
    {
        self.tier = ReputationTier::from_score(self.reputation_score);
    }

    /// Update the agent's code to a new version.
    ///
    /// Replaces the code and manifest fields, increments the update count
    /// and sets the update timestamp.  A badge above the lowest tier pays a
    /// fixed penalty of 50 points (saturating at 0), after which the tier is
    /// recomputed: code changes invalidate prior trust.
    pub fn update_code(
        &mut self,
        code_hash: Vec<u8>,
        storage_provider: StorageProvider,
        storage_cid: String,
        manifest: AgentManifest,
        timestamp: Timestamp,
    )
        requires
            old(self).wf(),
            code_hash@.len() == 32,
            old(self).update_count < u32::MAX,
        ensures
            final(self).owner == old(self).owner,
            final(self).code_hash == code_hash,
            final(self).storage_provider == storage_provider,
            final(self).storage_cid == storage_cid,
            final(self).manifest == manifest,
            final(self).update_count == old(self).update_count + 1,
            final(self).last_updated_at == timestamp,
            old(self).tier != ReputationTier::Unverified ==> final(self).reputation_score
                == spec_apply_delta(old(self).reputation_score, -50),
            old(self).tier == ReputationTier::Unverified ==> final(self).reputation_score
                == old(self).reputation_score,
            final(self).tier == spec_tier_of(final(self).reputation_score),
            final(self).spam_flags == old(self).spam_flags,
            final(self).stake_balance == old(self).stake_balance,
            final(self).subscription_cost == old(self).subscription_cost,
            final(self).last_audit_timestamp == old(self).last_audit_timestamp,
            final(self).tasks_completed == old(self).tasks_completed,
            final(self).tasks_failed == old(self).tasks_failed,
            final(self).registered_at == old(self).registered_at,
            final(self).wf(),
    {
        self.code_hash = code_hash;
        self.storage_provider = storage_provider;
        self.storage_cid = storage_cid;
        self.manifest = manifest;
        self.update_count = self.update_count + 1;
        self.last_updated_at = timestamp;
        if self.tier != ReputationTier::Unverified {
            // Small penalty for updating code without re-audit.
            self.reputation_score = if self.reputation_score >= 50 {
                self.reputation_score - 50
            } else {
                0
            };
            self.update_tier();
        }
    }

    /// Render the stored code hash as a lowercase hex string.
    pub fn code_hash_hex(&self) -> (r: String)
        ensures
            r@ == spec_hex(self.code_hash@),
    {
        hex_encode(self.code_hash.as_slice())
    }
}

} // verus!
