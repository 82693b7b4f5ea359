//! The registry state machine: owns every badge mutation.
//!
//! Badges live in a store keyed by agent identity; aggregate counters are
//! maintained transactionally alongside their triggering mutations, so that
//! each counter always equals the count of events actually applied.  The
//! store itself keeps one badge per identity, never deletes one, and keeps
//! `total_registered` equal to the number of badges.

use crate::amount::Amount;
use crate::amount::spec_sat_add;
use crate::amount::spec_sat_sub;
use crate::badge::AgentBadge;
use crate::badge::spec_apply_delta;
use crate::bytes::bytes_equal;
use crate::error::LedgerError;
use crate::ids::AgentId;
use crate::ids::Timestamp;
use crate::manifest::AgentManifest;
use crate::manifest::StorageProvider;
use crate::tier::ReputationTier;
use crate::tier::spec_tier_of;
use vstd::prelude::*;

verus! {

/// The identity of one processed activity-log message: the agent and the
/// task hash it reported.  Tracked so that at-least-once delivery cannot
/// double-count a task.
#[derive(Debug, Clone)]
pub struct TaskKey {
    pub agent_id: AgentId,
    pub task_hash: Vec<u8>,
}

/// The total number of task outcomes recorded across all badges.
pub open spec fn spec_total_tasks(s: Seq<AgentBadge>) -> int
    decreases s.len(),
{
    if s.len() == 0 {
        0
    } else {
        spec_total_tasks(s.drop_last()) + s.last().tasks_completed + s.last().tasks_failed
    }
}

/// The total number of code updates recorded across all badges.
pub open spec fn spec_total_updates(s: Seq<AgentBadge>) -> int
    decreases s.len(),
{
    if s.len() == 0 {
        0
    } else {
        spec_total_updates(s.drop_last()) + s.last().update_count
    }
}

/// Replacing one badge moves each total by the difference of that badge's
/// own contribution.
proof fn lemma_totals_update(s: Seq<AgentBadge>, i: int, b: AgentBadge)
    requires
        0 <= i < s.len(),
    ensures
        spec_total_tasks(s.update(i, b)) == spec_total_tasks(s) - (s[i].tasks_completed
            + s[i].tasks_failed) + (b.tasks_completed + b.tasks_failed),
        spec_total_updates(s.update(i, b)) == spec_total_updates(s) - s[i].update_count
            + b.update_count,
    decreases s.len(),
{
    let s2 = s.update(i, b);
    if i == s.len() - 1 {
        assert(s2.drop_last() =~= s.drop_last());
        assert(s2.last() == b);
    } else {
        assert(s2.drop_last() =~= s.drop_last().update(i, b));
        assert(s2.last() == s.last());
        lemma_totals_update(s.drop_last(), i, b);
    }
}

/// Appending a badge adds its own contribution to each total.
proof fn lemma_totals_push(s: Seq<AgentBadge>, b: AgentBadge)
    ensures
        spec_total_tasks(s.push(b)) == spec_total_tasks(s) + b.tasks_completed
            + b.tasks_failed,
        spec_total_updates(s.push(b)) == spec_total_updates(s) + b.update_count,
{
    assert(s.push(b).drop_last() =~= s);
    assert(s.push(b).last() == b);
}

/// Every badge's contribution is bounded by the whole total.
proof fn lemma_totals_bound(s: Seq<AgentBadge>, i: int)
    requires
        0 <= i < s.len(),
    ensures
        s[i].tasks_completed + s[i].tasks_failed <= spec_total_tasks(s),
        s[i].update_count <= spec_total_updates(s),
        spec_total_tasks(s) >= 0,
        spec_total_updates(s) >= 0,
    decreases s.len(),
{
    lemma_totals_nonneg(s.drop_last());
    if i == s.len() - 1 {
        assert(s.last() == s[i]);
    } else {
        lemma_totals_bound(s.drop_last(), i);
    }
}

/// The totals are sums of non-negative contributions.
proof fn lemma_totals_nonneg(s: Seq<AgentBadge>)
    ensures
        spec_total_tasks(s) >= 0,
        spec_total_updates(s) >= 0,
    decreases s.len(),
{
    if s.len() > 0 {
        lemma_totals_nonneg(s.drop_last());
    }
}

/// No two badges share an owner.
pub open spec fn unique_owners(s: Seq<AgentBadge>) -> bool {
    forall|i: int, j: int| 0 <= i < j < s.len() ==> s[i].owner != s[j].owner
}

/// Some badge belongs to `a`.
pub open spec fn has_owner(s: Seq<AgentBadge>, a: AgentId) -> bool {
    exists|i: int| 0 <= i < s.len() && s[i].owner == a
}

/// The index of the badge belonging to `a` (unique when `unique_owners`).
pub open spec fn owner_idx(s: Seq<AgentBadge>, a: AgentId) -> int {
    choose|i: int| 0 <= i < s.len() && s[i].owner == a
}

/// An activity log for task `h` by agent `a` has already been applied.
pub open spec fn task_processed(keys: Seq<TaskKey>, a: AgentId, h: Seq<u8>) -> bool {
    exists|i: int| 0 <= i < keys.len() && keys[i].agent_id == a && keys[i].task_hash@ == h
}

/// No processed-task key occurs twice.
pub open spec fn unique_task_keys(keys: Seq<TaskKey>) -> bool {
    forall|i: int, j: int|
        0 <= i < j < keys.len() ==> !(keys[i].agent_id == keys[j].agent_id
            && keys[i].task_hash@ == keys[j].task_hash@)
}

/// The root state of the registry chain.
#[derive(Debug)]
pub struct KyaRegistryState {
    /// One badge per agent identity; never deleted.
    pub badges: Vec<AgentBadge>,
    /// Total number of registered agents; always equals the badge count.
    pub total_registered: u64,
    /// Total activity logs applied.
    pub total_logs_processed: u64,
    /// Total code updates across all agents.
    pub total_code_updates: u64,
    /// The activity-log messages already applied, for duplicate delivery.
    pub processed_tasks: Vec<TaskKey>,
}

impl KyaRegistryState {
    /// The registry invariant: badges are uniquely owned and individually
    /// well formed, and each aggregate counter equals the count of events
    /// actually applied - registrations, task outcomes and code updates.
    pub open spec fn wf(self) -> bool {
        &&& unique_owners(self.badges@)
        &&& forall|i: int| 0 <= i < self.badges@.len() ==> (#[trigger] self.badges@[i]).wf()
        &&& self.total_registered == self.badges@.len()
        &&& self.total_logs_processed == spec_total_tasks(self.badges@)
        &&& self.total_code_updates == spec_total_updates(self.badges@)
        &&& unique_task_keys(self.processed_tasks@)
    }

    /// Whether `a` has a badge.
    pub open spec fn spec_has_agent(self, a: AgentId) -> bool {
        has_owner(self.badges@, a)
    }

    /// The badge of `a` (meaningful when `spec_has_agent(a)`).
    pub open spec fn spec_badge(self, a: AgentId) -> AgentBadge {
        self.badges@[owner_idx(self.badges@, a)]
    }

    /// Whether the activity log `(a, h)` has already been applied.
    pub open spec fn spec_task_processed(self, a: AgentId, h: Seq<u8>) -> bool {
        task_processed(self.processed_tasks@, a, h)
    }

    /// An empty registry: no badges, all counters zero.
    pub fn new() -> (r: Self)
        ensures
            r.wf(),
            r.badges@.len() == 0,
            r.total_registered == 0,
            r.total_logs_processed == 0,
            r.total_code_updates == 0,
            r.processed_tasks@.len() == 0,
            forall|a: AgentId| !r.spec_has_agent(a),
    {
        KyaRegistryState {
            badges: Vec::new(),
            total_registered: 0,
            total_logs_processed: 0,
            total_code_updates: 0,
            processed_tasks: Vec::new(),
        }
    }

    /// Find the index of `agent_id`'s badge in the store.
    fn find_badge_index(&self, agent_id: AgentId) -> (r: Option<usize>)
        ensures
            match r {
                Some(i) => i < self.badges@.len() && self.badges@[i as int].owner == agent_id,
                None => !self.spec_has_agent(agent_id),
            },
    {
        let n = self.badges.len();
        let mut i: usize = 0;
        while i < n
            invariant
                n == self.badges@.len(),
                i <= n,
                forall|j: int| 0 <= j < i ==> self.badges@[j].owner != agent_id,
            decreases n - i,
        {
            if self.badges[i].owner == agent_id {
                return Some(i);
            }
            i = i + 1;
        }
        None
    }

    /// Register a new agent badge.
    ///
    /// Fails exactly when the owner already has a badge; on success stores
    /// the badge, bumps the registration counter and returns the storage
    /// content ID.
    pub fn register_agent(&mut self, badge: AgentBadge) -> (r: Result<String, LedgerError>)
        requires
            old(self).wf(),
            badge.wf(),
            badge.tasks_completed == 0,
            badge.tasks_failed == 0,
            badge.update_count == 0,
            old(self).total_registered < u64::MAX,
        ensures
            final(self).wf(),
            r is Ok <==> !old(self).spec_has_agent(badge.owner),
            r matches Err(e) ==> e == LedgerError::AlreadyRegistered && *final(self)
                == *old(self),
            r matches Ok(cid) ==> cid@ == badge.storage_cid@ && final(self).spec_has_agent(
                badge.owner,
            ) && final(self).spec_badge(badge.owner) == badge && final(self).total_registered
                == old(self).total_registered + 1,
            r is Ok ==> forall|b: AgentId|
                b != badge.owner ==> final(self).spec_has_agent(b) == old(self).spec_has_agent(
                    b,
                ),
            r is Ok ==> forall|b: AgentId|
                b != badge.owner && old(self).spec_has_agent(b) ==> final(self).spec_badge(b)
                    == old(self).spec_badge(b),
            final(self).total_logs_processed == old(self).total_logs_processed,
            final(self).total_code_updates == old(self).total_code_updates,
            final(self).processed_tasks == old(self).processed_tasks,
    {
        match self.find_badge_index(badge.owner) {
            Some(_) => {
                proof {
                    assert(self.spec_has_agent(badge.owner));
                }
                Err(LedgerError::AlreadyRegistered)
            },
            None => {
                let storage_cid = badge.storage_cid.clone();
                proof {
                    lemma_push_badge(self.badges@, badge);
                    lemma_totals_push(self.badges@, badge);
                }
                self.badges.push(badge);
                self.total_registered = self.total_registered + 1;
                Ok(storage_cid)
            },
        }
    }

    /// Get an agent's badge.
    pub fn get_badge(&self, agent_id: AgentId) -> (r: Option<&AgentBadge>)
        requires
            self.wf(),
        ensures
            match r {
                Some(b) => self.spec_has_agent(agent_id) && *b == self.spec_badge(agent_id),
                None => !self.spec_has_agent(agent_id),
            },
    {
        match self.find_badge_index(agent_id) {
            Some(i) => {
                proof {
                    lemma_owner_idx(self.badges@, agent_id, i as int);
                }
                Some(&self.badges[i])
            },
            None => None,
        }
    }

    /// Update an agent's code to a new version.
    ///
    /// Fails exactly when the agent has no badge.  On success replaces the
    /// code and manifest fields, increments the badge's update count and
    /// the global update counter, stamps the update time, applies the
    /// re-verification penalty of 50 points to any badge above the lowest
    /// tier, and returns the new manifest version and update count.
    pub fn update_agent_code(
        &mut self,
        agent_id: AgentId,
        code_hash: Vec<u8>,
        storage_provider: StorageProvider,
        storage_cid: String,
        manifest: AgentManifest,
        timestamp: Timestamp,
    ) -> (r: Result<(String, u32), LedgerError>)
        requires
            old(self).wf(),
            code_hash@.len() == 32,
            old(self).total_code_updates < u32::MAX as u64,
        ensures
            final(self).wf(),
            r is Ok <==> old(self).spec_has_agent(agent_id),
            r is Ok ==> final(self).spec_has_agent(agent_id),
            r matches Err(e) ==> e == LedgerError::AgentNotFound && *final(self) == *old(self),
            r is Ok ==> ({
                let ob = old(self).spec_badge(agent_id);
                let nb = final(self).spec_badge(agent_id);
                &&& nb.code_hash == code_hash
                &&& nb.storage_provider == storage_provider
                &&& nb.storage_cid == storage_cid
                &&& nb.manifest == manifest
                &&& nb.update_count == ob.update_count + 1
                &&& nb.last_updated_at == timestamp
                &&& ob.tier != ReputationTier::Unverified ==> nb.reputation_score
                    == spec_apply_delta(ob.reputation_score, -50)
                &&& ob.tier == ReputationTier::Unverified ==> nb.reputation_score
                    == ob.reputation_score
                &&& nb.tier == spec_tier_of(nb.reputation_score)
                &&& nb.owner == ob.owner
                &&& nb.spam_flags == ob.spam_flags
                &&& nb.stake_balance == ob.stake_balance
                &&& nb.subscription_cost == ob.subscription_cost
                &&& nb.last_audit_timestamp == ob.last_audit_timestamp
                &&& nb.tasks_completed == ob.tasks_completed
                &&& nb.tasks_failed == ob.tasks_failed
                &&& nb.registered_at == ob.registered_at
                &&& r matches Ok(p) && p.0@ == manifest.version@ && p.1 == nb.update_count
                &&& final(self).total_code_updates == old(self).total_code_updates + 1
            }),
            unrelated_unchanged(*old(self), *final(self), agent_id),
            final(self).total_registered == old(self).total_registered,
            final(self).total_logs_processed == old(self).total_logs_processed,
            final(self).processed_tasks == old(self).processed_tasks,
    {
        match self.find_badge_index(agent_id) {
            None => Err(LedgerError::AgentNotFound),
            Some(i) => {
                let ghost pre = self.badges@;
                proof {
                    lemma_totals_bound(pre, i as int);
                }
                let badge = &mut self.badges[i];
                badge.update_code(code_hash, storage_provider, storage_cid, manifest,
                    timestamp);
                proof {
                    lemma_set_badge(pre, self.badges@, i as int, agent_id);
                    lemma_totals_update(pre, i as int, self.badges@[i as int]);
                }
                self.total_code_updates = self.total_code_updates + 1;
                let version = self.badges[i].manifest.version.clone();
                let update_count = self.badges[i].update_count;
                Ok((version, update_count))
            },
        }
    }

    /// Verify that an agent's stored code hash matches an externally
    /// supplied expectation.  Fails exactly when the agent has no badge.
    pub fn verify_code_hash(&self, agent_id: AgentId, expected_hash: &[u8]) -> (r: Result<
        bool,
        LedgerError,
    >)
        requires
            self.wf(),
        ensures
            r is Ok <==> self.spec_has_agent(agent_id),
            r matches Err(e) ==> e == LedgerError::AgentNotFound,
            r matches Ok(m) ==> (m <==> self.spec_badge(agent_id).code_hash@
                == expected_hash@),
    {
        match self.find_badge_index(agent_id) {
            None => Err(LedgerError::AgentNotFound),
            Some(i) => {
                proof {
                    lemma_owner_idx(self.badges@, agent_id, i as int);
                }
                Ok(bytes_equal(self.badges[i].code_hash.as_slice(), expected_hash))
            },
        }
    }

    /// Record a task result for an agent: bump the matching task counter,
    /// apply the automatic reward (+1 on success) or penalty (-2 on
    /// failure), recompute the tier, and count the processed log.
    ///
    /// Fails exactly when the agent has no badge.
    pub fn record_task(&mut self, agent_id: AgentId, success: bool) -> (r: Result<
        (),
        LedgerError,
    >)
        requires
            old(self).wf(),
            old(self).total_logs_processed < u64::MAX,
        ensures
            final(self).wf(),
            r is Ok <==> old(self).spec_has_agent(agent_id),
            r is Ok ==> final(self).spec_has_agent(agent_id),
            r matches Err(e) ==> e == LedgerError::AgentNotFound && *final(self) == *old(self),
            r is Ok ==> ({
                let ob = old(self).spec_badge(agent_id);
                let nb = final(self).spec_badge(agent_id);
                &&& success ==> nb == (AgentBadge {
                    tasks_completed: (ob.tasks_completed + 1) as u64,
                    reputation_score: spec_apply_delta(ob.reputation_score, 1),
                    tier: spec_tier_of(spec_apply_delta(ob.reputation_score, 1)),
                    ..ob
                })
                &&& !success ==> nb == (AgentBadge {
                    tasks_failed: (ob.tasks_failed + 1) as u64,
                    reputation_score: spec_apply_delta(ob.reputation_score, -2),
                    tier: spec_tier_of(spec_apply_delta(ob.reputation_score, -2)),
                    ..ob
                })
                &&& final(self).total_logs_processed == old(self).total_logs_processed + 1
            }),
            unrelated_unchanged(*old(self), *final(self), agent_id),
            final(self).total_registered == old(self).total_registered,
            final(self).total_code_updates == old(self).total_code_updates,
            final(self).processed_tasks == old(self).processed_tasks,
    {
        match self.find_badge_index(agent_id) {
            None => Err(LedgerError::AgentNotFound),
            Some(i) => {
                let ghost pre = self.badges@;
                proof {
                    lemma_totals_bound(pre, i as int);
                }
                let badge = &mut self.badges[i];
                if success {
                    badge.tasks_completed = badge.tasks_completed + 1;
                    badge.reputation_score = apply_delta(badge.reputation_score, 1);
                } else {
                    badge.tasks_failed = badge.tasks_failed + 1;
                    badge.reputation_score = apply_delta(badge.reputation_score, -2);
                }
                badge.update_tier();
                proof {
                    lemma_set_badge(pre, self.badges@, i as int, agent_id);
                    lemma_totals_update(pre, i as int, self.badges@[i as int]);
                }
                self.total_logs_processed = self.total_logs_processed + 1;
                Ok(())
            },
        }
    }

    /// Flag an agent for spam: bump the saturating flag counter, apply a
    /// heavy penalty of 50 points, recompute the tier, and return the flag
    /// total.  Fails exactly when the agent has no badge.
    pub fn flag_spam(&mut self, agent_id: AgentId) -> (r: Result<u8, LedgerError>)
        requires
            old(self).wf(),
        ensures
            final(self).wf(),
            r is Ok <==> old(self).spec_has_agent(agent_id),
            r is Ok ==> final(self).spec_has_agent(agent_id),
            r matches Err(e) ==> e == LedgerError::AgentNotFound && *final(self) == *old(self),
            r is Ok ==> ({
                let ob = old(self).spec_badge(agent_id);
                let nb = final(self).spec_badge(agent_id);
                let flags = if ob.spam_flags < 255 {
                    (ob.spam_flags + 1) as u8
                } else {
                    255u8
                };
                &&& nb == (AgentBadge {
                    spam_flags: flags,
                    reputation_score: spec_apply_delta(ob.reputation_score, -50),
                    tier: spec_tier_of(spec_apply_delta(ob.reputation_score, -50)),
                    ..ob
                })
                &&& r == Ok::<u8, LedgerError>(flags)
            }),
            unrelated_unchanged(*old(self), *final(self), agent_id),
            final(self).total_registered == old(self).total_registered,
            final(self).total_logs_processed == old(self).total_logs_processed,
            final(self).total_code_updates == old(self).total_code_updates,
            final(self).processed_tasks == old(self).processed_tasks,
    {
        match self.find_badge_index(agent_id) {
            None => Err(LedgerError::AgentNotFound),
            Some(i) => {
                let ghost pre = self.badges@;
                let badge = &mut self.badges[i];
                badge.spam_flags = if badge.spam_flags < 255 {
                    badge.spam_flags + 1
                } else {
                    255
                };
                badge.reputation_score = apply_delta(badge.reputation_score, -50);
                badge.update_tier();
                proof {
                    lemma_set_badge(pre, self.badges@, i as int, agent_id);
                    lemma_totals_update(pre, i as int, self.badges@[i as int]);
                }
                Ok(self.badges[i].spam_flags)
            },
        }
    }

    /// Increase an agent's stake balance, saturating at the largest
    /// representable amount, and return the new balance.  Fails exactly
    /// when the agent has no badge.
    pub fn stake_tokens(&mut self, agent_id: AgentId, amount: Amount) -> (r: Result<
        Amount,
        LedgerError,
    >)
        requires
            old(self).wf(),
        ensures
            final(self).wf(),
            r is Ok <==> old(self).spec_has_agent(agent_id),
            r is Ok ==> final(self).spec_has_agent(agent_id),
            r matches Err(e) ==> e == LedgerError::AgentNotFound && *final(self) == *old(self),
            r is Ok ==> ({
                let ob = old(self).spec_badge(agent_id);
                let nb = final(self).spec_badge(agent_id);
                &&& nb == (AgentBadge {
                    stake_balance: Amount {
                        atto: spec_sat_add(ob.stake_balance.atto, amount.atto),
                    },
                    ..ob
                })
                &&& r matches Ok(balance) && balance == nb.stake_balance
            }),
            unrelated_unchanged(*old(self), *final(self), agent_id),
            final(self).total_registered == old(self).total_registered,
            final(self).total_logs_processed == old(self).total_logs_processed,
            final(self).total_code_updates == old(self).total_code_updates,
            final(self).processed_tasks == old(self).processed_tasks,
    {
        match self.find_badge_index(agent_id) {
            None => Err(LedgerError::AgentNotFound),
            Some(i) => {
                let ghost pre = self.badges@;
                let badge = &mut self.badges[i];
                badge.stake_balance = badge.stake_balance.saturating_add(amount);
                proof {
                    lemma_set_badge(pre, self.badges@, i as int, agent_id);
                    lemma_totals_update(pre, i as int, self.badges@[i as int]);
                }
                Ok(self.badges[i].stake_balance)
            },
        }
    }

    /// Decrease an agent's stake balance by exactly `amount` and return
    /// the remainder.
    ///
    /// Fails with `AgentNotFound` when the agent has no badge, and with
    /// `InsufficientStake` - leaving the balance unchanged - exactly when
    /// `amount` exceeds the staked balance.
    pub fn unstake_tokens(&mut self, agent_id: AgentId, amount: Amount) -> (r: Result<
        Amount,
        LedgerError,
    >)
        requires
            old(self).wf(),
        ensures
            final(self).wf(),
            r is Ok <==> old(self).spec_has_agent(agent_id) && amount.atto <= old(
                self,
            ).spec_badge(agent_id).stake_balance.atto,
            r is Ok ==> final(self).spec_has_agent(agent_id),
            !old(self).spec_has_agent(agent_id) ==> r == Err::<Amount, LedgerError>(
                LedgerError::AgentNotFound,
            ),
            old(self).spec_has_agent(agent_id) && amount.atto > old(self).spec_badge(
                agent_id,
            ).stake_balance.atto ==> r == Err::<Amount, LedgerError>(
                LedgerError::InsufficientStake,
            ),
            r is Err ==> *final(self) == *old(self),
            r is Ok ==> ({
                let ob = old(self).spec_badge(agent_id);
                let nb = final(self).spec_badge(agent_id);
                &&& nb == (AgentBadge {
                    stake_balance: Amount { atto: (ob.stake_balance.atto - amount.atto) as u128 },
                    ..ob
                })
                &&& r matches Ok(remaining) && remaining == nb.stake_balance
            }),
            unrelated_unchanged(*old(self), *final(self), agent_id),
            final(self).total_registered == old(self).total_registered,
            final(self).total_logs_processed == old(self).total_logs_processed,
            final(self).total_code_updates == old(self).total_code_updates,
            final(self).processed_tasks == old(self).processed_tasks,
    {
        match self.find_badge_index(agent_id) {
            None => Err(LedgerError::AgentNotFound),
            Some(i) => {
                proof {
                    lemma_owner_idx(self.badges@, agent_id, i as int);
                }
                if self.badges[i].stake_balance.lt(amount) {
                    return Err(LedgerError::InsufficientStake);
                }
                let ghost pre = self.badges@;
                let badge = &mut self.badges[i];
                badge.stake_balance = badge.stake_balance.saturating_sub(amount);
                proof {
                    lemma_set_badge(pre, self.badges@, i as int, agent_id);
                    lemma_totals_update(pre, i as int, self.badges@[i as int]);
                }
                Ok(self.badges[i].stake_balance)
            },
        }
    }

    /// Slash an agent's stake: remove up to `amount` from the balance,
    /// saturating at zero, and return the amount actually slashed.
    ///
    /// Unlike a withdrawal, slashing an amount above the balance is not an
    /// error: the balance is clamped to zero and the clamped amount is
    /// reported.  Fails exactly when the agent has no badge.
    pub fn slash_tokens(&mut self, agent_id: AgentId, amount: Amount) -> (r: Result<
        Amount,
        LedgerError,
    >)
        requires
            old(self).wf(),
        ensures
            final(self).wf(),
            r is Ok <==> old(self).spec_has_agent(agent_id),
            r is Ok ==> final(self).spec_has_agent(agent_id),
            r matches Err(e) ==> e == LedgerError::AgentNotFound && *final(self) == *old(self),
            r is Ok ==> ({
                let ob = old(self).spec_badge(agent_id);
                let nb = final(self).spec_badge(agent_id);
                let slashed = if amount.atto <= ob.stake_balance.atto {
                    amount.atto
                } else {
                    ob.stake_balance.atto
                };
                &&& nb == (AgentBadge {
                    stake_balance: Amount {
                        atto: spec_sat_sub(ob.stake_balance.atto, amount.atto),
                    },
                    ..ob
                })
                &&& r == Ok::<Amount, LedgerError>(Amount { atto: slashed })
            }),
            unrelated_unchanged(*old(self), *final(self), agent_id),
            final(self).total_registered == old(self).total_registered,
            final(self).total_logs_processed == old(self).total_logs_processed,
            final(self).total_code_updates == old(self).total_code_updates,
            final(self).processed_tasks == old(self).processed_tasks,
    {
        match self.find_badge_index(agent_id) {
            None => Err(LedgerError::AgentNotFound),
            Some(i) => {
                let ghost pre = self.badges@;
                let badge = &mut self.badges[i];
                let slashed = if amount.atto <= badge.stake_balance.atto {
                    amount
                } else {
                    badge.stake_balance
                };
                badge.stake_balance = badge.stake_balance.saturating_sub(amount);
                proof {
                    lemma_set_badge(pre, self.badges@, i as int, agent_id);
                    lemma_totals_update(pre, i as int, self.badges@[i as int]);
                }
                Ok(slashed)
            },
        }
    }

    /// Set the cost to subscribe to this agent.  Fails exactly when the
    /// agent has no badge.
    pub fn set_subscription_cost(&mut self, agent_id: AgentId, cost: Amount) -> (r: Result<
        (),
        LedgerError,
    >)
        requires
            old(self).wf(),
        ensures
            final(self).wf(),
            r is Ok <==> old(self).spec_has_agent(agent_id),
            r is Ok ==> final(self).spec_has_agent(agent_id),
            r matches Err(e) ==> e == LedgerError::AgentNotFound && *final(self) == *old(self),
            r is Ok ==> final(self).spec_badge(agent_id) == (AgentBadge {
                subscription_cost: cost,
                ..old(self).spec_badge(agent_id)
            }),
            unrelated_unchanged(*old(self), *final(self), agent_id),
            final(self).total_registered == old(self).total_registered,
            final(self).total_logs_processed == old(self).total_logs_processed,
            final(self).total_code_updates == old(self).total_code_updates,
            final(self).processed_tasks == old(self).processed_tasks,
    {
        match self.find_badge_index(agent_id) {
            None => Err(LedgerError::AgentNotFound),
            Some(i) => {
                let ghost pre = self.badges@;
                let badge = &mut self.badges[i];
                badge.subscription_cost = cost;
                proof {
                    lemma_set_badge(pre, self.badges@, i as int, agent_id);
                    lemma_totals_update(pre, i as int, self.badges@[i as int]);
                }
                Ok(())
            },
        }
    }

    /// Read the cost to subscribe to this agent.  Fails exactly when the
    /// agent has no badge.
    pub fn get_subscription_cost(&self, agent_id: AgentId) -> (r: Result<Amount, LedgerError>)
        requires
            self.wf(),
        ensures
            r is Ok <==> self.spec_has_agent(agent_id),
            r matches Err(e) ==> e == LedgerError::AgentNotFound,
            r matches Ok(cost) ==> cost == self.spec_badge(agent_id).subscription_cost,
    {
        match self.find_badge_index(agent_id) {
            None => Err(LedgerError::AgentNotFound),
            Some(i) => {
                proof {
                    lemma_owner_idx(self.badges@, agent_id, i as int);
                }
                Ok(self.badges[i].subscription_cost)
            },
        }
    }

    /// Apply a signed delta to an agent's reputation score, saturating at
    /// the `[0, 1000]` bounds, and recompute the tier.
    ///
    /// Fails exactly when the agent has no badge; every other badge field
    /// and every counter is left unchanged.
    pub fn update_score(&mut self, agent_id: AgentId, delta: i16) -> (r: Result<
        (u16, ReputationTier),
        LedgerError,
    >)
        requires
            old(self).wf(),
        ensures
            final(self).wf(),
            r is Ok <==> old(self).spec_has_agent(agent_id),
            r is Ok ==> final(self).spec_has_agent(agent_id),
            r matches Err(e) ==> e == LedgerError::AgentNotFound && *final(self) == *old(self),
            r matches Ok(p) ==> p.0 == spec_apply_delta(
                old(self).spec_badge(agent_id).reputation_score,
                delta as int,
            ) && p.0 <= 1000 && p.1 == spec_tier_of(p.0),
            r is Ok ==> final(self).spec_badge(agent_id) == (AgentBadge {
                reputation_score: spec_apply_delta(
                    old(self).spec_badge(agent_id).reputation_score,
                    delta as int,
                ),
                tier: spec_tier_of(
                    spec_apply_delta(
                        old(self).spec_badge(agent_id).reputation_score,
                        delta as int,
                    ),
                ),
                ..old(self).spec_badge(agent_id)
            }),
            unrelated_unchanged(*old(self), *final(self), agent_id),
            final(self).total_registered == old(self).total_registered,
            final(self).total_logs_processed == old(self).total_logs_processed,
            final(self).total_code_updates == old(self).total_code_updates,
            final(self).processed_tasks == old(self).processed_tasks,
    {
        match self.find_badge_index(agent_id) {
            None => Err(LedgerError::AgentNotFound),
            Some(i) => {
                let ghost pre = self.badges@;
                let badge = &mut self.badges[i];
                let new_score = apply_delta(badge.reputation_score, delta);
                badge.reputation_score = new_score;
                badge.update_tier();
                proof {
                    lemma_set_badge(pre, self.badges@, i as int, agent_id);
                    lemma_totals_update(pre, i as int, self.badges@[i as int]);
                }
                let b = &self.badges[i];
                Ok((b.reputation_score, b.tier))
            },
        }
    }

}

/// Staking an amount and then unstaking the same amount returns the stake
/// balance to its pre-stake value, and the withdrawal is owed success.
///
/// `s0` is the state before the stake, `s1` the state after it, and `s2`
/// the state after the withdrawal; the requires restate what the two
/// calls' contracts say of them.  The law holds provided the stake did not
/// saturate: from a balance of `u128::MAX - 1` attotokens, staking 2
/// saturates and the withdrawal recovers only the saturated value.
pub proof fn lemma_stake_unstake_roundtrip(
    s0: KyaRegistryState,
    s1: KyaRegistryState,
    s2: KyaRegistryState,
    a: AgentId,
    x: Amount,
)
    requires
        s0.spec_has_agent(a),
        s0.spec_badge(a).stake_balance.atto + x.atto <= u128::MAX,
        s1.spec_badge(a) == (AgentBadge {
            stake_balance: Amount {
                atto: spec_sat_add(s0.spec_badge(a).stake_balance.atto, x.atto),
            },
            ..s0.spec_badge(a)
        }),
        s2.spec_badge(a) == (AgentBadge {
            stake_balance: Amount {
                atto: (s1.spec_badge(a).stake_balance.atto - x.atto) as u128,
            },
            ..s1.spec_badge(a)
        }),
    ensures
        x.atto <= s1.spec_badge(a).stake_balance.atto,
        s2.spec_badge(a).stake_balance == s0.spec_badge(a).stake_balance,
{
}

/// Every agent other than `a` keeps its registration status and badge.
pub open spec fn unrelated_unchanged(
    pre: KyaRegistryState,
    post: KyaRegistryState,
    a: AgentId,
) -> bool {
    &&& forall|b: AgentId| b != a ==> post.spec_has_agent(b) == pre.spec_has_agent(b)
    &&& forall|b: AgentId|
        b != a && pre.spec_has_agent(b) ==> post.spec_badge(b) == pre.spec_badge(b)
}

/// Apply a signed delta to a score with saturation at the `[0, 1000]`
/// bounds.
fn apply_delta(score: u16, delta: i16) -> (r: u16)
    requires
        score <= 1000,
    ensures
        r == spec_apply_delta(score, delta as int),
{
    if delta < 0 {
        let magnitude = (-(delta as i32)) as u16;
        if score >= magnitude {
            score - magnitude
        } else {
            0
        }
    } else {
        let raised = score + (delta as u16);
        if raised > 1000 {
            1000
        } else {
            raised
        }
    }
}

/// With unique owners, any index holding `a`'s badge is the chosen one.
proof fn lemma_owner_idx(s: Seq<AgentBadge>, a: AgentId, i: int)
    requires
        unique_owners(s),
        0 <= i < s.len(),
        s[i].owner == a,
    ensures
        has_owner(s, a),
        owner_idx(s, a) == i,
{
    assert(has_owner(s, a));
    let j = owner_idx(s, a);
    assert(0 <= j < s.len() && s[j].owner == a);
    if i < j {
        assert(s[i].owner != s[j].owner);
    } else if j < i {
        assert(s[j].owner != s[i].owner);
    }
}

/// Replacing `a`'s badge in place, owner unchanged, leaves every other
/// badge and the ownership relation untouched.
proof fn lemma_set_badge(pre: Seq<AgentBadge>, post: Seq<AgentBadge>, i: int, a: AgentId)
    requires
        unique_owners(pre),
        0 <= i < pre.len(),
        pre[i].owner == a,
        post.len() == pre.len(),
        post == pre.update(i, post[i]),
        post[i].owner == a,
    ensures
        unique_owners(post),
        has_owner(post, a),
        owner_idx(post, a) == i,
        owner_idx(pre, a) == i,
        forall|b: AgentId| b != a ==> has_owner(post, b) == has_owner(pre, b),
        forall|b: AgentId|
            b != a && has_owner(pre, b) ==> post[owner_idx(post, b)] == pre[owner_idx(pre, b)],
{
    assert(forall|j: int| 0 <= j < post.len() && j != i ==> post[j] == pre[j]);
    assert(forall|j: int| 0 <= j < post.len() ==> post[j].owner == pre[j].owner);
    assert(unique_owners(post));
    lemma_owner_idx(pre, a, i);
    lemma_owner_idx(post, a, i);
    assert forall|b: AgentId| b != a implies has_owner(post, b) == has_owner(pre, b) by {
        if has_owner(pre, b) {
            let j = owner_idx(pre, b);
            assert(0 <= j < pre.len() && pre[j].owner == b);
            assert(post[j].owner == b);
            assert(has_owner(post, b));
        }
        if has_owner(post, b) {
            let j = choose|j: int| 0 <= j < post.len() && post[j].owner == b;
            assert(pre[j].owner == b);
            assert(has_owner(pre, b));
        }
    }
    assert forall|b: AgentId| b != a && has_owner(pre, b) implies post[owner_idx(post, b)]
        == pre[owner_idx(pre, b)] by {
        let j = owner_idx(pre, b);
        lemma_owner_idx(pre, b, j);
        assert(0 <= j < pre.len() && pre[j].owner == b);
        assert(post[j].owner == b);
        lemma_owner_idx(post, b, j);
        assert(j != i);
        assert(post[j] == pre[j]);
    }
}

/// Appending a badge for a fresh owner keeps owners unique and leaves
/// every existing badge in place.
proof fn lemma_push_badge(pre: Seq<AgentBadge>, b: AgentBadge)
    requires
        unique_owners(pre),
        !has_owner(pre, b.owner),
    ensures
        unique_owners(pre.push(b)),
        has_owner(pre.push(b), b.owner),
        owner_idx(pre.push(b), b.owner) == pre.len(),
        forall|c: AgentId| c != b.owner ==> has_owner(pre.push(b), c) == has_owner(pre, c),
        forall|c: AgentId|
            c != b.owner && has_owner(pre, c) ==> pre.push(b)[owner_idx(pre.push(b), c)]
                == pre[owner_idx(pre, c)],
{
    let post = pre.push(b);
    assert(forall|j: int| 0 <= j < pre.len() ==> post[j] == pre[j]);
    assert(post[pre.len() as int] == b);
    assert forall|i: int, j: int| 0 <= i < j < post.len() implies post[i].owner
        != post[j].owner by {
        if j == pre.len() as int {
            if post[i].owner == b.owner {
                assert(has_owner(pre, b.owner));
            }
        }
    }
    lemma_owner_idx(post, b.owner, pre.len() as int);
    assert forall|c: AgentId| c != b.owner implies has_owner(post, c) == has_owner(pre, c) by {
        if has_owner(pre, c) {
            let j = owner_idx(pre, c);
            assert(0 <= j < pre.len() && pre[j].owner == c);
            assert(post[j].owner == c);
            assert(has_owner(post, c));
        }
        if has_owner(post, c) {
            let j = choose|j: int| 0 <= j < post.len() && post[j].owner == c;
            assert(j != pre.len() as int);
            assert(pre[j].owner == c);
            assert(has_owner(pre, c));
        }
    }
    assert forall|c: AgentId| c != b.owner && has_owner(pre, c) implies post[owner_idx(post, c)]
        == pre[owner_idx(pre, c)] by {
        let j = owner_idx(pre, c);
        lemma_owner_idx(pre, c, j);
        assert(post[j].owner == c);
        lemma_owner_idx(post, c, j);
    }
}

} // verus!
