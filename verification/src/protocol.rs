//! The registry's operation surface and cross-chain message protocol.
//!
//! Operations are synchronous, locally authenticated requests; messages are
//! asynchronous, at-least-once, cross-chain events.  Inbound messages that
//! reference a nonexistent agent are silently dropped, and activity logs are
//! keyed on their task hash so that duplicate delivery cannot double-count.

use crate::amount::Amount;
use crate::amount::spec_sat_add;
use crate::amount::spec_sat_sub;
use crate::badge::AgentBadge;
use crate::badge::spec_apply_delta;
use crate::badge::spec_new_badge;
use crate::bytes::bytes_equal;
use crate::error::LedgerError;
use crate::ids::AgentId;
use crate::ids::ChainId;
use crate::ids::Timestamp;
use crate::manifest::AgentManifest;
use crate::manifest::StorageProvider;
use crate::registry::KyaRegistryState;
use crate::registry::TaskKey;
use crate::registry::task_processed;
use crate::registry::unique_task_keys;
use crate::registry::unrelated_unchanged;
use crate::tier::ReputationTier;
use crate::tier::spec_tier_of;
use vstd::prelude::*;

verus! {

/// Operations that can be performed on the registry.
#[derive(Debug, Clone)]
pub enum Operation {
    /// Register a new agent with full manifest.
    RegisterAgent {
        code_hash: Vec<u8>,
        storage_provider: StorageProvider,
        storage_cid: String,
        manifest: AgentManifest,
    },
    /// Update an existing agent's code (new version).
    UpdateAgentCode {
        code_hash: Vec<u8>,
        storage_provider: StorageProvider,
        storage_cid: String,
        manifest: AgentManifest,
    },
    /// Manually adjust an agent's score (admin/DAO only).
    AdjustScore { agent_id: AgentId, delta: i16, reason: String },
    /// Flag an agent for spam/abuse.
    FlagSpam { agent_id: AgentId, evidence: String },
    /// Submit an audit result for an agent.
    SubmitAudit { agent_id: AgentId, passed: bool, auditor_notes: String },
    /// Verify that a code hash matches the stored one (anyone may ask).
    VerifyCodeHash { agent_id: AgentId, expected_hash: Vec<u8> },
    /// Lock tokens to increase security/trust.
    Stake { amount: Amount },
    /// Withdraw staked tokens.
    Unstake { amount: Amount },
    /// Slash an agent's stake (governance only).
    Slash { agent_id: AgentId, amount: Amount },
    /// Set the subscription cost for this agent.
    SetSubscriptionCost { cost: Amount },
    /// Pay the agent for a subscription; the core only reports the price.
    Subscribe { agent_id: AgentId, duration: u64 },
}

/// Response from an operation.
#[derive(Debug, Clone)]
pub enum Response {
    AgentRegistered { agent_id: AgentId, storage_cid: String },
    AgentUpdated { agent_id: AgentId, version: String, update_count: u32 },
    ScoreAdjusted { new_score: u16, new_tier: ReputationTier },
    SpamFlagged { total_flags: u8 },
    AuditSubmitted { passed: bool },
    HashVerified { matches: bool },
    Staked { agent_id: AgentId, amount: Amount, new_balance: Amount },
    Unstaked { agent_id: AgentId, amount: Amount, remaining_balance: Amount },
    Slashed { agent_id: AgentId, amount: Amount },
    Subscribed { agent_id: AgentId, subscriber: AgentId, cost: Amount },
    CostUpdated { agent_id: AgentId, new_cost: Amount },
    Error(LedgerError),
}

/// Messages exchanged between the registry chain and other chains.
#[derive(Debug, Clone)]
pub enum Message {
    /// Activity log from an agent's chain; applies a task result.
    ActivityLog { agent_id: AgentId, task_hash: Vec<u8>, success: bool, timestamp: Timestamp },
    /// Proof of audit from an auditor; applies the audit result.
    ProofOfAudit { agent_id: AgentId, auditor: AgentId, passed: bool, timestamp: Timestamp },
    /// Score query from a bridge chain; answered with a `ScoreResponse`.
    ScoreRequest { agent_id: AgentId, requester_chain: ChainId },
    /// Score snapshot sent back to a bridge chain.
    ScoreResponse { agent_id: AgentId, score: u16, tier: ReputationTier, timestamp: Timestamp },
    /// Code update notification for downstream subscribers.
    CodeUpdated {
        agent_id: AgentId,
        new_code_hash: Vec<u8>,
        new_version: String,
        timestamp: Timestamp,
    },
}

impl KyaRegistryState {
    /// Execute one synchronous operation on behalf of `caller` (the
    /// authenticated signer, if any) at time `now`.
    ///
    /// Every fallible outcome is reported as `Response::Error`; an error
    /// leaves the state unchanged.
    pub fn execute_operation(&mut self, op: Operation, caller: Option<AgentId>, now: Timestamp)
        -> (resp: Response)
        requires
            old(self).wf(),
            op matches Operation::RegisterAgent { code_hash, .. } ==> code_hash@.len() == 32
                && old(self).total_registered < u64::MAX,
            op matches Operation::UpdateAgentCode { code_hash, .. } ==> code_hash@.len() == 32
                && old(self).total_code_updates < u32::MAX as u64,
        ensures
            final(self).wf(),
            resp matches Response::Error(_) ==> *final(self) == *old(self),
            op matches Operation::RegisterAgent {
                code_hash,
                storage_provider,
                storage_cid,
                manifest,
            } ==> ({
                match caller {
                    Option::None => resp == Response::Error(LedgerError::NotAuthenticated),
                    Option::Some(a) => {
                        &&& old(self).spec_has_agent(a) ==> resp == Response::Error(
                            LedgerError::AlreadyRegistered,
                        )
                        &&& !old(self).spec_has_agent(a) ==> ({
                            &&& resp matches Response::AgentRegistered {
                                agent_id,
                                storage_cid: cid,
                            } && agent_id == a && cid@ == storage_cid@
                            &&& final(self).spec_has_agent(a)
                            &&& final(self).spec_badge(a) == spec_new_badge(
                                a,
                                code_hash,
                                storage_provider,
                                storage_cid,
                                manifest,
                                now,
                            )
                            &&& final(self).total_registered == old(self).total_registered + 1
                            &&& unrelated_unchanged(*old(self), *final(self), a)
                        })
                    },
                }
            }),
            op matches Operation::UpdateAgentCode {
                code_hash,
                storage_provider,
                storage_cid,
                manifest,
            } ==> ({
                match caller {
                    Option::None => resp == Response::Error(LedgerError::NotAuthenticated),
                    Option::Some(a) => {
                        &&& !old(self).spec_has_agent(a) ==> resp == Response::Error(
                            LedgerError::AgentNotFound,
                        )
                        &&& old(self).spec_has_agent(a) ==> ({
                            let ob = old(self).spec_badge(a);
                            let nb = final(self).spec_badge(a);
                            &&& resp matches Response::AgentUpdated {
                                agent_id,
                                version,
                                update_count,
                            } && agent_id == a && version@ == manifest.version@ && update_count
                                == nb.update_count
                            &&& nb.code_hash == code_hash
                            &&& nb.storage_provider == storage_provider
                            &&& nb.storage_cid == storage_cid
                            &&& nb.manifest == manifest
                            &&& nb.update_count == ob.update_count + 1
                            &&& nb.last_updated_at == now
                            &&& ob.tier != ReputationTier::Unverified ==> nb.reputation_score
                                == spec_apply_delta(ob.reputation_score, -50)
                            &&& ob.tier == ReputationTier::Unverified ==> nb.reputation_score
                                == ob.reputation_score
                            &&& nb.tier == spec_tier_of(nb.reputation_score)
                            &&& final(self).total_code_updates == old(self).total_code_updates
                                + 1
                            &&& unrelated_unchanged(*old(self), *final(self), a)
                        })
                    },
                }
            }),
            op matches Operation::AdjustScore { agent_id, delta, .. } ==> ({
                &&& !old(self).spec_has_agent(agent_id) ==> resp == Response::Error(
                    LedgerError::AgentNotFound,
                )
                &&& old(self).spec_has_agent(agent_id) ==> ({
                    let ns = spec_apply_delta(
                        old(self).spec_badge(agent_id).reputation_score,
                        delta as int,
                    );
                    &&& resp == (Response::ScoreAdjusted {
                        new_score: ns,
                        new_tier: spec_tier_of(ns),
                    })
                    &&& final(self).spec_badge(agent_id) == (AgentBadge {
                        reputation_score: ns,
                        tier: spec_tier_of(ns),
                        ..old(self).spec_badge(agent_id)
                    })
                    &&& unrelated_unchanged(*old(self), *final(self), agent_id)
                })
            }),
            op matches Operation::FlagSpam { agent_id, .. } ==> ({
                &&& !old(self).spec_has_agent(agent_id) ==> resp == Response::Error(
                    LedgerError::AgentNotFound,
                )
                &&& old(self).spec_has_agent(agent_id) ==> ({
                    let ob = old(self).spec_badge(agent_id);
                    let flags = if ob.spam_flags < 255 {
                        (ob.spam_flags + 1) as u8
                    } else {
                        255u8
                    };
                    &&& resp == (Response::SpamFlagged { total_flags: flags })
                    &&& final(self).spec_badge(agent_id) == (AgentBadge {
                        spam_flags: flags,
                        reputation_score: spec_apply_delta(ob.reputation_score, -50),
                        tier: spec_tier_of(spec_apply_delta(ob.reputation_score, -50)),
                        ..ob
                    })
                    &&& unrelated_unchanged(*old(self), *final(self), agent_id)
                })
            }),
            op matches Operation::SubmitAudit { agent_id, passed, .. } ==> ({
                let delta: int = if passed {
                    100
                } else {
                    -50
                };
                &&& !old(self).spec_has_agent(agent_id) ==> resp == Response::Error(
                    LedgerError::AgentNotFound,
                )
                &&& old(self).spec_has_agent(agent_id) ==> ({
                    let ns = spec_apply_delta(
                        old(self).spec_badge(agent_id).reputation_score,
                        delta,
                    );
                    &&& resp == (Response::AuditSubmitted { passed })
                    &&& final(self).spec_badge(agent_id) == (AgentBadge {
                        reputation_score: ns,
                        tier: spec_tier_of(ns),
                        ..old(self).spec_badge(agent_id)
                    })
                    &&& unrelated_unchanged(*old(self), *final(self), agent_id)
                })
            }),
            op matches Operation::VerifyCodeHash { agent_id, expected_hash } ==> ({
                &&& *final(self) == *old(self)
                &&& !old(self).spec_has_agent(agent_id) ==> resp == Response::Error(
                    LedgerError::AgentNotFound,
                )
                &&& old(self).spec_has_agent(agent_id) ==> resp == (Response::HashVerified {
                    matches: old(self).spec_badge(agent_id).code_hash@ == expected_hash@,
                })
            }),
            op matches Operation::Stake { amount } ==> ({
                match caller {
                    Option::None => resp == Response::Error(LedgerError::NotAuthenticated),
                    Option::Some(a) => {
                        &&& !old(self).spec_has_agent(a) ==> resp == Response::Error(
                            LedgerError::AgentNotFound,
                        )
                        &&& old(self).spec_has_agent(a) ==> ({
                            let nb = Amount {
                                atto: spec_sat_add(
                                    old(self).spec_badge(a).stake_balance.atto,
                                    amount.atto,
                                ),
                            };
                            &&& resp == (Response::Staked {
                                agent_id: a,
                                amount,
                                new_balance: nb,
                            })
                            &&& final(self).spec_badge(a) == (AgentBadge {
                                stake_balance: nb,
                                ..old(self).spec_badge(a)
                            })
                            &&& unrelated_unchanged(*old(self), *final(self), a)
                        })
                    },
                }
            }),
            op matches Operation::Unstake { amount } ==> ({
                match caller {
                    Option::None => resp == Response::Error(LedgerError::NotAuthenticated),
                    Option::Some(a) => {
                        &&& !old(self).spec_has_agent(a) ==> resp == Response::Error(
                            LedgerError::AgentNotFound,
                        )
                        &&& old(self).spec_has_agent(a) && amount.atto > old(self).spec_badge(
                            a,
                        ).stake_balance.atto ==> resp == Response::Error(
                            LedgerError::InsufficientStake,
                        )
                        &&& old(self).spec_has_agent(a) && amount.atto <= old(self).spec_badge(
                            a,
                        ).stake_balance.atto ==> ({
                            let remaining = Amount {
                                atto: (old(self).spec_badge(a).stake_balance.atto
                                    - amount.atto) as u128,
                            };
                            &&& resp == (Response::Unstaked {
                                agent_id: a,
                                amount,
                                remaining_balance: remaining,
                            })
                            &&& final(self).spec_badge(a) == (AgentBadge {
                                stake_balance: remaining,
                                ..old(self).spec_badge(a)
                            })
                            &&& unrelated_unchanged(*old(self), *final(self), a)
                        })
                    },
                }
            }),
            op matches Operation::Slash { agent_id, amount } ==> ({
                &&& !old(self).spec_has_agent(agent_id) ==> resp == Response::Error(
                    LedgerError::AgentNotFound,
                )
                &&& old(self).spec_has_agent(agent_id) ==> ({
                    let ob = old(self).spec_badge(agent_id);
                    let slashed = if amount.atto <= ob.stake_balance.atto {
                        amount.atto
                    } else {
                        ob.stake_balance.atto
                    };
                    &&& resp == (Response::Slashed {
                        agent_id,
                        amount: Amount { atto: slashed },
                    })
                    &&& final(self).spec_badge(agent_id) == (AgentBadge {
                        stake_balance: Amount {
                            atto: spec_sat_sub(ob.stake_balance.atto, amount.atto),
                        },
                        ..ob
                    })
                    &&& unrelated_unchanged(*old(self), *final(self), agent_id)
                })
            }),
            op matches Operation::SetSubscriptionCost { cost } ==> ({
                match caller {
                    Option::None => resp == Response::Error(LedgerError::NotAuthenticated),
                    Option::Some(a) => {
                        &&& !old(self).spec_has_agent(a) ==> resp == Response::Error(
                            LedgerError::AgentNotFound,
                        )
                        &&& old(self).spec_has_agent(a) ==> ({
                            &&& resp == (Response::CostUpdated { agent_id: a, new_cost: cost })
                            &&& final(self).spec_badge(a) == (AgentBadge {
                                subscription_cost: cost,
                                ..old(self).spec_badge(a)
                            })
                            &&& unrelated_unchanged(*old(self), *final(self), a)
                        })
                    },
                }
            }),
            op matches Operation::Subscribe { agent_id, .. } ==> ({
                &&& *final(self) == *old(self)
                &&& match caller {
                    Option::None => resp == Response::Error(LedgerError::NotAuthenticated),
                    Option::Some(subscriber) => {
                        &&& !old(self).spec_has_agent(agent_id) ==> resp == Response::Error(
                            LedgerError::AgentNotFound,
                        )
                        &&& old(self).spec_has_agent(agent_id) ==> resp
                            == (Response::Subscribed {
                            agent_id,
                            subscriber,
                            cost: old(self).spec_badge(agent_id).subscription_cost,
                        })
                    },
                }
            }),
    {
        match op {
            Operation::RegisterAgent { code_hash, storage_provider, storage_cid, manifest } => {
                let owner = match caller {
                    Some(a) => a,
                    None => {
                        return Response::Error(LedgerError::NotAuthenticated);
                    },
                };
                let badge = AgentBadge::new(
                    owner,
                    code_hash,
                    storage_provider,
                    storage_cid,
                    manifest,
                    now,
                );
                match self.register_agent(badge) {
                    Ok(cid) => Response::AgentRegistered { agent_id: owner, storage_cid: cid },
                    Err(e) => Response::Error(e),
                }
            },
            Operation::UpdateAgentCode { code_hash, storage_provider, storage_cid, manifest } => {
                let owner = match caller {
                    Some(a) => a,
                    None => {
                        return Response::Error(LedgerError::NotAuthenticated);
                    },
                };
                match self.update_agent_code(
                    owner,
                    code_hash,
                    storage_provider,
                    storage_cid,
                    manifest,
                    now,
                ) {
                    Ok((version, update_count)) => Response::AgentUpdated {
                        agent_id: owner,
                        version,
                        update_count,
                    },
                    Err(e) => Response::Error(e),
                }
            },
            Operation::AdjustScore { agent_id, delta, reason: _ } => {
                match self.update_score(agent_id, delta) {
                    Ok((new_score, new_tier)) => Response::ScoreAdjusted { new_score, new_tier },
                    Err(e) => Response::Error(e),
                }
            },
            Operation::FlagSpam { agent_id, evidence: _ } => {
                match self.flag_spam(agent_id) {
                    Ok(total_flags) => Response::SpamFlagged { total_flags },
                    Err(e) => Response::Error(e),
                }
            },
            Operation::SubmitAudit { agent_id, passed, auditor_notes: _ } => {
                let delta: i16 = if passed {
                    100
                } else {
                    -50
                };
                match self.update_score(agent_id, delta) {
                    Ok(_) => Response::AuditSubmitted { passed },
                    Err(e) => Response::Error(e),
                }
            },
            Operation::VerifyCodeHash { agent_id, expected_hash } => {
                match self.verify_code_hash(agent_id, expected_hash.as_slice()) {
                    Ok(matches) => Response::HashVerified { matches },
                    Err(e) => Response::Error(e),
                }
            },
            Operation::Stake { amount } => {
                let agent_id = match caller {
                    Some(a) => a,
                    None => {
                        return Response::Error(LedgerError::NotAuthenticated);
                    },
                };
                match self.stake_tokens(agent_id, amount) {
                    Ok(new_balance) => Response::Staked { agent_id, amount, new_balance },
                    Err(e) => Response::Error(e),
                }
            },
            Operation::Unstake { amount } => {
                let agent_id = match caller {
                    Some(a) => a,
                    None => {
                        return Response::Error(LedgerError::NotAuthenticated);
                    },
                };
                match self.unstake_tokens(agent_id, amount) {
                    Ok(remaining_balance) => Response::Unstaked {
                        agent_id,
                        amount,
                        remaining_balance,
                    },
                    Err(e) => Response::Error(e),
                }
            },
            Operation::Slash { agent_id, amount } => {
                match self.slash_tokens(agent_id, amount) {
                    Ok(slashed) => Response::Slashed { agent_id, amount: slashed },
                    Err(e) => Response::Error(e),
                }
            },
            Operation::SetSubscriptionCost { cost } => {
                let agent_id = match caller {
                    Some(a) => a,
                    None => {
                        return Response::Error(LedgerError::NotAuthenticated);
                    },
                };
                match self.set_subscription_cost(agent_id, cost) {
                    Ok(()) => Response::CostUpdated { agent_id, new_cost: cost },
                    Err(e) => Response::Error(e),
                }
            },
            Operation::Subscribe { agent_id, duration: _ } => {
                let subscriber = match caller {
                    Some(a) => a,
                    None => {
                        return Response::Error(LedgerError::NotAuthenticated);
                    },
                };
                match self.get_subscription_cost(agent_id) {
                    Ok(cost) => Response::Subscribed { agent_id, subscriber, cost },
                    Err(e) => Response::Error(e),
                }
            },
        }
    }

    /// Whether the activity log `(agent_id, task_hash)` was already applied.
    fn task_already_processed(&self, agent_id: AgentId, task_hash: &[u8]) -> (r: bool)
        ensures
            r <==> self.spec_task_processed(agent_id, task_hash@),
    {
        let n = self.processed_tasks.len();
        let mut i: usize = 0;
        while i < n
            invariant
                n == self.processed_tasks@.len(),
                i <= n,
                forall|j: int|
                    0 <= j < i ==> !(self.processed_tasks@[j].agent_id == agent_id
                        && self.processed_tasks@[j].task_hash@ == task_hash@),
            decreases n - i,
        {
            let key = &self.processed_tasks[i];
            if key.agent_id == agent_id && bytes_equal(key.task_hash.as_slice(), task_hash) {
                return true;
            }
            i = i + 1;
        }
        false
    }

    /// Handle one inbound cross-chain message at time `now`, returning at
    /// most one outbound message with its destination chain.
    ///
    /// Activity logs and audit proofs are the only state-mutating inbound
    /// messages; both are dropped silently when the agent is unknown.  An
    /// activity log whose `(agent, task hash)` key was already applied is
    /// ignored, so at-least-once delivery cannot double-count a task.  A
    /// score request is answered with a score snapshot and mutates nothing;
    /// the remaining variants are outbound-only and are no-ops on receipt.
    pub fn execute_message(&mut self, message: Message, now: Timestamp) -> (outbound: Option<
        (ChainId, Message),
    >)
        requires
            old(self).wf(),
            message matches Message::ActivityLog { .. } ==> old(self).total_logs_processed
                < u64::MAX,
        ensures
            final(self).wf(),
            message matches Message::ActivityLog { agent_id, task_hash, success, .. } ==> ({
                &&& outbound is None
                &&& !old(self).spec_has_agent(agent_id) ==> *final(self) == *old(self)
                &&& old(self).spec_task_processed(agent_id, task_hash@) ==> *final(self)
                    == *old(self)
                &&& old(self).spec_has_agent(agent_id) && !old(self).spec_task_processed(
                    agent_id,
                    task_hash@,
                ) ==> ({
                    let ob = old(self).spec_badge(agent_id);
                    let nb = final(self).spec_badge(agent_id);
                    &&& success ==> nb == (AgentBadge {
                        tasks_completed: (ob.tasks_completed + 1) as u64,
                        reputation_score: spec_apply_delta(ob.reputation_score, 1),
                        tier: spec_tier_of(spec_apply_delta(ob.reputation_score, 1)),
                        ..ob
                    })
                    &&& !success ==> nb == (AgentBadge {
                        tasks_failed: (ob.tasks_failed + 1) as u64,
                        reputation_score: spec_apply_delta(ob.reputation_score, -2),
                        tier: spec_tier_of(spec_apply_delta(ob.reputation_score, -2)),
                        ..ob
                    })
                    &&& final(self).total_logs_processed == old(self).total_logs_processed + 1
                    &&& final(self).spec_task_processed(agent_id, task_hash@)
                    &&& unrelated_unchanged(*old(self), *final(self), agent_id)
                    &&& final(self).total_registered == old(self).total_registered
                    &&& final(self).total_code_updates == old(self).total_code_updates
                })
                &&& forall|a: AgentId, h: Seq<u8>|
                    !(a == agent_id && h == task_hash@) ==> final(self).spec_task_processed(a, h)
                        == old(self).spec_task_processed(a, h)
            }),
            message matches Message::ProofOfAudit { agent_id, passed, .. } ==> ({
                let delta: int = if passed {
                    100
                } else {
                    -50
                };
                &&& outbound is None
                &&& !old(self).spec_has_agent(agent_id) ==> *final(self) == *old(self)
                &&& old(self).spec_has_agent(agent_id) ==> ({
                    let ns = spec_apply_delta(
                        old(self).spec_badge(agent_id).reputation_score,
                        delta,
                    );
                    &&& final(self).spec_badge(agent_id) == (AgentBadge {
                        reputation_score: ns,
                        tier: spec_tier_of(ns),
                        ..old(self).spec_badge(agent_id)
                    })
                    &&& unrelated_unchanged(*old(self), *final(self), agent_id)
                    &&& final(self).total_registered == old(self).total_registered
                    &&& final(self).total_logs_processed == old(self).total_logs_processed
                    &&& final(self).total_code_updates == old(self).total_code_updates
                    &&& final(self).processed_tasks == old(self).processed_tasks
                })
            }),
            message matches Message::ScoreRequest { agent_id, requester_chain } ==> ({
                &&& *final(self) == *old(self)
                &&& !old(self).spec_has_agent(agent_id) ==> outbound is None
                &&& old(self).spec_has_agent(agent_id) ==> outbound == Some(
                    (
                        requester_chain,
                        Message::ScoreResponse {
                            agent_id,
                            score: old(self).spec_badge(agent_id).reputation_score,
                            tier: old(self).spec_badge(agent_id).tier,
                            timestamp: now,
                        },
                    ),
                )
            }),
            message matches Message::ScoreResponse { .. } ==> *final(self) == *old(self)
                && outbound is None,
            message matches Message::CodeUpdated { .. } ==> *final(self) == *old(self)
                && outbound is None,
    {
        match message {
            Message::ActivityLog { agent_id, task_hash, success, timestamp: _ } => {
                if self.task_already_processed(agent_id, task_hash.as_slice()) {
                    return None;
                }
                let ghost pre_keys = self.processed_tasks@;
                match self.record_task(agent_id, success) {
                    Ok(()) => {
                        proof {
                            lemma_push_task_key(pre_keys, agent_id, task_hash@);
                        }
                        self.processed_tasks.push(TaskKey { agent_id, task_hash });
                    },
                    Err(_) => {
                        // Unknown agent: the log is dropped, nothing recorded.
                    },
                }
                None
            },
            Message::ProofOfAudit { agent_id, auditor: _, passed, timestamp: _ } => {
                let delta: i16 = if passed {
                    100
                } else {
                    -50
                };
                let _ = self.update_score(agent_id, delta);
                None
            },
            Message::ScoreRequest { agent_id, requester_chain } => {
                match self.get_badge(agent_id) {
                    Some(badge) => Some(
                        (
                            requester_chain,
                            Message::ScoreResponse {
                                agent_id,
                                score: badge.reputation_score,
                                tier: badge.tier,
                                timestamp: now,
                            },
                        ),
                    ),
                    None => None,
                }
            },
            Message::ScoreResponse { .. } => {
                // Sent out to bridge chains, never expected inbound.
                None
            },
            Message::CodeUpdated { .. } => {
                // Emitted for downstream subscribers, never expected inbound.
                None
            },
        }
    }
}

/// Appending a fresh task key keeps the processed-task keys unique and
/// membership of every other key unchanged.
proof fn lemma_push_task_key(keys: Seq<TaskKey>, a: AgentId, h: Seq<u8>)
    requires
        unique_task_keys(keys),
        !task_processed(keys, a, h),
    ensures
        forall|k: TaskKey|
            (k.agent_id == a && k.task_hash@ == h) ==> unique_task_keys(keys.push(k))
                && task_processed(keys.push(k), a, h),
        forall|k: TaskKey, b: AgentId, g: Seq<u8>|
            (k.agent_id == a && k.task_hash@ == h && !(b == a && g == h)) ==> task_processed(
                keys.push(k),
                b,
                g,
            ) == task_processed(keys, b, g),
{
    assert forall|k: TaskKey| (k.agent_id == a && k.task_hash@ == h) implies unique_task_keys(
        keys.push(k),
    ) && task_processed(keys.push(k), a, h) by {
        let post = keys.push(k);
        assert(forall|j: int| 0 <= j < keys.len() ==> post[j] == keys[j]);
        assert(post[keys.len() as int] == k);
        assert forall|i: int, j: int| 0 <= i < j < post.len() implies !(post[i].agent_id
            == post[j].agent_id && post[i].task_hash@ == post[j].task_hash@) by {
            if j == keys.len() as int {
                if post[i].agent_id == a && post[i].task_hash@ == h {
                    assert(task_processed(keys, a, h));
                }
            }
        }
    }
    assert forall|k: TaskKey, b: AgentId, g: Seq<u8>|
        (k.agent_id == a && k.task_hash@ == h && !(b == a && g == h)) implies task_processed(
        keys.push(k),
        b,
        g,
    ) == task_processed(keys, b, g) by {
        let post = keys.push(k);
        assert(forall|j: int| 0 <= j < keys.len() ==> post[j] == keys[j]);
        if task_processed(keys, b, g) {
            let j = choose|j: int|
                0 <= j < keys.len() && keys[j].agent_id == b && keys[j].task_hash@ == g;
            assert(post[j].agent_id == b && post[j].task_hash@ == g);
            assert(task_processed(post, b, g));
        }
        if task_processed(post, b, g) {
            let j = choose|j: int|
                0 <= j < post.len() && post[j].agent_id == b && post[j].task_hash@ == g;
            assert(j != keys.len() as int);
            assert(task_processed(keys, b, g));
        }
    }
}

} // verus!
