//! The agent relay: per-agent-chain activity logging.
//!
//! Each agent chain owns a private append-only activity log and three
//! monotonic counters mirrored for fast local queries.  A logged task is
//! hashed, appended locally, and - once the relay is initialized with a
//! registry target - forwarded to the registry hub as an activity-log
//! message.

use crate::bytes::copy_bytes;
use crate::crypto::sha256;
use crate::crypto::sha256_of;
use crate::error::LedgerError;
use crate::ids::AgentId;
use crate::ids::ChainId;
use crate::ids::Timestamp;
use vstd::prelude::*;
use vstd::string::StringSliceAdditionalSpecFns;
use vstd::utf8::encode_utf8;

verus! {

/// One logged task: appended by the relay on its own chain, never mutated
/// after creation.
#[derive(Debug, Clone)]
pub struct TaskEntry {
    /// SHA-256 hash of the task description.
    pub task_hash: Vec<u8>,
    /// Whether the task succeeded.
    pub success: bool,
    /// Timestamp of the task.
    pub timestamp: Timestamp,
    /// Task description, kept for local reference.
    pub description: String,
}

/// How many entries of `s` are marked successful.
pub open spec fn spec_success_count(s: Seq<TaskEntry>) -> nat
    decreases s.len(),
{
    if s.len() == 0 {
        0
    } else {
        spec_success_count(s.drop_last()) + (if s.last().success {
            1nat
        } else {
            0nat
        })
    }
}

/// At most every entry is successful.
pub proof fn lemma_success_count_le(s: Seq<TaskEntry>)
    ensures
        spec_success_count(s) <= s.len(),
    decreases s.len(),
{
    if s.len() > 0 {
        lemma_success_count_le(s.drop_last());
    }
}

/// Operations that can be performed on the agent relay.
#[derive(Debug, Clone)]
pub enum Operation {
    /// Initialize the relay with the registry chain.
    Initialize { registry_chain_id: ChainId },
    /// Log a completed task.
    LogTask { description: String, success: bool },
    /// Ask the registry for an audit.
    RequestAudit,
}

/// Response from a relay operation.
#[derive(Debug, Clone)]
pub enum Response {
    /// Relay initialized.
    Initialized,
    /// Task logged successfully.
    TaskLogged { task_hash: Vec<u8> },
    /// Audit requested.
    AuditRequested,
    /// Error occurred.
    Error(LedgerError),
}

/// Messages the relay sends to the registry hub.
#[derive(Debug, Clone)]
pub enum Message {
    /// Activity log sent to the registry.
    ActivityLog { agent_id: AgentId, task_hash: Vec<u8>, success: bool, timestamp: Timestamp },
    /// Audit request sent to the registry.
    AuditRequest { agent_id: AgentId, timestamp: Timestamp },
}

/// The root state of one agent's relay chain.
#[derive(Debug)]
pub struct AgentClientState {
    /// The chain of the registry hub, once configured.
    pub registry_chain_id: Option<ChainId>,
    /// Append-only log of all tasks performed by this agent.
    pub task_log: Vec<TaskEntry>,
    /// Total number of tasks logged; always the log's length.
    pub task_count: u64,
    /// Number of successful tasks.
    pub success_count: u64,
    /// Number of failed tasks.
    pub failure_count: u64,
}

impl AgentClientState {
    /// The relay invariant: each counter equals the count of log entries
    /// it mirrors.
    pub open spec fn wf(self) -> bool {
        &&& self.task_count == self.task_log@.len()
        &&& self.success_count == spec_success_count(self.task_log@)
        &&& self.success_count + self.failure_count == self.task_count
    }

    /// An empty relay: no registry target, no entries, zero counters.
    pub fn new() -> (r: Self)
        ensures
            r.wf(),
            r.registry_chain_id is None,
            r.task_log@.len() == 0,
            r.task_count == 0,
            r.success_count == 0,
            r.failure_count == 0,
    {
        AgentClientState {
            registry_chain_id: None,
            task_log: Vec::new(),
            task_count: 0,
            success_count: 0,
            failure_count: 0,
        }
    }

    /// Configure the registry hub chain.
    pub fn initialize(&mut self, registry_chain_id: ChainId)
        ensures
            *final(self) == (AgentClientState {
                registry_chain_id: Some(registry_chain_id),
                ..*old(self)
            }),
    {
        self.registry_chain_id = Some(registry_chain_id);
    }

    /// The registry hub chain, if configured.
    pub fn get_registry(&self) -> (r: Option<ChainId>)
        ensures
            r == self.registry_chain_id,
    {
        self.registry_chain_id
    }

    /// Append a task entry and update the mirrored counters.
    pub fn log_task(&mut self, entry: TaskEntry) -> (r: Result<(), LedgerError>)
        requires
            old(self).wf(),
            old(self).task_count < u64::MAX,
        ensures
            final(self).wf(),
            r is Ok,
            final(self).registry_chain_id == old(self).registry_chain_id,
            final(self).task_log@ == old(self).task_log@.push(entry),
            final(self).task_count == old(self).task_count + 1,
            entry.success ==> final(self).success_count == old(self).success_count + 1
                && final(self).failure_count == old(self).failure_count,
            !entry.success ==> final(self).failure_count == old(self).failure_count + 1
                && final(self).success_count == old(self).success_count,
    {
        proof {
            lemma_success_count_le(self.task_log@);
        }
        self.task_count = self.task_count + 1;
        if entry.success {
            self.success_count = self.success_count + 1;
        } else {
            self.failure_count = self.failure_count + 1;
        }
        self.task_log.push(entry);
        proof {
            assert(self.task_log@.drop_last() =~= old(self).task_log@);
        }
        Ok(())
    }

    /// The mirrored statistics: total, successful and failed task counts.
    pub fn get_stats(&self) -> (r: (u64, u64, u64))
        ensures
            r.0 == self.task_count,
            r.1 == self.success_count,
            r.2 == self.failure_count,
    {
        (self.task_count, self.success_count, self.failure_count)
    }

    /// Execute one synchronous relay operation on behalf of `caller` (the
    /// authenticated signer, if any) at time `now`, returning the response
    /// and at most one outbound message with its destination chain.
    ///
    /// Logging a task hashes the description, appends the entry locally,
    /// and forwards an activity log to the registry hub; it fails without
    /// a verified caller or before a registry target is configured.
    pub fn execute_operation(&mut self, op: Operation, caller: Option<AgentId>, now: Timestamp)
        -> (r: (Response, Option<(ChainId, Message)>))
        requires
            old(self).wf(),
            op matches Operation::LogTask { .. } ==> old(self).task_count < u64::MAX,
        ensures
            final(self).wf(),
            r.0 matches Response::Error(_) ==> *final(self) == *old(self) && r.1 is None,
            op matches Operation::Initialize { registry_chain_id } ==> ({
                &&& r.0 is Initialized
                &&& r.1 is None
                &&& *final(self) == (AgentClientState {
                    registry_chain_id: Some(registry_chain_id),
                    ..*old(self)
                })
            }),
            op matches Operation::LogTask { description, success } ==> ({
                match caller {
                    Option::None => r.0 == Response::Error(LedgerError::NotAuthenticated),
                    Option::Some(agent_id) => {
                        &&& old(self).registry_chain_id is None ==> r.0 == Response::Error(
                            LedgerError::NotInitialized,
                        )
                        &&& old(self).registry_chain_id matches Some(registry) ==> ({
                            let hash = sha256_of(encode_utf8(description@));
                            &&& r.0 matches Response::TaskLogged { task_hash } && task_hash@
                                == hash
                            &&& r.1 matches Some(out) && out.0 == registry && (
                            out.1 matches Message::ActivityLog {
                                agent_id: out_agent,
                                task_hash: out_hash,
                                success: out_success,
                                timestamp: out_time,
                            } && out_agent == agent_id && out_hash@ == hash && out_success
                                == success && out_time == now)
                            &&& final(self).task_log@.len() == old(self).task_log@.len() + 1
                            &&& final(self).task_log@.last().task_hash@ == hash
                            &&& final(self).task_log@.last().success == success
                            &&& final(self).task_log@.last().timestamp == now
                            &&& final(self).task_log@.last().description == description
                            &&& final(self).task_log@.take(old(self).task_log@.len() as int)
                                == old(self).task_log@
                            &&& final(self).task_count == old(self).task_count + 1
                            &&& success ==> final(self).success_count == old(
                                self,
                            ).success_count + 1 && final(self).failure_count == old(
                                self,
                            ).failure_count
                            &&& !success ==> final(self).failure_count == old(
                                self,
                            ).failure_count + 1 && final(self).success_count == old(
                                self,
                            ).success_count
                            &&& final(self).registry_chain_id == old(self).registry_chain_id
                        })
                    },
                }
            }),
            op matches Operation::RequestAudit ==> ({
                &&& *final(self) == *old(self)
                &&& match caller {
                    Option::None => r.0 == Response::Error(LedgerError::NotAuthenticated),
                    Option::Some(agent_id) => {
                        &&& old(self).registry_chain_id is None ==> r.0 == Response::Error(
                            LedgerError::NotInitialized,
                        )
                        &&& old(self).registry_chain_id matches Some(registry) ==> r.0
                            is AuditRequested && r.1 == Some(
                            (registry, Message::AuditRequest { agent_id, timestamp: now }),
                        )
                    },
                }
            }),
    {
        match op {
            Operation::Initialize { registry_chain_id } => {
                self.initialize(registry_chain_id);
                (Response::Initialized, None)
            },
            Operation::LogTask { description, success } => {
                let agent_id = match caller {
                    Some(a) => a,
                    None => {
                        return (Response::Error(LedgerError::NotAuthenticated), None);
                    },
                };
                let registry = match self.get_registry() {
                    Some(id) => id,
                    None => {
                        return (Response::Error(LedgerError::NotInitialized), None);
                    },
                };
                let task_hash = sha256(description.as_str().as_bytes());
                let hash_for_response = copy_bytes(task_hash.as_slice());
                let hash_for_message = copy_bytes(task_hash.as_slice());
                let entry = TaskEntry { task_hash, success, timestamp: now, description };
                match self.log_task(entry) {
                    Ok(()) => {},
                    Err(e) => {
                        return (Response::Error(e), None);
                    },
                }
                proof {
                    assert(self.task_log@.take(old(self).task_log@.len() as int) =~= old(
                        self,
                    ).task_log@);
                }
                let message = Message::ActivityLog {
                    agent_id,
                    task_hash: hash_for_message,
                    success,
                    timestamp: now,
                };
                (Response::TaskLogged { task_hash: hash_for_response }, Some((registry, message)))
            },
            Operation::RequestAudit => {
                let agent_id = match caller {
                    Some(a) => a,
                    None => {
                        return (Response::Error(LedgerError::NotAuthenticated), None);
                    },
                };
                let registry = match self.get_registry() {
                    Some(id) => id,
                    None => {
                        return (Response::Error(LedgerError::NotInitialized), None);
                    },
                };
                let message = Message::AuditRequest { agent_id, timestamp: now };
                (Response::AuditRequested, Some((registry, message)))
            },
        }
    }
}

} // verus!
