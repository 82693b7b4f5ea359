//! The oracle bridge: content-addressed score commitments for external
//! chains.
//!
//! A bridge chain asks the registry for a score snapshot and, when the
//! response arrives, derives a commitment hash from the snapshot's fields
//! alone.  The preimage concatenates fixed-width encodings, so equal fields
//! give equal hashes and the preimage pins its fields down exactly.

use crate::bytes::copy_bytes;
use crate::bytes::lemma_u16_le_injective;
use crate::bytes::lemma_u64_le_injective;
use crate::bytes::push_u16_le;
use crate::bytes::push_u64_le;
use crate::bytes::spec_u16_le;
use crate::bytes::spec_u64_le;
use crate::crypto::sha256;
use crate::crypto::sha256_of;
use crate::error::LedgerError;
use crate::ids::AgentId;
use crate::ids::ChainId;
use crate::ids::Timestamp;
use vstd::prelude::*;

verus! {

/// A commitment of one agent's score at a point in time, verifiable
/// externally without trusting the bridge.
#[derive(Debug, Clone)]
pub struct ScoreCommitment {
    /// The agent the snapshot is about.
    pub agent_id: AgentId,
    /// The reputation score at the time of commitment.
    pub score: u16,
    /// The tier label at the time of commitment.
    pub tier: String,
    /// Timestamp of the commitment.
    pub timestamp: Timestamp,
    /// The chain of the registry the snapshot came from.
    pub registry_chain_id: ChainId,
    /// SHA-256 over the agent identity, score and timestamp.
    pub commitment_hash: Vec<u8>,
}

/// External chain target for score export.
#[derive(Debug, Clone, Copy, PartialEq, Eq, Structural)]
pub enum ExternalChain {
    Base,
    Solana,
    Ethereum,
    Polygon,
}

/// Operations that can be performed on the oracle bridge.
#[derive(Debug, Clone)]
pub enum Operation {
    /// Initialize the bridge with the registry chain.
    Initialize { registry_chain_id: ChainId },
    /// Request a score commitment for an agent.
    RequestCommitment { agent_id: AgentId },
    /// Store a commitment that was built and hashed by the caller.
    RegisterCommitment { commitment: ScoreCommitment },
}

/// Response from a bridge operation.
#[derive(Debug, Clone)]
pub enum Response {
    /// Bridge initialized.
    Initialized,
    /// Commitment requested from the registry.
    CommitmentRequested { agent_id: AgentId },
    /// Commitment stored.
    CommitmentRegistered { commitment_hash: Vec<u8> },
    /// Error occurred.
    Error(LedgerError),
}

/// Messages exchanged between the bridge and the registry.
#[derive(Debug, Clone)]
pub enum Message {
    /// Score query sent to the registry, carrying the reply chain.
    ScoreRequest { agent_id: AgentId, requester_chain: ChainId },
    /// Score snapshot received from the registry.
    ScoreResponse { agent_id: AgentId, score: u16, tier: String, timestamp: Timestamp },
}

/// The bytes a commitment hash is computed over: the agent identity, the
/// score and the timestamp, each in a fixed-width little-endian encoding.
pub open spec fn spec_commitment_preimage(agent_id: AgentId, score: u16, timestamp: Timestamp)
    -> Seq<u8> {
    spec_u64_le(agent_id.id) + spec_u16_le(score) + spec_u64_le(timestamp)
}

/// The commitment hash of a score snapshot: a function of the agent
/// identity, score and timestamp alone.
pub open spec fn spec_commitment_hash(agent_id: AgentId, score: u16, timestamp: Timestamp)
    -> Seq<u8> {
    sha256_of(spec_commitment_preimage(agent_id, score, timestamp))
}

/// Build the commitment preimage for a score snapshot.
pub fn commitment_preimage(agent_id: AgentId, score: u16, timestamp: Timestamp) -> (r: Vec<u8>)
    ensures
        r@ == spec_commitment_preimage(agent_id, score, timestamp),
{
    let mut out: Vec<u8> = Vec::new();
    push_u64_le(&mut out, agent_id.id);
    push_u16_le(&mut out, score);
    push_u64_le(&mut out, timestamp);
    proof {
        assert(out@ =~= spec_commitment_preimage(agent_id, score, timestamp));
    }
    out
}

/// Derive the commitment hash for a score snapshot.
pub fn compute_commitment_hash(agent_id: AgentId, score: u16, timestamp: Timestamp) -> (r: Vec<
    u8,
>)
    ensures
        r@ == spec_commitment_hash(agent_id, score, timestamp),
        r@.len() == 32,
{
    let preimage = commitment_preimage(agent_id, score, timestamp);
    sha256(preimage.as_slice())
}

/// Commitment determinism: two score snapshots with identical agent, score
/// and timestamp produce identical commitment hashes.
pub proof fn lemma_commitment_deterministic(
    agent_id: AgentId,
    score: u16,
    timestamp: Timestamp,
    h1: Seq<u8>,
    h2: Seq<u8>,
)
    requires
        h1 == spec_commitment_hash(agent_id, score, timestamp),
        h2 == spec_commitment_hash(agent_id, score, timestamp),
    ensures
        h1 == h2,
{
}

/// Changing the agent, the score or the timestamp of a snapshot changes
/// its commitment preimage: the preimage pins all three fields down.
/// (That distinct preimages also hash differently is collision resistance,
/// assumed of the hash primitive and not stated of it.)
pub proof fn lemma_commitment_preimage_injective(
    a1: AgentId,
    s1: u16,
    t1: Timestamp,
    a2: AgentId,
    s2: u16,
    t2: Timestamp,
)
    requires
        spec_commitment_preimage(a1, s1, t1) == spec_commitment_preimage(a2, s2, t2),
    ensures
        a1 == a2,
        s1 == s2,
        t1 == t2,
{
    let p1 = spec_commitment_preimage(a1, s1, t1);
    let p2 = spec_commitment_preimage(a2, s2, t2);
    assert(spec_u64_le(a1.id) =~= spec_u64_le(a2.id)) by {
        assert forall|i: int| 0 <= i < 8 implies spec_u64_le(a1.id)[i] == spec_u64_le(
            a2.id,
        )[i] by {
            assert(p1[i] == spec_u64_le(a1.id)[i]);
            assert(p2[i] == spec_u64_le(a2.id)[i]);
        }
    }
    lemma_u64_le_injective(a1.id, a2.id);
    assert(spec_u16_le(s1) =~= spec_u16_le(s2)) by {
        assert forall|i: int| 0 <= i < 2 implies spec_u16_le(s1)[i] == spec_u16_le(s2)[i] by {
            assert(p1[8 + i] == spec_u16_le(s1)[i]);
            assert(p2[8 + i] == spec_u16_le(s2)[i]);
        }
    }
    lemma_u16_le_injective(s1, s2);
    assert(spec_u64_le(t1) =~= spec_u64_le(t2)) by {
        assert forall|i: int| 0 <= i < 8 implies spec_u64_le(t1)[i] == spec_u64_le(t2)[i] by {
            assert(p1[10 + i] == spec_u64_le(t1)[i]);
            assert(p2[10 + i] == spec_u64_le(t2)[i]);
        }
    }
    lemma_u64_le_injective(t1, t2);
}

/// No two stored commitments are about the same agent.
pub open spec fn unique_commitment_agents(s: Seq<ScoreCommitment>) -> bool {
    forall|i: int, j: int| 0 <= i < j < s.len() ==> s[i].agent_id != s[j].agent_id
}

/// Some stored commitment is about `a`.
pub open spec fn has_commitment_for(s: Seq<ScoreCommitment>, a: AgentId) -> bool {
    exists|i: int| 0 <= i < s.len() && s[i].agent_id == a
}

/// The index of the commitment about `a` (unique when agents are unique).
pub open spec fn commitment_idx(s: Seq<ScoreCommitment>, a: AgentId) -> int {
    choose|i: int| 0 <= i < s.len() && s[i].agent_id == a
}

/// The root state of one bridge chain.
#[derive(Debug)]
pub struct OracleBridgeState {
    /// The chain of the registry hub, once configured.
    pub registry_chain_id: Option<ChainId>,
    /// The latest commitment per agent; overwritten on each new snapshot.
    pub commitments: Vec<ScoreCommitment>,
    /// Total number of commitments stored, overwrites included.
    pub total_commitments: u64,
}

impl OracleBridgeState {
    /// The bridge invariant: one commitment per agent.
    pub open spec fn wf(self) -> bool {
        unique_commitment_agents(self.commitments@)
    }

    /// Whether a commitment is stored for `a`.
    pub open spec fn spec_has_commitment(self, a: AgentId) -> bool {
        has_commitment_for(self.commitments@, a)
    }

    /// The stored commitment for `a` (meaningful when present).
    pub open spec fn spec_commitment(self, a: AgentId) -> ScoreCommitment {
        self.commitments@[commitment_idx(self.commitments@, a)]
    }

    /// An empty bridge: no registry target, no commitments.
    pub fn new() -> (r: Self)
        ensures
            r.wf(),
            r.registry_chain_id is None,
            r.commitments@.len() == 0,
            r.total_commitments == 0,
            forall|a: AgentId| !r.spec_has_commitment(a),
    {
        OracleBridgeState {
            registry_chain_id: None,
            commitments: Vec::new(),
            total_commitments: 0,
        }
    }

    /// Configure the registry hub chain.
    pub fn initialize(&mut self, registry_chain_id: ChainId)
        ensures
            *final(self) == (OracleBridgeState {
                registry_chain_id: Some(registry_chain_id),
                ..*old(self)
            }),
    {
        self.registry_chain_id = Some(registry_chain_id);
    }

    /// The registry hub chain, if configured.
    pub fn get_registry(&self) -> (r: Option<ChainId>)
        ensures
            r == self.registry_chain_id,
    {
        self.registry_chain_id
    }

    /// Find the index of the commitment stored for `agent_id`.
    fn find_commitment_index(&self, agent_id: AgentId) -> (r: Option<usize>)
        ensures
            match r {
                Some(i) => i < self.commitments@.len() && self.commitments@[i as int].agent_id
                    == agent_id,
                None => !self.spec_has_commitment(agent_id),
            },
    {
        let n = self.commitments.len();
        let mut i: usize = 0;
        while i < n
            invariant
                n == self.commitments@.len(),
                i <= n,
                forall|j: int| 0 <= j < i ==> self.commitments@[j].agent_id != agent_id,
            decreases n - i,
        {
            if self.commitments[i].agent_id == agent_id {
                return Some(i);
            }
            i = i + 1;
        }
        None
    }

    /// Store a commitment, overwriting any earlier one for the same agent,
    /// and count the store.
    pub fn store_commitment(&mut self, commitment: ScoreCommitment) -> (r: Result<
        (),
        LedgerError,
    >)
        requires
            old(self).wf(),
            old(self).total_commitments < u64::MAX,
        ensures
            final(self).wf(),
            r is Ok,
            final(self).spec_has_commitment(commitment.agent_id),
            final(self).spec_commitment(commitment.agent_id) == commitment,
            forall|b: AgentId|
                b != commitment.agent_id ==> final(self).spec_has_commitment(b)
                    == old(self).spec_has_commitment(b),
            forall|b: AgentId|
                b != commitment.agent_id && old(self).spec_has_commitment(b)
                    ==> final(self).spec_commitment(b) == old(self).spec_commitment(b),
            final(self).total_commitments == old(self).total_commitments + 1,
            final(self).registry_chain_id == old(self).registry_chain_id,
    {
        let ghost a = commitment.agent_id;
        match self.find_commitment_index(commitment.agent_id) {
            Some(i) => {
                let ghost pre = self.commitments@;
                let slot = &mut self.commitments[i];
                *slot = commitment;
                proof {
                    lemma_set_commitment(pre, self.commitments@, i as int, a);
                }
            },
            None => {
                proof {
                    lemma_push_commitment(self.commitments@, commitment);
                }
                self.commitments.push(commitment);
            },
        }
        self.total_commitments = self.total_commitments + 1;
        Ok(())
    }

    /// Get the stored commitment for an agent.
    pub fn get_commitment(&self, agent_id: AgentId) -> (r: Option<&ScoreCommitment>)
        requires
            self.wf(),
        ensures
            match r {
                Some(c) => self.spec_has_commitment(agent_id) && *c == self.spec_commitment(
                    agent_id,
                ),
                None => !self.spec_has_commitment(agent_id),
            },
    {
        match self.find_commitment_index(agent_id) {
            Some(i) => {
                proof {
                    lemma_commitment_idx(self.commitments@, agent_id, i as int);
                }
                Some(&self.commitments[i])
            },
            None => None,
        }
    }

    /// Execute one synchronous bridge operation on chain `self_chain`,
    /// returning the response and at most one outbound message with its
    /// destination chain.
    ///
    /// Requesting a commitment emits a score query carrying this chain as
    /// the reply address and returns at once; the snapshot arrives later
    /// as an inbound message.  It fails before a registry target is
    /// configured.
    pub fn execute_operation(&mut self, op: Operation, self_chain: ChainId) -> (r: (
        Response,
        Option<(ChainId, Message)>,
    ))
        requires
            old(self).wf(),
            op matches Operation::RegisterCommitment { .. } ==> old(self).total_commitments
                < u64::MAX,
        ensures
            final(self).wf(),
            r.0 matches Response::Error(_) ==> *final(self) == *old(self) && r.1 is None,
            op matches Operation::Initialize { registry_chain_id } ==> ({
                &&& r.0 is Initialized
                &&& r.1 is None
                &&& *final(self) == (OracleBridgeState {
                    registry_chain_id: Some(registry_chain_id),
                    ..*old(self)
                })
            }),
            op matches Operation::RequestCommitment { agent_id } ==> ({
                &&& *final(self) == *old(self)
                &&& old(self).registry_chain_id is None ==> r.0 == Response::Error(
                    LedgerError::NotInitialized,
                )
                &&& old(self).registry_chain_id matches Some(registry) ==> ({
                    &&& r.0 == (Response::CommitmentRequested { agent_id })
                    &&& r.1 == Some(
                        (
                            registry,
                            Message::ScoreRequest { agent_id, requester_chain: self_chain },
                        ),
                    )
                })
            }),
            op matches Operation::RegisterCommitment { commitment } ==> ({
                &&& r.0 matches Response::CommitmentRegistered { commitment_hash } && commitment_hash@
                    == commitment.commitment_hash@
                &&& r.1 is None
                &&& final(self).spec_has_commitment(commitment.agent_id)
                &&& final(self).spec_commitment(commitment.agent_id) == commitment
                &&& final(self).total_commitments == old(self).total_commitments + 1
                &&& forall|b: AgentId|
                    b != commitment.agent_id ==> final(self).spec_has_commitment(b) == old(
                        self,
                    ).spec_has_commitment(b)
                &&& forall|b: AgentId|
                    b != commitment.agent_id && old(self).spec_has_commitment(b)
                        ==> final(self).spec_commitment(b) == old(self).spec_commitment(b)
                &&& final(self).registry_chain_id == old(self).registry_chain_id
            }),
    {
        match op {
            Operation::Initialize { registry_chain_id } => {
                self.initialize(registry_chain_id);
                (Response::Initialized, None)
            },
            Operation::RequestCommitment { agent_id } => {
                let registry = match self.get_registry() {
                    Some(id) => id,
                    None => {
                        return (Response::Error(LedgerError::NotInitialized), None);
                    },
                };
                let message = Message::ScoreRequest { agent_id, requester_chain: self_chain };
                (Response::CommitmentRequested { agent_id }, Some((registry, message)))
            },
            Operation::RegisterCommitment { commitment } => {
                let hash = copy_bytes(commitment.commitment_hash.as_slice());
                match self.store_commitment(commitment) {
                    Ok(()) => (Response::CommitmentRegistered { commitment_hash: hash }, None),
                    Err(e) => (Response::Error(e), None),
                }
            },
        }
    }

    /// Handle one inbound message on chain `self_chain`.
    ///
    /// A score snapshot is turned into a commitment whose hash is derived
    /// from the snapshot's agent, score and timestamp alone, and stored,
    /// overwriting any earlier commitment for that agent; a duplicate
    /// response simply stores the same commitment again.  A score request
    /// is outbound-only and is a no-op on receipt.
    pub fn execute_message(&mut self, message: Message, self_chain: ChainId)
        requires
            old(self).wf(),
            message matches Message::ScoreResponse { .. } ==> old(self).total_commitments
                < u64::MAX,
        ensures
            final(self).wf(),
            message matches Message::ScoreRequest { .. } ==> *final(self) == *old(self),
            message matches Message::ScoreResponse { agent_id, score, tier, timestamp } ==> ({
                let stored = final(self).spec_commitment(agent_id);
                &&& final(self).spec_has_commitment(agent_id)
                &&& stored.agent_id == agent_id
                &&& stored.score == score
                &&& stored.tier == tier
                &&& stored.timestamp == timestamp
                &&& stored.registry_chain_id == (match old(self).registry_chain_id {
                    Option::Some(registry) => registry,
                    Option::None => self_chain,
                })
                &&& stored.commitment_hash@ == spec_commitment_hash(agent_id, score, timestamp)
                &&& final(self).total_commitments == old(self).total_commitments + 1
                &&& forall|b: AgentId|
                    b != agent_id ==> final(self).spec_has_commitment(b) == old(
                        self,
                    ).spec_has_commitment(b)
                &&& forall|b: AgentId|
                    b != agent_id && old(self).spec_has_commitment(b)
                        ==> final(self).spec_commitment(b) == old(self).spec_commitment(b)
                &&& final(self).registry_chain_id == old(self).registry_chain_id
            }),
    {
        match message {
            Message::ScoreResponse { agent_id, score, tier, timestamp } => {
                let registry_chain_id = match self.get_registry() {
                    Some(id) => id,
                    None => self_chain,
                };
                let commitment_hash = compute_commitment_hash(agent_id, score, timestamp);
                let commitment = ScoreCommitment {
                    agent_id,
                    score,
                    tier,
                    timestamp,
                    registry_chain_id,
                    commitment_hash,
                };
                let _ = self.store_commitment(commitment);
            },
            Message::ScoreRequest { .. } => {
                // Sent out to the registry, never expected inbound.
            },
        }
    }
}

/// With unique agents, any index holding `a`'s commitment is the chosen
/// one.
proof fn lemma_commitment_idx(s: Seq<ScoreCommitment>, a: AgentId, i: int)
    requires
        unique_commitment_agents(s),
        0 <= i < s.len(),
        s[i].agent_id == a,
    ensures
        has_commitment_for(s, a),
        commitment_idx(s, a) == i,
{
    assert(has_commitment_for(s, a));
    let j = commitment_idx(s, a);
    assert(0 <= j < s.len() && s[j].agent_id == a);
    if i < j {
        assert(s[i].agent_id != s[j].agent_id);
    } else if j < i {
        assert(s[j].agent_id != s[i].agent_id);
    }
}

/// Replacing `a`'s commitment in place leaves every other commitment and
/// the membership relation untouched.
proof fn lemma_set_commitment(
    pre: Seq<ScoreCommitment>,
    post: Seq<ScoreCommitment>,
    i: int,
    a: AgentId,
)
    requires
        unique_commitment_agents(pre),
        0 <= i < pre.len(),
        pre[i].agent_id == a,
        post.len() == pre.len(),
        post == pre.update(i, post[i]),
        post[i].agent_id == a,
    ensures
        unique_commitment_agents(post),
        has_commitment_for(post, a),
        commitment_idx(post, a) == i,
        forall|b: AgentId| b != a ==> has_commitment_for(post, b) == has_commitment_for(pre, b),
        forall|b: AgentId|
            b != a && has_commitment_for(pre, b) ==> post[commitment_idx(post, b)]
                == pre[commitment_idx(pre, b)],
{
    assert(forall|j: int| 0 <= j < post.len() && j != i ==> post[j] == pre[j]);
    assert(forall|j: int| 0 <= j < post.len() ==> post[j].agent_id == pre[j].agent_id);
    assert(unique_commitment_agents(post));
    lemma_commitment_idx(post, a, i);
    assert forall|b: AgentId| b != a implies has_commitment_for(post, b) == has_commitment_for(
        pre,
        b,
    ) by {
        if has_commitment_for(pre, b) {
            let j = commitment_idx(pre, b);
            assert(0 <= j < pre.len() && pre[j].agent_id == b);
            assert(post[j].agent_id == b);
            assert(has_commitment_for(post, b));
        }
        if has_commitment_for(post, b) {
            let j = choose|j: int| 0 <= j < post.len() && post[j].agent_id == b;
            assert(pre[j].agent_id == b);
            assert(has_commitment_for(pre, b));
        }
    }
    assert forall|b: AgentId| b != a && has_commitment_for(pre, b) implies post[commitment_idx(
        post,
        b,
    )] == pre[commitment_idx(pre, b)] by {
        let j = commitment_idx(pre, b);
        lemma_commitment_idx(pre, b, j);
        assert(0 <= j < pre.len() && pre[j].agent_id == b);
        assert(post[j].agent_id == b);
        lemma_commitment_idx(post, b, j);
        assert(j != i);
        assert(post[j] == pre[j]);
    }
}

/// Appending a commitment for a fresh agent keeps agents unique and leaves
/// every existing commitment in place.
proof fn lemma_push_commitment(pre: Seq<ScoreCommitment>, c: ScoreCommitment)
    requires
        unique_commitment_agents(pre),
        !has_commitment_for(pre, c.agent_id),
    ensures
        unique_commitment_agents(pre.push(c)),
        has_commitment_for(pre.push(c), c.agent_id),
        commitment_idx(pre.push(c), c.agent_id) == pre.len(),
        forall|b: AgentId|
            b != c.agent_id ==> has_commitment_for(pre.push(c), b) == has_commitment_for(pre, b),
        forall|b: AgentId|
            b != c.agent_id && has_commitment_for(pre, b) ==> pre.push(c)[commitment_idx(
                pre.push(c),
                b,
            )] == pre[commitment_idx(pre, b)],
{
    let post = pre.push(c);
    assert(forall|j: int| 0 <= j < pre.len() ==> post[j] == pre[j]);
    assert(post[pre.len() as int] == c);
    assert forall|i: int, j: int| 0 <= i < j < post.len() implies post[i].agent_id
        != post[j].agent_id by {
        if j == pre.len() as int {
            if post[i].agent_id == c.agent_id {
                assert(has_commitment_for(pre, c.agent_id));
            }
        }
    }
    lemma_commitment_idx(post, c.agent_id, pre.len() as int);
    assert forall|b: AgentId| b != c.agent_id implies has_commitment_for(post, b)
        == has_commitment_for(pre, b) by {
        if has_commitment_for(pre, b) {
            let j = commitment_idx(pre, b);
            assert(0 <= j < pre.len() && pre[j].agent_id == b);
            assert(post[j].agent_id == b);
            assert(has_commitment_for(post, b));
        }
        if has_commitment_for(post, b) {
            let j = choose|j: int| 0 <= j < post.len() && post[j].agent_id == b;
            assert(j != pre.len() as int);
            assert(pre[j].agent_id == b);
            assert(has_commitment_for(pre, b));
        }
    }
    assert forall|b: AgentId| b != c.agent_id && has_commitment_for(pre, b) implies
        post[commitment_idx(post, b)] == pre[commitment_idx(pre, b)] by {
        let j = commitment_idx(pre, b);
        lemma_commitment_idx(pre, b, j);
        assert(post[j].agent_id == b);
        lemma_commitment_idx(post, b, j);
    }
}

} // verus!
