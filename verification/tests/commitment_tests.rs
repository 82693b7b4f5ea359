//! Tests for the agent relay and the oracle bridge: task hashing,
//! cross-chain message flow, and commitment determinism.

use kya_registry::AgentBadge;
use kya_registry::AgentId;
use kya_registry::AgentManifest;
use kya_registry::AgentClientState;
use kya_registry::ChainId;
use kya_registry::KyaRegistryState;
use kya_registry::LedgerError;
use kya_registry::OracleBridgeState;
use kya_registry::ReputationTier;
use kya_registry::StorageProvider;
use kya_registry::bridge;
use kya_registry::bridge::compute_commitment_hash;
use kya_registry::protocol;
use kya_registry::relay;

fn registry_with_agent(id: u64) -> KyaRegistryState {
    let mut state = KyaRegistryState::new();
    let badge = AgentBadge::new(
        AgentId::new(id),
        vec![0u8; 32],
        StorageProvider::IPFS,
        String::from("cid-0"),
        AgentManifest::default(),
        1_000,
    );
    state.register_agent(badge).expect("registration succeeds");
    state
}

#[test]
fn log_task_hashes_description() {
    let mut client = AgentClientState::new();
    client.initialize(ChainId::new(7));
    let (resp, outbound) = client.execute_operation(
        relay::Operation::LogTask { description: String::new(), success: true },
        Some(AgentId::new(1)),
        2_000,
    );
    // SHA-256 of the empty string, a published test vector.
    let expected =
        "e3b0c44298fc1c149afbf4c8996fb92427ae41e4649b934ca495991b7852b855";
    let task_hash = match resp {
        relay::Response::TaskLogged { task_hash } => task_hash,
        other => panic!("unexpected response: {:?}", other),
    };
    let hex: String = task_hash.iter().map(|b| format!("{:02x}", b)).collect();
    assert_eq!(hex, expected);
    let (chain, message) = outbound.expect("an activity log is emitted");
    assert_eq!(chain, ChainId::new(7));
    match message {
        relay::Message::ActivityLog { agent_id, task_hash: mh, success, timestamp } => {
            assert_eq!(agent_id, AgentId::new(1));
            assert_eq!(mh, task_hash);
            assert!(success);
            assert_eq!(timestamp, 2_000);
        },
        other => panic!("unexpected message: {:?}", other),
    }
}

#[test]
fn relay_requires_authentication_and_initialization() {
    let mut client = AgentClientState::new();
    let (resp, outbound) = client.execute_operation(
        relay::Operation::LogTask { description: String::from("t"), success: true },
        None,
        1_000,
    );
    assert!(matches!(resp, relay::Response::Error(LedgerError::NotAuthenticated)));
    assert!(outbound.is_none());
    let (resp, outbound) = client.execute_operation(
        relay::Operation::LogTask { description: String::from("t"), success: true },
        Some(AgentId::new(1)),
        1_000,
    );
    assert!(matches!(resp, relay::Response::Error(LedgerError::NotInitialized)));
    assert!(outbound.is_none());
}

#[test]
fn relay_counts_tasks() {
    let mut client = AgentClientState::new();
    client.initialize(ChainId::new(7));
    let caller = Some(AgentId::new(1));
    client.execute_operation(
        relay::Operation::LogTask { description: String::from("a"), success: true },
        caller,
        1_000,
    );
    client.execute_operation(
        relay::Operation::LogTask { description: String::from("b"), success: false },
        caller,
        2_000,
    );
    client.execute_operation(
        relay::Operation::LogTask { description: String::from("c"), success: true },
        caller,
        3_000,
    );
    assert_eq!(client.get_stats(), (3, 2, 1));
}

#[test]
fn relay_request_audit_emits_message() {
    let mut client = AgentClientState::new();
    client.initialize(ChainId::new(7));
    let (resp, outbound) = client.execute_operation(
        relay::Operation::RequestAudit,
        Some(AgentId::new(5)),
        4_000,
    );
    assert!(matches!(resp, relay::Response::AuditRequested));
    let (chain, message) = outbound.expect("an audit request is emitted");
    assert_eq!(chain, ChainId::new(7));
    match message {
        relay::Message::AuditRequest { agent_id, timestamp } => {
            assert_eq!(agent_id, AgentId::new(5));
            assert_eq!(timestamp, 4_000);
        },
        other => panic!("unexpected message: {:?}", other),
    }
}

#[test]
fn duplicate_activity_log_is_ignored() {
    let mut state = registry_with_agent(1);
    let agent = AgentId::new(1);
    let log = protocol::Message::ActivityLog {
        agent_id: agent,
        task_hash: vec![5u8; 32],
        success: true,
        timestamp: 2_000,
    };
    state.execute_message(log.clone(), 2_000);
    state.execute_message(log, 2_500);
    let badge = state.get_badge(agent).unwrap();
    assert_eq!(badge.tasks_completed, 1);
    assert_eq!(badge.reputation_score, 101);
    assert_eq!(state.total_logs_processed, 1);
    // A different task hash is applied.
    let other = protocol::Message::ActivityLog {
        agent_id: agent,
        task_hash: vec![6u8; 32],
        success: true,
        timestamp: 3_000,
    };
    state.execute_message(other, 3_000);
    assert_eq!(state.get_badge(agent).unwrap().tasks_completed, 2);
}

#[test]
fn activity_log_for_unknown_agent_is_dropped() {
    let mut state = KyaRegistryState::new();
    let log = protocol::Message::ActivityLog {
        agent_id: AgentId::new(9),
        task_hash: vec![5u8; 32],
        success: true,
        timestamp: 2_000,
    };
    let outbound = state.execute_message(log, 2_000);
    assert!(outbound.is_none());
    assert_eq!(state.total_logs_processed, 0);
}

#[test]
fn proof_of_audit_adjusts_score() {
    let mut state = registry_with_agent(1);
    let agent = AgentId::new(1);
    state.execute_message(
        protocol::Message::ProofOfAudit {
            agent_id: agent,
            auditor: AgentId::new(2),
            passed: true,
            timestamp: 2_000,
        },
        2_000,
    );
    assert_eq!(state.get_badge(agent).unwrap().reputation_score, 200);
    state.execute_message(
        protocol::Message::ProofOfAudit {
            agent_id: agent,
            auditor: AgentId::new(2),
            passed: false,
            timestamp: 3_000,
        },
        3_000,
    );
    assert_eq!(state.get_badge(agent).unwrap().reputation_score, 150);
}

#[test]
fn score_request_is_answered_with_snapshot() {
    let mut state = registry_with_agent(1);
    let agent = AgentId::new(1);
    let outbound = state.execute_message(
        protocol::Message::ScoreRequest { agent_id: agent, requester_chain: ChainId::new(3) },
        6_000,
    );
    let (chain, message) = outbound.expect("a response is emitted");
    assert_eq!(chain, ChainId::new(3));
    match message {
        protocol::Message::ScoreResponse { agent_id, score, tier, timestamp } => {
            assert_eq!(agent_id, agent);
            assert_eq!(score, 100);
            assert_eq!(tier, ReputationTier::Unverified);
            assert_eq!(timestamp, 6_000);
        },
        other => panic!("unexpected message: {:?}", other),
    }
    // A request for an unknown agent is dropped.
    let outbound = state.execute_message(
        protocol::Message::ScoreRequest {
            agent_id: AgentId::new(8),
            requester_chain: ChainId::new(3),
        },
        6_000,
    );
    assert!(outbound.is_none());
}

#[test]
fn bridge_request_commitment_emits_score_request() {
    let mut oracle = OracleBridgeState::new();
    let self_chain = ChainId::new(3);
    // Before initialization the request fails.
    let (resp, outbound) = oracle.execute_operation(
        bridge::Operation::RequestCommitment { agent_id: AgentId::new(1) },
        self_chain,
    );
    assert!(matches!(resp, bridge::Response::Error(LedgerError::NotInitialized)));
    assert!(outbound.is_none());
    oracle.execute_operation(
        bridge::Operation::Initialize { registry_chain_id: ChainId::new(9) },
        self_chain,
    );
    let (resp, outbound) = oracle.execute_operation(
        bridge::Operation::RequestCommitment { agent_id: AgentId::new(1) },
        self_chain,
    );
    assert!(matches!(resp, bridge::Response::CommitmentRequested { .. }));
    let (chain, message) = outbound.expect("a score request is emitted");
    assert_eq!(chain, ChainId::new(9));
    match message {
        bridge::Message::ScoreRequest { agent_id, requester_chain } => {
            assert_eq!(agent_id, AgentId::new(1));
            assert_eq!(requester_chain, self_chain);
        },
        other => panic!("unexpected message: {:?}", other),
    }
}

#[test]
fn score_response_stores_commitment() {
    let mut oracle = OracleBridgeState::new();
    oracle.initialize(ChainId::new(9));
    oracle.execute_message(
        bridge::Message::ScoreResponse {
            agent_id: AgentId::new(1),
            score: 250,
            tier: String::from("Verified"),
            timestamp: 7_000,
        },
        ChainId::new(3),
    );
    let commitment = oracle.get_commitment(AgentId::new(1)).expect("commitment stored");
    assert_eq!(commitment.agent_id, AgentId::new(1));
    assert_eq!(commitment.score, 250);
    assert_eq!(commitment.tier, "Verified");
    assert_eq!(commitment.timestamp, 7_000);
    assert_eq!(commitment.registry_chain_id, ChainId::new(9));
    assert_eq!(
        commitment.commitment_hash,
        compute_commitment_hash(AgentId::new(1), 250, 7_000)
    );
    assert_eq!(oracle.total_commitments, 1);
}

#[test]
fn commitment_hash_is_deterministic_and_field_sensitive() {
    let base = compute_commitment_hash(AgentId::new(1), 250, 7_000);
    // Identical fields give the identical hash.
    assert_eq!(base, compute_commitment_hash(AgentId::new(1), 250, 7_000));
    assert_eq!(base.len(), 32);
    // Changing any one field changes the hash.
    assert_ne!(base, compute_commitment_hash(AgentId::new(2), 250, 7_000));
    assert_ne!(base, compute_commitment_hash(AgentId::new(1), 251, 7_000));
    assert_ne!(base, compute_commitment_hash(AgentId::new(1), 250, 7_001));
}

#[test]
fn duplicate_score_response_overwrites_commitment() {
    let mut oracle = OracleBridgeState::new();
    oracle.initialize(ChainId::new(9));
    let response = bridge::Message::ScoreResponse {
        agent_id: AgentId::new(1),
        score: 250,
        tier: String::from("Verified"),
        timestamp: 7_000,
    };
    oracle.execute_message(response.clone(), ChainId::new(3));
    oracle.execute_message(response, ChainId::new(3));
    let commitment = oracle.get_commitment(AgentId::new(1)).expect("commitment stored");
    assert_eq!(commitment.score, 250);
    assert_eq!(oracle.total_commitments, 2);
}

#[test]
fn register_commitment_stores_prebuilt_value() {
    let mut oracle = OracleBridgeState::new();
    let commitment = kya_registry::ScoreCommitment {
        agent_id: AgentId::new(4),
        score: 600,
        tier: String::from("Gold"),
        timestamp: 8_000,
        registry_chain_id: ChainId::new(9),
        commitment_hash: compute_commitment_hash(AgentId::new(4), 600, 8_000),
    };
    let expected_hash = commitment.commitment_hash.clone();
    let (resp, outbound) = oracle.execute_operation(
        bridge::Operation::RegisterCommitment { commitment },
        ChainId::new(3),
    );
    assert!(outbound.is_none());
    match resp {
        bridge::Response::CommitmentRegistered { commitment_hash } => {
            assert_eq!(commitment_hash, expected_hash);
        },
        other => panic!("unexpected response: {:?}", other),
    }
    assert_eq!(oracle.get_commitment(AgentId::new(4)).unwrap().score, 600);
}

#[test]
fn code_hash_hex_renders_lowercase_pairs() {
    let mut code_hash = vec![0u8; 32];
    code_hash[0] = 0xab;
    code_hash[31] = 0x0f;
    let badge = AgentBadge::new(
        AgentId::new(1),
        code_hash,
        StorageProvider::IPFS,
        String::from("cid"),
        AgentManifest::default(),
        1_000,
    );
    let hex = badge.code_hash_hex();
    assert_eq!(hex.len(), 64);
    assert!(hex.starts_with("ab"));
    assert!(hex.ends_with("0f"));
    assert_eq!(&hex[2..62], "0".repeat(60));
}

#[test]
fn tier_labels_match_names() {
    assert_eq!(ReputationTier::Unverified.label(), "Unverified");
    assert_eq!(ReputationTier::Verified.label(), "Verified");
    assert_eq!(ReputationTier::Gold.label(), "Gold");
    assert_eq!(ReputationTier::Platinum.label(), "Platinum");
}
