//! Tests for the registry state machine: registration, scoring, tiers,
//! staking, slashing, and the operation dispatch.

use kya_registry::AgentBadge;
use kya_registry::AgentId;
use kya_registry::AgentManifest;
use kya_registry::Amount;
use kya_registry::KyaRegistryState;
use kya_registry::LedgerError;
use kya_registry::ReputationTier;
use kya_registry::StorageProvider;
use kya_registry::protocol::Operation;
use kya_registry::protocol::Response;

fn fresh_badge(id: u64) -> AgentBadge {
    AgentBadge::new(
        AgentId::new(id),
        vec![0u8; 32],
        StorageProvider::IPFS,
        String::from("cid-0"),
        AgentManifest::default(),
        1_000,
    )
}

fn registry_with_agent(id: u64) -> KyaRegistryState {
    let mut state = KyaRegistryState::new();
    state.register_agent(fresh_badge(id)).expect("registration succeeds");
    state
}

#[test]
fn register_creates_base_badge() {
    let state = registry_with_agent(1);
    let badge = state.get_badge(AgentId::new(1)).expect("badge exists");
    assert_eq!(badge.reputation_score, 100);
    assert_eq!(badge.tier, ReputationTier::Unverified);
    assert_eq!(badge.spam_flags, 0);
    assert_eq!(badge.stake_balance, Amount::zero());
    assert_eq!(badge.tasks_completed, 0);
    assert_eq!(badge.tasks_failed, 0);
    assert_eq!(badge.update_count, 0);
    assert_eq!(badge.registered_at, 1_000);
    assert_eq!(state.total_registered, 1);
}

#[test]
fn register_twice_fails_with_already_registered() {
    let mut state = registry_with_agent(1);
    let result = state.register_agent(fresh_badge(1));
    assert_eq!(result.unwrap_err(), LedgerError::AlreadyRegistered);
    assert_eq!(state.total_registered, 1);
}

#[test]
fn operations_on_unregistered_agent_fail_with_agent_not_found() {
    let mut state = KyaRegistryState::new();
    let missing_agent = AgentId::new(99);
    assert_eq!(
        state.update_score(missing_agent, 10).unwrap_err(),
        LedgerError::AgentNotFound
    );
    assert_eq!(
        state
            .update_agent_code(
                missing_agent,
                vec![1u8; 32],
                StorageProvider::HTTP,
                String::from("cid-1"),
                AgentManifest::default(),
                2_000,
            )
            .unwrap_err(),
        LedgerError::AgentNotFound
    );
    assert_eq!(state.flag_spam(missing_agent).unwrap_err(), LedgerError::AgentNotFound);
    assert_eq!(
        state.record_task(missing_agent, true).unwrap_err(),
        LedgerError::AgentNotFound
    );
    assert_eq!(
        state.stake_tokens(missing_agent, Amount::from_tokens(1)).unwrap_err(),
        LedgerError::AgentNotFound
    );
    assert_eq!(
        state.unstake_tokens(missing_agent, Amount::from_tokens(1)).unwrap_err(),
        LedgerError::AgentNotFound
    );
    assert_eq!(
        state.get_subscription_cost(missing_agent).unwrap_err(),
        LedgerError::AgentNotFound
    );
    assert_eq!(
        state.verify_code_hash(missing_agent, &[0u8; 32]).unwrap_err(),
        LedgerError::AgentNotFound
    );
}

#[test]
fn adjust_score_saturates_at_upper_bound() {
    let mut state = registry_with_agent(1);
    let agent = AgentId::new(1);
    // 100 + 32767 saturates at 1000.
    let (score, tier) = state.update_score(agent, i16::MAX).unwrap();
    assert_eq!(score, 1000);
    assert_eq!(tier, ReputationTier::Platinum);
    // Applying the largest positive delta again stays at the bound.
    let (score, _) = state.update_score(agent, i16::MAX).unwrap();
    assert_eq!(score, 1000);
}

#[test]
fn adjust_score_saturates_at_lower_bound() {
    let mut state = registry_with_agent(1);
    let agent = AgentId::new(1);
    let (score, tier) = state.update_score(agent, i16::MIN).unwrap();
    assert_eq!(score, 0);
    assert_eq!(tier, ReputationTier::Unverified);
    let (score, _) = state.update_score(agent, -1).unwrap();
    assert_eq!(score, 0);
}

#[test]
fn adjust_score_exact_arithmetic() {
    let mut state = registry_with_agent(1);
    let agent = AgentId::new(1);
    let (score, tier) = state.update_score(agent, 150).unwrap();
    assert_eq!(score, 250);
    assert_eq!(tier, ReputationTier::Verified);
    let (score, tier) = state.update_score(agent, -1).unwrap();
    assert_eq!(score, 249);
    assert_eq!(tier, ReputationTier::Unverified);
}

#[test]
fn stake_then_unstake_restores_balance() {
    let mut state = registry_with_agent(1);
    let agent = AgentId::new(1);
    state.stake_tokens(agent, Amount::from_tokens(7)).unwrap();
    let before = state.get_badge(agent).unwrap().stake_balance;
    let new_balance = state.stake_tokens(agent, Amount::from_tokens(100)).unwrap();
    assert_eq!(new_balance, Amount::from_tokens(107));
    let remaining = state.unstake_tokens(agent, Amount::from_tokens(100)).unwrap();
    assert_eq!(remaining, before);
}

#[test]
fn unstake_more_than_balance_fails_and_preserves_balance() {
    let mut state = registry_with_agent(1);
    let agent = AgentId::new(1);
    state.stake_tokens(agent, Amount::from_tokens(50)).unwrap();
    let result = state.unstake_tokens(agent, Amount::from_tokens(51));
    assert_eq!(result.unwrap_err(), LedgerError::InsufficientStake);
    assert_eq!(
        state.get_badge(agent).unwrap().stake_balance,
        Amount::from_tokens(50)
    );
}

#[test]
fn stake_saturates_at_representation_bound() {
    let mut state = registry_with_agent(1);
    let agent = AgentId::new(1);
    state.stake_tokens(agent, Amount::from_attos(u128::MAX)).unwrap();
    let balance = state.stake_tokens(agent, Amount::from_tokens(1)).unwrap();
    assert_eq!(balance, Amount::from_attos(u128::MAX));
}

#[test]
fn error_messages_name_each_failure() {
    assert_eq!(LedgerError::NotAuthenticated.message(), "must be authenticated");
    assert_eq!(LedgerError::NotInitialized.message(), "not initialized with registry");
    assert_eq!(LedgerError::AlreadyRegistered.message(), "agent already registered");
    assert_eq!(LedgerError::AgentNotFound.message(), "agent not found");
    assert_eq!(LedgerError::InsufficientStake.message(), "insufficient stake balance");
}

#[test]
fn slash_beyond_balance_saturates_to_zero() {
    // Stake 100, slash 150: the balance saturates at zero and the
    // operation reports success with the clamped amount.
    let mut state = registry_with_agent(1);
    let agent = AgentId::new(1);
    state.stake_tokens(agent, Amount::from_tokens(100)).unwrap();
    let slashed = state.slash_tokens(agent, Amount::from_tokens(150)).unwrap();
    assert_eq!(slashed, Amount::from_tokens(100));
    assert_eq!(state.get_badge(agent).unwrap().stake_balance, Amount::zero());
}

#[test]
fn update_code_above_unverified_pays_penalty() {
    let mut state = registry_with_agent(1);
    let agent = AgentId::new(1);
    // Raise the badge above Unverified first (100 + 200 = 300, Verified).
    state.update_score(agent, 200).unwrap();
    let (version, update_count) = state
        .update_agent_code(
            agent,
            vec![7u8; 32],
            StorageProvider::Arweave,
            String::from("cid-2"),
            AgentManifest::default(),
            5_000,
        )
        .unwrap();
    assert_eq!(version, "0.1.0");
    assert_eq!(update_count, 1);
    let badge = state.get_badge(agent).unwrap();
    assert_eq!(badge.reputation_score, 250);
    assert_eq!(badge.tier, ReputationTier::Verified);
    assert_eq!(badge.last_updated_at, 5_000);
    assert_eq!(state.total_code_updates, 1);
}

#[test]
fn update_code_at_unverified_keeps_score() {
    let mut state = registry_with_agent(1);
    let agent = AgentId::new(1);
    state
        .update_agent_code(
            agent,
            vec![7u8; 32],
            StorageProvider::HTTP,
            String::from("cid-2"),
            AgentManifest::default(),
            5_000,
        )
        .unwrap();
    let badge = state.get_badge(agent).unwrap();
    assert_eq!(badge.reputation_score, 100);
    assert_eq!(badge.tier, ReputationTier::Unverified);
    assert_eq!(badge.update_count, 1);
}

#[test]
fn record_task_updates_counters_and_score() {
    let mut state = registry_with_agent(1);
    let agent = AgentId::new(1);
    state.record_task(agent, true).unwrap();
    let badge = state.get_badge(agent).unwrap();
    assert_eq!(badge.tasks_completed, 1);
    assert_eq!(badge.tasks_failed, 0);
    assert_eq!(badge.reputation_score, 101);
    state.record_task(agent, false).unwrap();
    let badge = state.get_badge(agent).unwrap();
    assert_eq!(badge.tasks_completed, 1);
    assert_eq!(badge.tasks_failed, 1);
    assert_eq!(badge.reputation_score, 99);
    assert_eq!(state.total_logs_processed, 2);
}

#[test]
fn record_task_score_is_capped_and_floored() {
    let mut state = registry_with_agent(1);
    let agent = AgentId::new(1);
    state.update_score(agent, 900).unwrap();
    state.record_task(agent, true).unwrap();
    assert_eq!(state.get_badge(agent).unwrap().reputation_score, 1000);
    state.update_score(agent, -1000).unwrap();
    state.record_task(agent, false).unwrap();
    assert_eq!(state.get_badge(agent).unwrap().reputation_score, 0);
}

#[test]
fn flag_spam_penalizes_and_counts() {
    let mut state = registry_with_agent(1);
    let agent = AgentId::new(1);
    let flags = state.flag_spam(agent).unwrap();
    assert_eq!(flags, 1);
    let badge = state.get_badge(agent).unwrap();
    assert_eq!(badge.spam_flags, 1);
    assert_eq!(badge.reputation_score, 50);
}

#[test]
fn verify_code_hash_compares_stored_hash() {
    let state = registry_with_agent(1);
    let agent = AgentId::new(1);
    assert!(state.verify_code_hash(agent, &[0u8; 32]).unwrap());
    assert!(!state.verify_code_hash(agent, &[1u8; 32]).unwrap());
    assert!(!state.verify_code_hash(agent, &[0u8; 16]).unwrap());
}

#[test]
fn subscription_cost_roundtrip() {
    let mut state = registry_with_agent(1);
    let agent = AgentId::new(1);
    assert_eq!(state.get_subscription_cost(agent).unwrap(), Amount::zero());
    state.set_subscription_cost(agent, Amount::from_tokens(10)).unwrap();
    assert_eq!(
        state.get_subscription_cost(agent).unwrap(),
        Amount::from_tokens(10)
    );
}

#[test]
fn audit_and_tasks_scenario() {
    // Register at 100 (Unverified), three successful tasks -> 103, still
    // Unverified; one passed audit -> 203, still Unverified (below 250).
    let mut state = registry_with_agent(1);
    let agent = AgentId::new(1);
    state.record_task(agent, true).unwrap();
    state.record_task(agent, true).unwrap();
    state.record_task(agent, true).unwrap();
    let badge = state.get_badge(agent).unwrap();
    assert_eq!(badge.reputation_score, 103);
    assert_eq!(badge.tier, ReputationTier::Unverified);
    let resp = state.execute_operation(
        Operation::SubmitAudit {
            agent_id: agent,
            passed: true,
            auditor_notes: String::from("ok"),
        },
        None,
        9_000,
    );
    assert!(matches!(resp, Response::AuditSubmitted { passed: true }));
    let badge = state.get_badge(agent).unwrap();
    assert_eq!(badge.reputation_score, 203);
    assert_eq!(badge.tier, ReputationTier::Unverified);
}

#[test]
fn failed_audit_applies_penalty() {
    let mut state = registry_with_agent(1);
    let agent = AgentId::new(1);
    let resp = state.execute_operation(
        Operation::SubmitAudit {
            agent_id: agent,
            passed: false,
            auditor_notes: String::new(),
        },
        None,
        9_000,
    );
    assert!(matches!(resp, Response::AuditSubmitted { passed: false }));
    assert_eq!(state.get_badge(agent).unwrap().reputation_score, 50);
}

#[test]
fn operations_require_authentication() {
    let mut state = KyaRegistryState::new();
    let resp = state.execute_operation(
        Operation::RegisterAgent {
            code_hash: vec![0u8; 32],
            storage_provider: StorageProvider::IPFS,
            storage_cid: String::from("cid"),
            manifest: AgentManifest::default(),
        },
        None,
        1_000,
    );
    assert!(matches!(resp, Response::Error(LedgerError::NotAuthenticated)));
    let resp = state.execute_operation(Operation::Stake { amount: Amount::from_tokens(1) }, None, 1_000);
    assert!(matches!(resp, Response::Error(LedgerError::NotAuthenticated)));
    let resp = state.execute_operation(Operation::Unstake { amount: Amount::from_tokens(1) }, None, 1_000);
    assert!(matches!(resp, Response::Error(LedgerError::NotAuthenticated)));
}

#[test]
fn dispatch_register_stake_and_slash() {
    let mut state = KyaRegistryState::new();
    let agent = AgentId::new(4);
    let resp = state.execute_operation(
        Operation::RegisterAgent {
            code_hash: vec![9u8; 32],
            storage_provider: StorageProvider::Walrus,
            storage_cid: String::from("blob-4"),
            manifest: AgentManifest::default(),
        },
        Some(agent),
        1_000,
    );
    match resp {
        Response::AgentRegistered { agent_id, storage_cid } => {
            assert_eq!(agent_id, agent);
            assert_eq!(storage_cid, "blob-4");
        },
        other => panic!("unexpected response: {:?}", other),
    }
    let resp = state.execute_operation(
        Operation::Stake { amount: Amount::from_tokens(100) },
        Some(agent),
        2_000,
    );
    match resp {
        Response::Staked { agent_id, amount, new_balance } => {
            assert_eq!(agent_id, agent);
            assert_eq!(amount, Amount::from_tokens(100));
            assert_eq!(new_balance, Amount::from_tokens(100));
        },
        other => panic!("unexpected response: {:?}", other),
    }
    // Slashing 150 of a 100 balance reports the clamped amount.
    let resp = state.execute_operation(
        Operation::Slash { agent_id: agent, amount: Amount::from_tokens(150) },
        None,
        3_000,
    );
    match resp {
        Response::Slashed { agent_id, amount } => {
            assert_eq!(agent_id, agent);
            assert_eq!(amount, Amount::from_tokens(100));
        },
        other => panic!("unexpected response: {:?}", other),
    }
    assert_eq!(state.get_badge(agent).unwrap().stake_balance, Amount::zero());
}
