//! Reputation ledger for autonomous software agents.
//!
//! Agents live on isolated execution contexts ("chains") that communicate
//! only through asynchronous messages.  The registry hub keeps one durable
//! reputation badge per agent; agent chains log task activity and relay it
//! to the hub; bridge chains turn score snapshots into content-addressed
//! commitments for external verification.

pub mod amount;
pub mod badge;
pub mod bridge;
pub mod bytes;
pub mod crypto;
pub mod error;
pub mod ids;
pub mod manifest;
pub mod protocol;
pub mod registry;
pub mod relay;
pub mod tier;

pub use amount::Amount;
pub use badge::AgentBadge;
pub use bridge::ExternalChain;
pub use bridge::OracleBridgeState;
pub use bridge::ScoreCommitment;
pub use error::LedgerError;
pub use ids::AgentId;
pub use ids::ChainId;
pub use ids::Timestamp;
pub use manifest::AgentManifest;
pub use manifest::ResourceRequirements;
pub use manifest::StorageProvider;
pub use manifest::ToolDefinition;
pub use registry::KyaRegistryState;
pub use relay::AgentClientState;
pub use relay::TaskEntry;
pub use tier::ReputationTier;
