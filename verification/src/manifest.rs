//! Agent manifests: structured capability, tooling and resource metadata.
//!
//! A manifest is replaced wholesale on every code update; the core never
//! interprets its contents beyond carrying them.

use vstd::prelude::*;

verus! {

/// Storage provider for the off-chain code package a badge points at.
/// The core never dereferences the pointer.
#[derive(Debug, Clone, Copy, PartialEq, Eq, Structural, Default)]
pub enum StorageProvider {
    /// No off-chain storage.
    #[default]
    NoStorage,
    IPFS,
    Arweave,
    Walrus,
    HTTP,
}

/// A tool offered by the agent.
#[derive(Debug, Clone)]
pub struct ToolDefinition {
    /// Name of the tool.
    pub name: String,
    /// Description of the tool.
    pub description: String,
    /// Input schema (JSON Schema format as string).
    pub input_schema: String,
}

/// Resource requirements for running the agent.
#[derive(Debug, Clone)]
pub struct ResourceRequirements {
    /// Minimum memory in MB.
    pub min_memory_mb: u32,
    /// Requires GPU.
    pub requires_gpu: bool,
    /// Requires network access.
    pub requires_network: bool,
    /// Requires filesystem access.
    pub requires_filesystem: bool,
}

impl Default for ResourceRequirements {
    fn default() -> (r: Self)
        ensures
            r.min_memory_mb == 0,
            !r.requires_gpu,
            !r.requires_network,
            !r.requires_filesystem,
    {
        ResourceRequirements {
            min_memory_mb: 0,
            requires_gpu: false,
            requires_network: false,
            requires_filesystem: false,
        }
    }
}

/// Structured metadata about the agent's capabilities, versioned by the
/// `version` string.
#[derive(Debug, Clone)]
pub struct AgentManifest {
    /// Human-readable name.
    pub name: String,
    /// Description of what the agent does.
    pub description: String,
    /// Semantic version (e.g., "1.0.0").
    pub version: String,
    /// Entry point function (e.g., "main.run").
    pub entry_point: String,
    /// Runtime environment (e.g., "python3.11", "docker", "node20").
    pub runtime: String,
    /// List of capabilities/domains (e.g., "defi", "trading", "social").
    pub capabilities: Vec<String>,
    /// Tools provided by this agent.
    pub tools: Vec<ToolDefinition>,
    /// Required permissions.
    pub required_permissions: Vec<String>,
    /// Resource requirements.
    pub resources: ResourceRequirements,
    /// Author/maintainer.
    pub author: String,
    /// License (e.g., "MIT", "Apache-2.0").
    pub license: String,
    /// Homepage/documentation URL.
    pub homepage: String,
}

impl Default for AgentManifest {
    fn default() -> (r: Self)
        ensures
            r.name@ == Seq::<char>::empty(),
            r.description@ == Seq::<char>::empty(),
            r.version@ == "0.1.0"@,
            r.entry_point@ == "main.run"@,
            r.runtime@ == "python3"@,
            r.capabilities@.len() == 0,
            r.tools@.len() == 0,
            r.required_permissions@.len() == 0,
            r.resources.min_memory_mb == 0,
            !r.resources.requires_gpu,
            !r.resources.requires_network,
            !r.resources.requires_filesystem,
            r.author@ == Seq::<char>::empty(),
            r.license@ == "MIT"@,
            r.homepage@ == Seq::<char>::empty(),
    {
        AgentManifest {
            name: String::new(),
            description: String::new(),
            version: "0.1.0".to_owned(),
            entry_point: "main.run".to_owned(),
            runtime: "python3".to_owned(),
            capabilities: Vec::new(),
            tools: Vec::new(),
            required_permissions: Vec::new(),
            resources: ResourceRequirements::default(),
            author: String::new(),
            license: "MIT".to_owned(),
            homepage: String::new(),
        }
    }
}

} // verus!
