//! AgentRuntime: the image an agent runs and its path conventions.

use vstd::prelude::*;
use crate::crd::definition::{definition, CustomResourceDefinition};
use crate::k8s::meta::ObjectMeta;

verus! {

/// Defines how an agent runs: container image, entrypoint,
/// and path conventions for config/persistence mounts.
#[derive(Clone, Debug)]
pub struct AgentRuntimeSpec {
    /// Container image for the agent.
    pub image: String,
    /// Container command override.
    pub command: Vec<String>,
    /// Name of the environment variable used to inject the auth
    /// token (e.g. "AGENT_TOKEN").
    pub auth_env_var: String,
    /// Path where the generated ConfigMap is mounted (read-only).
    pub config_path: String,
    /// Path where the PVC is mounted when persistence is enabled.
    pub persist_path: String,
}

/// An AgentRuntime resource.
#[derive(Clone, Debug)]
pub struct AgentRuntime {
    pub metadata: ObjectMeta,
    pub spec: AgentRuntimeSpec,
}

impl AgentRuntime {
    /// The CustomResourceDefinition of AgentRuntime.
    pub fn crd() -> (d: CustomResourceDefinition)
        ensures
            d.declares("AgentRuntime"@, "agentruntimes"@, "agentruntime"@, "ar"@, false),
            d.no_printer_columns(),
    {
        definition("AgentRuntime", "agentruntimes", "agentruntime", "ar", false)
    }
}

} // verus!
