//! AgentRole: the tools an agent may use.

use vstd::prelude::*;
use crate::crd::definition::{definition, CustomResourceDefinition};
use crate::k8s::meta::ObjectMeta;

verus! {

/// Defines which tools an agent is allowed to use.
#[derive(Clone, Debug)]
pub struct AgentRoleSpec {
    /// List of allowed tool names (e.g. "Bash", "Read",
    /// "mcp__gmail__*").
    pub allowed_tools: Vec<String>,
}

/// An AgentRole resource.
#[derive(Clone, Debug)]
pub struct AgentRole {
    pub metadata: ObjectMeta,
    pub spec: AgentRoleSpec,
}

impl AgentRole {
    /// The CustomResourceDefinition of AgentRole.
    pub fn crd() -> (d: CustomResourceDefinition)
        ensures
            d.declares("AgentRole"@, "agentroles"@, "agentrole"@, "arl"@, false),
            d.no_printer_columns(),
    {
        definition("AgentRole", "agentroles", "agentrole", "arl", false)
    }
}

} // verus!
