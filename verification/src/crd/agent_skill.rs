//! AgentSkill: a reusable skill kept in a GitHub repository.

use vstd::prelude::*;
use crate::crd::definition::{definition, CustomResourceDefinition};
use crate::k8s::meta::ObjectMeta;

verus! {

/// Defines a reusable skill from a GitHub repository.
#[derive(Clone, Debug)]
pub struct AgentSkillSpec {
    /// GitHub repository in "owner/repo" format.
    pub repo: String,
    /// Skill directory name within the repository.
    pub name: String,
    /// Git ref to checkout. Defaults to "main".
    pub ref_: String,
}

/// The git ref used when a skill names none.
pub fn default_ref() -> (s: String)
    ensures
        s@ == "main"@,
{
    "main".to_owned()
}

/// An AgentSkill resource.
#[derive(Clone, Debug)]
pub struct AgentSkill {
    pub metadata: ObjectMeta,
    pub spec: AgentSkillSpec,
}

impl AgentSkill {
    /// The CustomResourceDefinition of AgentSkill.
    pub fn crd() -> (d: CustomResourceDefinition)
        ensures
            d.declares("AgentSkill"@, "agentskills"@, "agentskill"@, "ask"@, false),
            d.no_printer_columns(),
    {
        definition("AgentSkill", "agentskills", "agentskill", "ask", false)
    }
}

} // verus!
