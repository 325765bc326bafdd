//! AgentAuth: where an agent's authentication token lives.

use vstd::prelude::*;
use crate::crd::definition::{definition, CustomResourceDefinition};
use crate::k8s::meta::ObjectMeta;

verus! {

/// References a Kubernetes Secret key that holds the agent's
/// authentication token.
#[derive(Clone, Debug)]
pub struct AgentAuthSpec {
    /// Reference to a Secret key containing the auth token.
    pub secret_ref: SecretKeyRef,
}

/// A key of a Secret in the same namespace.
#[derive(Clone, Debug)]
pub struct SecretKeyRef {
    /// Name of the Secret in the same namespace.
    pub name: String,
    /// Key within the Secret.
    pub key: String,
}

/// An AgentAuth resource.
#[derive(Clone, Debug)]
pub struct AgentAuth {
    pub metadata: ObjectMeta,
    pub spec: AgentAuthSpec,
}

impl AgentAuth {
    /// The CustomResourceDefinition of AgentAuth.
    pub fn crd() -> (d: CustomResourceDefinition)
        ensures
            d.declares("AgentAuth"@, "agentauths"@, "agentauth"@, "aa"@, false),
            d.no_printer_columns(),
    {
        definition("AgentAuth", "agentauths", "agentauth", "aa", false)
    }
}

} // verus!
