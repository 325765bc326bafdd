//! ClusterAccess: RBAC rules granted to an agent's pods.

use vstd::prelude::*;
use crate::crd::definition::{definition, CustomResourceDefinition};
use crate::k8s::meta::ObjectMeta;
use crate::k8s::rbac::PolicyRule;

verus! {

/// Defines Kubernetes RBAC rules. When referenced by an
/// AgentJob, the controller creates a ServiceAccount,
/// ClusterRole, and ClusterRoleBinding.
#[derive(Clone, Debug)]
pub struct ClusterAccessSpec {
    /// Kubernetes RBAC policy rules. Same syntax as a
    /// ClusterRole's rules field.
    pub rules: Vec<PolicyRule>,
}

/// A ClusterAccess resource.
#[derive(Clone, Debug)]
pub struct ClusterAccess {
    pub metadata: ObjectMeta,
    pub spec: ClusterAccessSpec,
}

impl ClusterAccess {
    /// The CustomResourceDefinition of ClusterAccess.
    pub fn crd() -> (d: CustomResourceDefinition)
        ensures
            d.declares("ClusterAccess"@, "clusteraccesses"@, "clusteraccess"@, "ca"@, false),
            d.no_printer_columns(),
    {
        definition("ClusterAccess", "clusteraccesses", "clusteraccess", "ca", false)
    }
}

} // verus!
