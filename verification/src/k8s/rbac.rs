//! RBAC objects: rules, cluster roles and their bindings.

use vstd::prelude::*;
use crate::k8s::meta::{copy_opt_strings, copy_strings, opt_strs_view, ObjectMeta};

verus! {

/// One RBAC rule: verbs allowed on resources of API groups.
#[derive(Clone, Debug)]
pub struct PolicyRule {
    pub api_groups: Option<Vec<String>>,
    pub non_resource_urls: Option<Vec<String>>,
    pub resource_names: Option<Vec<String>>,
    pub resources: Option<Vec<String>>,
    pub verbs: Vec<String>,
}

impl PolicyRule {
    /// The two rules name the same groups, URLs, resources and verbs.
    pub open spec fn same_as(&self, other: PolicyRule) -> bool {
        &&& opt_strs_view(self.api_groups) == opt_strs_view(other.api_groups)
        &&& opt_strs_view(self.non_resource_urls) == opt_strs_view(other.non_resource_urls)
        &&& opt_strs_view(self.resource_names) == opt_strs_view(other.resource_names)
        &&& opt_strs_view(self.resources) == opt_strs_view(other.resources)
        &&& self.verbs@ == other.verbs@
    }

    /// A copy of the rule.
    pub fn duplicate(&self) -> (r: PolicyRule)
        ensures
            r.same_as(*self),
    {
        PolicyRule {
            api_groups: copy_opt_strings(&self.api_groups),
            non_resource_urls: copy_opt_strings(&self.non_resource_urls),
            resource_names: copy_opt_strings(&self.resource_names),
            resources: copy_opt_strings(&self.resources),
            verbs: copy_strings(&self.verbs),
        }
    }
}

/// Two lists hold the same rules in the same order.
pub open spec fn same_rules(a: Seq<PolicyRule>, b: Seq<PolicyRule>) -> bool {
    &&& a.len() == b.len()
    &&& forall|i: int| 0 <= i < a.len() ==> (#[trigger] a[i]).same_as(b[i])
}

/// A copy of a list of rules.
pub fn duplicate_rules(v: &Vec<PolicyRule>) -> (r: Vec<PolicyRule>)
    ensures
        same_rules(r@, v@),
{
    let mut r: Vec<PolicyRule> = Vec::new();
    let mut i: usize = 0;
    while i < v.len()
        invariant
            i <= v.len(),
            same_rules(r@, v@.subrange(0, i as int)),
        decreases v.len() - i,
    {
        r.push(v[i].duplicate());
        i = i + 1;
    }
    assert(v@.subrange(0, v.len() as int) =~= v@);
    r
}

/// A cluster-wide role: a set of rules.
#[derive(Clone, Debug)]
pub struct ClusterRole {
    pub metadata: ObjectMeta,
    pub rules: Option<Vec<PolicyRule>>,
}

/// The role a binding grants.
#[derive(Clone, Debug)]
pub struct RoleRef {
    pub api_group: String,
    pub kind: String,
    pub name: String,
}

/// Who a binding grants its role to.
#[derive(Clone, Debug)]
pub struct Subject {
    pub api_group: Option<String>,
    pub kind: String,
    pub name: String,
    pub namespace: Option<String>,
}

/// Grants a cluster role to subjects.
#[derive(Clone, Debug)]
pub struct ClusterRoleBinding {
    pub metadata: ObjectMeta,
    pub role_ref: RoleRef,
    pub subjects: Option<Vec<Subject>>,
}

} // verus!
