//! Container environment and resource settings, carried from an AgentJob
//! into the containers it runs.

use vstd::prelude::*;
use crate::k8s::meta::{copy_opt_string, duplicate_all, duplicate_opt, Duplicate, StringMap};

verus! {

/// Selects a key of a ConfigMap or a Secret.
#[derive(Clone, Debug)]
pub struct KeySelector {
    pub key: String,
    pub name: String,
    pub optional: Option<bool>,
}

impl Duplicate for KeySelector {
    fn duplicate(&self) -> (r: Self) {
        KeySelector { key: self.key.clone(), name: self.name.clone(), optional: self.optional }
    }
}

/// Selects a field of the pod.
#[derive(Clone, Debug)]
pub struct ObjectFieldSelector {
    pub api_version: Option<String>,
    pub field_path: String,
}

impl Duplicate for ObjectFieldSelector {
    fn duplicate(&self) -> (r: Self) {
        ObjectFieldSelector {
            api_version: copy_opt_string(&self.api_version),
            field_path: self.field_path.clone(),
        }
    }
}

/// Selects a resource of a container.
#[derive(Clone, Debug)]
pub struct ResourceFieldSelector {
    pub container_name: Option<String>,
    /// A quantity, in its string form.
    pub divisor: Option<String>,
    pub resource: String,
}

impl Duplicate for ResourceFieldSelector {
    fn duplicate(&self) -> (r: Self) {
        ResourceFieldSelector {
            container_name: copy_opt_string(&self.container_name),
            divisor: copy_opt_string(&self.divisor),
            resource: self.resource.clone(),
        }
    }
}

/// Selects a key of an env file in a volume.
#[derive(Clone, Debug)]
pub struct FileKeySelector {
    pub key: String,
    pub optional: Option<bool>,
    pub path: String,
    pub volume_name: String,
}

impl Duplicate for FileKeySelector {
    fn duplicate(&self) -> (r: Self) {
        FileKeySelector {
            key: self.key.clone(),
            optional: self.optional,
            path: self.path.clone(),
            volume_name: self.volume_name.clone(),
        }
    }
}

/// Where the value of an environment variable comes from.
#[derive(Clone, Debug)]
pub struct EnvVarSource {
    pub config_map_key_ref: Option<KeySelector>,
    pub field_ref: Option<ObjectFieldSelector>,
    pub file_key_ref: Option<FileKeySelector>,
    pub resource_field_ref: Option<ResourceFieldSelector>,
    pub secret_key_ref: Option<KeySelector>,
}

impl Duplicate for EnvVarSource {
    fn duplicate(&self) -> (r: Self) {
        EnvVarSource {
            config_map_key_ref: duplicate_opt(&self.config_map_key_ref),
            field_ref: duplicate_opt(&self.field_ref),
            file_key_ref: duplicate_opt(&self.file_key_ref),
            resource_field_ref: duplicate_opt(&self.resource_field_ref),
            secret_key_ref: duplicate_opt(&self.secret_key_ref),
        }
    }
}

/// An environment variable of a container.
#[derive(Clone, Debug)]
pub struct EnvVar {
    pub name: String,
    pub value: Option<String>,
    pub value_from: Option<EnvVarSource>,
}

impl Duplicate for EnvVar {
    fn duplicate(&self) -> (r: Self) {
        EnvVar {
            name: self.name.clone(),
            value: copy_opt_string(&self.value),
            value_from: duplicate_opt(&self.value_from),
        }
    }
}

/// Names a ConfigMap or a Secret whose keys become environment variables.
#[derive(Clone, Debug)]
pub struct EnvSource {
    pub name: String,
    pub optional: Option<bool>,
}

impl Duplicate for EnvSource {
    fn duplicate(&self) -> (r: Self) {
        EnvSource { name: self.name.clone(), optional: self.optional }
    }
}

/// Bulk environment injection from a ConfigMap or a Secret.
#[derive(Clone, Debug)]
pub struct EnvFromSource {
    pub config_map_ref: Option<EnvSource>,
    pub prefix: Option<String>,
    pub secret_ref: Option<EnvSource>,
}

impl Duplicate for EnvFromSource {
    fn duplicate(&self) -> (r: Self) {
        EnvFromSource {
            config_map_ref: duplicate_opt(&self.config_map_ref),
            prefix: copy_opt_string(&self.prefix),
            secret_ref: duplicate_opt(&self.secret_ref),
        }
    }
}

/// A dynamic resource claimed by a container.
#[derive(Clone, Debug)]
pub struct ResourceClaim {
    pub name: String,
    pub request: Option<String>,
}

impl Duplicate for ResourceClaim {
    fn duplicate(&self) -> (r: Self) {
        ResourceClaim { name: self.name.clone(), request: copy_opt_string(&self.request) }
    }
}

/// The entries of an optional map, as views.
pub open spec fn opt_map_view(m: Option<StringMap>) -> Option<Seq<(Seq<char>, Seq<char>)>> {
    match m {
        Some(m) => Some(m.entries_view()),
        None => None,
    }
}

/// The elements of an optional list.
pub open spec fn opt_vec_view<T>(v: Option<Vec<T>>) -> Option<Seq<T>> {
    match v {
        Some(v) => Some(v@),
        None => None,
    }
}

/// A copy of an optional map.
pub fn duplicate_opt_map(m: &Option<StringMap>) -> (r: Option<StringMap>)
    ensures
        opt_map_view(r) == opt_map_view(*m),
{
    match m {
        Some(m) => Some(m.duplicate()),
        None => None,
    }
}

/// A copy of an optional list.
pub fn duplicate_opt_all<T: Duplicate>(v: &Option<Vec<T>>) -> (r: Option<Vec<T>>)
    ensures
        opt_vec_view(r) == opt_vec_view(*v),
{
    match v {
        Some(v) => Some(duplicate_all(v)),
        None => None,
    }
}

/// Compute resources requested by and allowed to a container.
#[derive(Clone, Debug)]
pub struct ResourceRequirements {
    pub claims: Option<Vec<ResourceClaim>>,
    /// Quantities by resource name.
    pub limits: Option<StringMap>,
    /// Quantities by resource name.
    pub requests: Option<StringMap>,
}

impl ResourceRequirements {
    /// No claims, limits or requests.
    pub fn none() -> (r: ResourceRequirements)
        ensures
            r.is_none(),
    {
        ResourceRequirements { claims: None, limits: None, requests: None }
    }

    /// Nothing is set.
    pub open spec fn is_none(&self) -> bool {
        &&& self.claims is None
        &&& self.limits is None
        &&& self.requests is None
    }

    /// The two hold the same claims, limits and requests.
    pub open spec fn same_as(&self, other: ResourceRequirements) -> bool {
        &&& opt_vec_view(self.claims) == opt_vec_view(other.claims)
        &&& opt_map_view(self.limits) == opt_map_view(other.limits)
        &&& opt_map_view(self.requests) == opt_map_view(other.requests)
    }

    /// A copy holding the same claims, limits and requests.
    pub fn duplicate(&self) -> (r: ResourceRequirements)
        ensures
            r.same_as(*self),
    {
        ResourceRequirements {
            claims: duplicate_opt_all(&self.claims),
            limits: duplicate_opt_map(&self.limits),
            requests: duplicate_opt_map(&self.requests),
        }
    }
}

} // verus!
