//! Pods and the namespaced objects they use: ConfigMaps, volume claims and
//! service accounts.

use vstd::prelude::*;
use crate::k8s::env::{EnvFromSource, EnvVar, ResourceRequirements};
use crate::k8s::meta::{ObjectMeta, StringMap};

verus! {

/// Key/value configuration data.
#[derive(Clone, Debug)]
pub struct ConfigMap {
    pub metadata: ObjectMeta,
    pub data: Option<StringMap>,
}

/// Storage requested by a volume claim.
#[derive(Clone, Debug)]
pub struct VolumeResourceRequirements {
    /// Quantities by resource name.
    pub requests: Option<StringMap>,
}

/// What a volume claim asks for.
#[derive(Clone, Debug)]
pub struct PersistentVolumeClaimSpec {
    pub access_modes: Option<Vec<String>>,
    pub resources: Option<VolumeResourceRequirements>,
}

/// A claim on persistent storage.
#[derive(Clone, Debug)]
pub struct PersistentVolumeClaim {
    pub metadata: ObjectMeta,
    pub spec: Option<PersistentVolumeClaimSpec>,
}

/// An identity for the processes of a pod.
#[derive(Clone, Debug)]
pub struct ServiceAccount {
    pub metadata: ObjectMeta,
    pub automount_service_account_token: Option<bool>,
}

/// Where a volume is mounted in a container.
#[derive(Clone, Debug)]
pub struct VolumeMount {
    pub name: String,
    pub mount_path: String,
    pub read_only: Option<bool>,
}

/// A volume backed by a ConfigMap.
#[derive(Clone, Debug)]
pub struct ConfigMapVolumeSource {
    pub name: String,
}

/// A volume backed by a persistent volume claim.
#[derive(Clone, Debug)]
pub struct PersistentVolumeClaimVolumeSource {
    pub claim_name: String,
    pub read_only: Option<bool>,
}

/// A volume of a pod; at most one source is set.
#[derive(Clone, Debug)]
pub struct Volume {
    pub name: String,
    pub config_map: Option<ConfigMapVolumeSource>,
    pub persistent_volume_claim: Option<PersistentVolumeClaimVolumeSource>,
    /// The volume is an empty directory that lives as long as the pod.
    pub empty_dir: bool,
}

/// Linux capabilities of a container.
#[derive(Clone, Debug)]
pub struct Capabilities {
    pub drop: Option<Vec<String>>,
}

/// Security settings of a container.
#[derive(Clone, Debug)]
pub struct SecurityContext {
    pub allow_privilege_escalation: Option<bool>,
    pub read_only_root_filesystem: Option<bool>,
    pub capabilities: Option<Capabilities>,
}

/// A container of a pod.
#[derive(Clone, Debug)]
pub struct Container {
    pub name: String,
    pub image: Option<String>,
    pub command: Option<Vec<String>>,
    pub env: Option<Vec<EnvVar>>,
    pub env_from: Option<Vec<EnvFromSource>>,
    pub volume_mounts: Option<Vec<VolumeMount>>,
    pub resources: Option<ResourceRequirements>,
    pub security_context: Option<SecurityContext>,
}

/// The seccomp profile of a pod.
#[derive(Clone, Debug)]
pub struct SeccompProfile {
    pub type_: String,
}

/// Security settings of a pod.
#[derive(Clone, Debug)]
pub struct PodSecurityContext {
    pub run_as_non_root: Option<bool>,
    pub run_as_user: Option<i64>,
    pub run_as_group: Option<i64>,
    pub fs_group: Option<i64>,
    pub seccomp_profile: Option<SeccompProfile>,
}

/// What runs in a pod and how.
#[derive(Clone, Debug)]
pub struct PodSpec {
    pub containers: Vec<Container>,
    pub restart_policy: Option<String>,
    pub service_account_name: Option<String>,
    pub automount_service_account_token: Option<bool>,
    pub security_context: Option<PodSecurityContext>,
    pub volumes: Option<Vec<Volume>>,
    pub active_deadline_seconds: Option<i64>,
}

/// The pods a Job creates.
#[derive(Clone, Debug)]
pub struct PodTemplateSpec {
    pub metadata: Option<ObjectMeta>,
    pub spec: Option<PodSpec>,
}

} // verus!
