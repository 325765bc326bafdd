//! AgentJob: a scheduled or one-shot agent run, the orchestration unit.

use vstd::prelude::*;
use crate::crd::definition::{definition, CustomResourceDefinition, PrinterColumn};
use crate::k8s::env::{EnvFromSource, EnvVar, ResourceRequirements};
use crate::k8s::meta::{copy_opt_string, Duplicate, ObjectMeta};

verus! {

/// The main orchestration unit. Defines a scheduled or one-shot
/// agent job with references to runtime, auth, role, skills,
/// MCP servers, repositories, and cluster access.
#[derive(Clone, Debug)]
pub struct AgentJobSpec {
    /// Cron schedule expression. Omit for a one-shot Job.
    pub schedule: Option<String>,
    /// IANA timezone for the schedule.
    pub timezone: String,
    /// Suspend future executions without deleting the resource.
    pub suspend: bool,
    /// Reference to an AgentRuntime resource.
    pub runtime_ref: String,
    /// Reference to an AgentAuth resource.
    pub auth_ref: String,
    /// Reference to an AgentRole resource.
    pub role_ref: String,
    /// Reference to an AgentSkill resource.
    pub skill_ref: Option<String>,
    /// Reference to a ClusterAccess resource.
    pub cluster_access_ref: Option<String>,
    /// References to McpServer resources.
    pub mcp_server_refs: Vec<String>,
    /// References to Repository resources.
    pub repository_refs: Vec<String>,
    /// The prompt text sent to the agent.
    pub prompt: String,
    /// Additional instructions mounted as project context
    /// (a project instructions file for the agent).
    pub instructions: Option<String>,
    /// Model override (e.g. "sonnet", "opus").
    pub model: Option<String>,
    /// Resource requests and limits for the container.
    pub resources: Option<ResourceRequirements>,
    /// Job timeout in seconds.
    pub timeout_seconds: u32,
    /// Environment variables (native K8s EnvVar).
    pub env: Vec<EnvVar>,
    /// Bulk environment injection from Secrets/ConfigMaps.
    pub env_from: Vec<EnvFromSource>,
    /// Enable persistent storage. When true, the controller
    /// creates a PVC with sensible defaults.
    pub persist: bool,
}

/// The timezone used when an AgentJob names none.
pub fn default_timezone() -> (s: String)
    ensures
        s@ == "Etc/UTC"@,
{
    "Etc/UTC".to_owned()
}

/// The timeout, in seconds, used when an AgentJob names none.
pub fn default_timeout() -> (t: u32)
    ensures
        t == 3600,
{
    3600
}

/// Observed state of an AgentJob.
#[derive(Clone, Debug)]
pub struct AgentJobStatus {
    /// Current phase: Pending, Running, Succeeded, Failed,
    /// Suspended.
    pub phase: Option<String>,
    /// Last time the job was scheduled (ISO 8601).
    pub last_run_time: Option<String>,
    /// Last time the controller observed a completion.
    pub last_completion_time: Option<String>,
    /// Human-readable message about current state.
    pub message: Option<String>,
    /// Generation the controller last reconciled.
    pub observed_generation: i64,
    /// Hash of the rendered ConfigMap data for drift detection.
    pub config_hash: Option<String>,
    /// Child resources the controller owns.
    pub owned_resources: Vec<OwnedResource>,
    /// Standard Kubernetes conditions.
    pub conditions: Vec<Condition>,
}

/// A child resource, by kind and name.
#[derive(Clone, Debug)]
pub struct OwnedResource {
    pub kind: String,
    pub name: String,
}

/// A standard Kubernetes condition.
#[derive(Clone, Debug)]
pub struct Condition {
    pub type_: String,
    /// "True", "False", or "Unknown".
    pub status: String,
    pub last_transition_time: String,
    pub reason: Option<String>,
    pub message: Option<String>,
}

impl Duplicate for OwnedResource {
    fn duplicate(&self) -> (r: Self) {
        OwnedResource { kind: self.kind.clone(), name: self.name.clone() }
    }
}

impl Duplicate for Condition {
    fn duplicate(&self) -> (r: Self) {
        Condition {
            type_: self.type_.clone(),
            status: self.status.clone(),
            last_transition_time: self.last_transition_time.clone(),
            reason: copy_opt_string(&self.reason),
            message: copy_opt_string(&self.message),
        }
    }
}

/// An AgentJob resource.
#[derive(Clone, Debug)]
pub struct AgentJob {
    pub metadata: ObjectMeta,
    pub spec: AgentJobSpec,
    pub status: Option<AgentJobStatus>,
}

/// A printer column with the given name, type and JSON path.
fn column(name: &str, type_: &str, json_path: &str) -> (c: PrinterColumn)
    ensures
        c.name@ == name@,
        c.type_@ == type_@,
        c.json_path@ == json_path@,
{
    PrinterColumn { name: name.to_owned(), type_: type_.to_owned(), json_path: json_path.to_owned() }
}

impl AgentJob {
    /// The CustomResourceDefinition of AgentJob: with a status subresource
    /// and columns for the schedule, suspension, phase and last run.
    pub fn crd() -> (d: CustomResourceDefinition)
        ensures
            d.declares("AgentJob"@, "agentjobs"@, "agentjob"@, "aj"@, true),
            d.spec.versions@[0].printer_columns@.len() == 4,
            d.spec.versions@[0].printer_columns@[0].name@ == "Schedule"@,
            d.spec.versions@[0].printer_columns@[0].type_@ == "string"@,
            d.spec.versions@[0].printer_columns@[0].json_path@ == ".spec.schedule"@,
            d.spec.versions@[0].printer_columns@[1].name@ == "Suspended"@,
            d.spec.versions@[0].printer_columns@[1].type_@ == "boolean"@,
            d.spec.versions@[0].printer_columns@[1].json_path@ == ".spec.suspend"@,
            d.spec.versions@[0].printer_columns@[2].name@ == "Phase"@,
            d.spec.versions@[0].printer_columns@[2].type_@ == "string"@,
            d.spec.versions@[0].printer_columns@[2].json_path@ == ".status.phase"@,
            d.spec.versions@[0].printer_columns@[3].name@ == "Last Run"@,
            d.spec.versions@[0].printer_columns@[3].type_@ == "date"@,
            d.spec.versions@[0].printer_columns@[3].json_path@ == ".status.lastRunTime"@,
    {
        let d = definition("AgentJob", "agentjobs", "agentjob", "aj", true);
        let mut columns: Vec<PrinterColumn> = Vec::new();
        columns.push(column("Schedule", "string", ".spec.schedule"));
        columns.push(column("Suspended", "boolean", ".spec.suspend"));
        columns.push(column("Phase", "string", ".status.phase"));
        columns.push(column("Last Run", "date", ".status.lastRunTime"));
        let CustomResourceDefinition { metadata, spec } = d;
        let mut versions = spec.versions;
        let mut v = versions.remove(0);
        v.printer_columns = columns;
        versions.insert(0, v);
        CustomResourceDefinition {
            metadata,
            spec: crate::crd::definition::CrdSpec {
                group: spec.group,
                names: spec.names,
                scope: spec.scope,
                versions,
            },
        }
    }
}

} // verus!
