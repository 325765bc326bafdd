//! The decisions of the AgentJob reconciler: what to do with an AgentJob,
//! which children to apply, and what status to report.

use vstd::prelude::*;
use crate::controller::builders::{
    base_name, cluster_rbac_name, cluster_rbac_name_view, cluster_role, cluster_role_binding,
    cluster_role_binding_ok, cluster_role_ok, config_hash, config_hash_view, config_name,
    config_name_view, configmap, configmap_ok, cron_job, cron_job_ok, cron_name, job, job_name,
    job_name_view, job_ok, pvc, pvc_name, pvc_name_view, pvc_ok, runner_name, runner_name_view,
    service_account, service_account_ok,
};
use crate::controller::resolve::{require_namespace, Resolved};
use crate::controller::status::{opt_str_eq, StatusUpdate};
use crate::controller::{requeue_short, Action, ReconcileError};
use crate::crd::agent_job::{AgentJob, OwnedResource};
use crate::k8s::batch::{CronJob, Job};
use crate::k8s::meta::opt_view;
use crate::k8s::pod::{ConfigMap, PersistentVolumeClaim, ServiceAccount};
use crate::k8s::rbac::{ClusterRole, ClusterRoleBinding};

verus! {

/// What a reconcile does with an AgentJob.
#[derive(Clone, Copy, Debug, PartialEq, Eq, Structural)]
pub enum Mode {
    /// Deletion was requested: clean up cluster-scoped RBAC, release the
    /// finalizer, and wait.
    Delete,
    /// The AgentJob is suspended: tear down its workloads.
    Suspend,
    /// Apply the children and run the agent.
    Run,
}

/// The namespace of the AgentJob and what to do with it: an error when it
/// has no namespace; deletion first, then suspension, else run.
pub fn reconcile_mode(ajob: &AgentJob) -> (r: Result<(String, Mode), ReconcileError>)
    ensures
        r is Ok <==> ajob.metadata.namespace is Some,
        r matches Err(e) ==> e matches ReconcileError::InvalidSpec(m) && m@
            == "AgentJob missing namespace"@,
        r matches Ok((ns, mode)) ==> {
            &&& opt_view(ajob.metadata.namespace) == Some(ns@)
            &&& mode == if ajob.metadata.deletion_timestamp is Some {
                Mode::Delete
            } else if ajob.spec.suspend {
                Mode::Suspend
            } else {
                Mode::Run
            }
        },
{
    let ns = require_namespace(ajob)?;
    let mode = if ajob.metadata.deletion_timestamp.is_some() {
        Mode::Delete
    } else if ajob.spec.suspend {
        Mode::Suspend
    } else {
        Mode::Run
    };
    Ok((ns, mode))
}

/// The status of a suspended AgentJob.
pub fn suspended_update() -> (u: StatusUpdate)
    ensures
        u.phase@ == "Suspended"@,
        u.message matches Some(m) && m@ == "spec.suspend=true"@,
        u.ready matches Some(r) && !r.0 && r.1@ == "Suspended"@ && r.2@ == "AgentJob suspended"@,
        u.config_hash is None,
        u.owned@.len() == 0,
        u.last_run_time is None,
{
    StatusUpdate {
        phase: "Suspended",
        message: Some("spec.suspend=true".to_owned()),
        config_hash: None,
        owned: Vec::new(),
        ready: Some((false, "Suspended", "AgentJob suspended".to_owned())),
        last_run_time: None,
    }
}

/// How a missing reference is reported.
pub open spec fn not_found_message(kind: Seq<char>, name: Seq<char>, namespace: Seq<char>) -> Seq<
    char,
> {
    "resource "@ + kind + "/"@ + name + " not found in namespace "@ + namespace
}

/// The message of a missing reference.
pub fn not_found_text(kind: &str, name: &String, namespace: &String) -> (s: String)
    ensures
        s@ == not_found_message(kind@, name@, namespace@),
{
    let mut s = "resource ".to_owned();
    s.append(kind);
    s.append("/");
    s.append(name.as_str());
    s.append(" not found in namespace ");
    s.append(namespace.as_str());
    s
}

/// The status reported when a reference could not be found: none for any
/// other error, which fails the reconcile instead.
pub fn resolve_failed_update(e: &ReconcileError) -> (u: Option<StatusUpdate>)
    ensures
        u is Some <==> e is RefNotFound,
        u matches Some(u) ==> e matches ReconcileError::RefNotFound { kind, name, namespace } && {
            let msg = not_found_message(kind@, name@, namespace@);
            &&& u.phase@ == "Pending"@
            &&& u.message matches Some(m) && m@ == msg
            &&& u.ready matches Some(r) && !r.0 && r.1@ == "ResolveFailed"@ && r.2@ == msg
            &&& u.config_hash is None
            &&& u.owned@.len() == 0
            &&& u.last_run_time is None
        },
{
    match e {
        ReconcileError::RefNotFound { kind, name, namespace } => {
            let msg = not_found_text(kind, name, namespace);
            Some(
                StatusUpdate {
                    phase: "Pending",
                    message: Some(msg.clone()),
                    config_hash: None,
                    owned: Vec::new(),
                    ready: Some((false, "ResolveFailed", msg)),
                    last_run_time: None,
                },
            )
        },
        _ => None,
    }
}

/// What to do after a failed reconcile: retry soon.
pub fn error_policy(ajob: &AgentJob, err: &ReconcileError) -> (a: Action)
    ensures
        a == Action::Requeue(30),
{
    requeue_short()
}

/// The workload that runs the agent.
pub enum Workload {
    /// A CronJob, for an AgentJob with a schedule.
    Scheduled(CronJob),
    /// A one-shot Job, for an AgentJob without one.
    OneShot(Job),
}

/// Everything a reconcile applies, in order, and the status it then
/// reports.
pub struct Plan {
    /// The configuration hash.
    pub hash: String,
    pub config_map: ConfigMap,
    pub pvc: Option<PersistentVolumeClaim>,
    pub service_account: Option<ServiceAccount>,
    pub cluster_role: Option<ClusterRole>,
    pub cluster_role_binding: Option<ClusterRoleBinding>,
    pub workload: Workload,
    /// The name of the workload.
    pub workload_name: String,
    pub update: StatusUpdate,
    /// The note of the event announcing the reconcile.
    pub event_note: String,
}

/// The kind of the workload of an AgentJob.
pub open spec fn workload_kind(ajob: AgentJob) -> Seq<char> {
    if ajob.spec.schedule is Some {
        "CronJob"@
    } else {
        "Job"@
    }
}

/// The name of the workload of an AgentJob for configuration `hash`.
pub open spec fn workload_name_view(ajob: AgentJob, hash: Seq<char>) -> Seq<char> {
    if ajob.spec.schedule is Some {
        base_name(ajob)
    } else {
        job_name_view(ajob, hash)
    }
}

/// The kinds and names of owned resources.
pub open spec fn owned_view(rs: Seq<OwnedResource>) -> Seq<(Seq<char>, Seq<char>)> {
    rs.map_values(|o: OwnedResource| (o.kind@, o.name@))
}

/// The children a reconcile owns, in the order it applies them: the
/// ConfigMap; the claim when persistence is enabled; the ServiceAccount,
/// ClusterRole and ClusterRoleBinding when the AgentJob has cluster
/// access; the workload last.
pub open spec fn expected_owned(ajob: AgentJob, hash: Seq<char>) -> Seq<(Seq<char>, Seq<char>)> {
    let a = seq![("ConfigMap"@, config_name_view(ajob))];
    let b = if ajob.spec.persist {
        a.push(("PersistentVolumeClaim"@, pvc_name_view(ajob)))
    } else {
        a
    };
    let c = if ajob.spec.cluster_access_ref is Some {
        b + seq![
            ("ServiceAccount"@, runner_name_view(ajob)),
            ("ClusterRole"@, cluster_rbac_name_view(ajob)),
            ("ClusterRoleBinding"@, cluster_rbac_name_view(ajob)),
        ]
    } else {
        b
    };
    c.push((workload_kind(ajob), workload_name_view(ajob, hash)))
}

/// `kind`/`name`.
pub open spec fn qualified(kind: Seq<char>, name: Seq<char>) -> Seq<char> {
    kind + "/"@ + name
}

/// The workload of the AgentJob for configuration `hash`, as `kind/name`.
pub open spec fn workload_ref(ajob: AgentJob, hash: Seq<char>) -> Seq<char> {
    qualified(workload_kind(ajob), workload_name_view(ajob, hash))
}

/// `u` reports a reconcile for configuration `hash`: phase `Running`
/// (a CronJob is running its schedule), the workload named in the message and the `Ready`
/// condition, the hash, the owned children in order, and as last run time
/// the clock's reading `now` exactly when the hash differs from the one the
/// status holds.
pub open spec fn is_reconciled_update(
    u: StatusUpdate,
    ajob: AgentJob,
    hash: Seq<char>,
    now: Option<Seq<char>>,
) -> bool {
    &&& u.phase@ == "Running"@
    &&& u.message matches Some(m) && m@ == "reconciled "@ + workload_ref(ajob, hash)
    &&& opt_view(u.config_hash) == Some(hash)
    &&& owned_view(u.owned@) == expected_owned(ajob, hash)
    &&& u.ready matches Some(rd) && rd.0 && rd.1@ == "Reconciled"@ && rd.2@ == workload_ref(ajob, hash)
    &&& opt_view(u.last_run_time) == if hash_changed(ajob, hash) {
        now
    } else {
        None
    }
}

/// The configuration hash differs from the one the status holds.
pub open spec fn hash_changed(ajob: AgentJob, hash: Seq<char>) -> bool {
    match ajob.status {
        Some(st) => opt_view(st.config_hash) != Some(hash),
        None => true,
    }
}

/// The note of the event announcing a reconcile.
pub open spec fn reconciled_note(ajob: AgentJob, hash: Seq<char>) -> Seq<char> {
    "applied "@ + workload_ref(ajob, hash)
}

fn owned(kind: &str, name: String) -> (o: OwnedResource)
    ensures
        o.kind@ == kind@,
        o.name@ == name@,
{
    OwnedResource { kind: kind.to_owned(), name }
}

/// `p` is the plan for a running AgentJob whose references resolved to
/// `r`, whose configuration renders as `agent_json`, with `now` the
/// clock's reading: see `Plan`.
pub open spec fn plan_ok(
    p: Plan,
    ajob: AgentJob,
    r: Resolved,
    namespace: Seq<char>,
    agent_json: Seq<char>,
    now: Option<Seq<char>>,
) -> bool {
    &&& p.hash@ == config_hash_view(agent_json)
    &&& configmap_ok(p.config_map, ajob, namespace, agent_json)
    &&& (p.pvc is Some <==> ajob.spec.persist)
    &&& (p.pvc matches Some(c) ==> pvc_ok(c, ajob, namespace))
    &&& (p.service_account is Some <==> ajob.spec.cluster_access_ref is Some)
    &&& (p.cluster_role is Some <==> ajob.spec.cluster_access_ref is Some)
    &&& (p.cluster_role_binding is Some <==> ajob.spec.cluster_access_ref is Some)
    &&& (p.service_account matches Some(sa) ==> service_account_ok(sa, ajob, namespace))
    &&& (p.cluster_role matches Some(cr) ==> cluster_role_ok(cr, ajob, r))
    &&& (p.cluster_role_binding matches Some(crb) ==> cluster_role_binding_ok(crb, ajob, namespace))
    &&& match ajob.spec.schedule {
        Some(s) => p.workload matches Workload::Scheduled(cj) && cron_job_ok(cj, ajob, r, namespace, s@),
        None => p.workload matches Workload::OneShot(j) && job_ok(j, ajob, r, namespace, p.hash@),
    }
    &&& p.workload_name@ == workload_name_view(ajob, p.hash@)
    &&& is_reconciled_update(p.update, ajob, p.hash@, now)
    &&& p.event_note@ == reconciled_note(ajob, p.hash@)
}

/// The reconcile of a running AgentJob whose references resolved to `r`
/// and whose configuration renders as `agent_json`: see `plan_ok`. The
/// status records the clock's reading `now` as the last run time exactly
/// when the configuration hash differs from the one the status holds; it
/// is an error to need it when the clock could not be read.
pub fn plan(ajob: &AgentJob, r: &Resolved, namespace: &str, agent_json: &str, now: Option<String>) -> (res: Result<
    Plan,
    ReconcileError,
>)
    ensures
        res is Err <==> (hash_changed(*ajob, config_hash_view(agent_json@)) && now is None),
        res matches Err(e) ==> e is Clock,
        res matches Ok(p) ==> plan_ok(p, *ajob, *r, namespace@, agent_json@, opt_view(now)),
{
    let hash = config_hash(agent_json);
    let hash_changed = match &ajob.status {
        Some(st) => !opt_str_eq(&st.config_hash, &Some(hash.clone())),
        None => true,
    };
    let last_run_time = if hash_changed {
        match now {
            Some(t) => Some(t),
            None => return Err(ReconcileError::Clock),
        }
    } else {
        None
    };
    let config_map = configmap(ajob, namespace, agent_json);
    let mut owned_resources: Vec<OwnedResource> = Vec::new();
    owned_resources.push(owned("ConfigMap", config_name(ajob)));
    let claim = if ajob.spec.persist {
        owned_resources.push(owned("PersistentVolumeClaim", pvc_name(ajob)));
        Some(pvc(ajob, namespace))
    } else {
        None
    };
    let ghost before_access = owned_view(owned_resources@);
    let (sa, cr, crb) = if ajob.spec.cluster_access_ref.is_some() {
        owned_resources.push(owned("ServiceAccount", runner_name(ajob)));
        owned_resources.push(owned("ClusterRole", cluster_rbac_name(ajob)));
        owned_resources.push(owned("ClusterRoleBinding", cluster_rbac_name(ajob)));
        (
            Some(service_account(ajob, namespace)),
            Some(cluster_role(ajob, r)),
            Some(cluster_role_binding(ajob, namespace)),
        )
    } else {
        (None, None, None)
    };
    let ghost before_workload = owned_view(owned_resources@);
    let (kind, workload, name): (&'static str, Workload, String) = match &ajob.spec.schedule {
        Some(schedule) => (
            "CronJob",
            Workload::Scheduled(cron_job(ajob, r, namespace, schedule.as_str())),
            cron_name(ajob),
        ),
        None => (
            "Job",
            Workload::OneShot(job(ajob, r, namespace, hash.as_str())),
            job_name(ajob, hash.as_str()),
        ),
    };
    owned_resources.push(owned(kind, name.clone()));
    proof {
        let a = seq![("ConfigMap"@, config_name_view(*ajob))];
        let b = if ajob.spec.persist {
            a.push(("PersistentVolumeClaim"@, pvc_name_view(*ajob)))
        } else {
            a
        };
        assert(before_access =~= b);
        let c = if ajob.spec.cluster_access_ref is Some {
            b + seq![
                ("ServiceAccount"@, runner_name_view(*ajob)),
                ("ClusterRole"@, cluster_rbac_name_view(*ajob)),
                ("ClusterRoleBinding"@, cluster_rbac_name_view(*ajob)),
            ]
        } else {
            b
        };
        assert(before_workload =~= c);
        assert(owned_view(owned_resources@) =~= expected_owned(*ajob, hash@));
    }
    let mut what = kind.to_owned();
    what.append("/");
    what.append(name.as_str());
    let mut message = "reconciled ".to_owned();
    message.append(what.as_str());
    let mut event_note = "applied ".to_owned();
    event_note.append(what.as_str());
    let update = StatusUpdate {
        phase: "Running",
        message: Some(message),
        config_hash: Some(hash.clone()),
        owned: owned_resources,
        ready: Some((true, "Reconciled", what)),
        last_run_time,
    };
    Ok(Plan {
        hash,
        config_map,
        pvc: claim,
        service_account: sa,
        cluster_role: cr,
        cluster_role_binding: crb,
        workload,
        workload_name: name,
        update,
        event_note,
    })
}

/// The configuration counts as changed unless the status holds exactly
/// this hash: a status with no hash recorded (left by a missing reference
/// or a suspension), or no status at all, is a change.
pub proof fn lemma_hash_changed_unless_recorded(ajob: AgentJob, hash: Seq<char>)
    ensures
        hash_changed(ajob, hash) <==> !(ajob.status is Some && opt_view(ajob.status->0.config_hash)
            == Some(hash)),
        ajob.status is None ==> hash_changed(ajob, hash),
        ajob.status is Some && ajob.status->0.config_hash is None ==> hash_changed(ajob, hash),
{
}

/// A planned reconcile records the clock's reading as the last run time
/// exactly when the status does not already hold the hash of this
/// configuration; it records none when it does.
pub proof fn lemma_last_run_unless_hash_recorded(
    p: Plan,
    ajob: AgentJob,
    r: Resolved,
    namespace: Seq<char>,
    agent_json: Seq<char>,
    now: Option<Seq<char>>,
)
    requires
        plan_ok(p, ajob, r, namespace, agent_json, now),
    ensures
        opt_view(p.update.last_run_time) == if ajob.status is Some && opt_view(
            ajob.status->0.config_hash,
        ) == Some(config_hash_view(agent_json)) {
            None
        } else {
            now
        },
        ajob.status is Some && ajob.status->0.config_hash is None ==> opt_view(p.update.last_run_time)
            == now,
{
    lemma_hash_changed_unless_recorded(ajob, config_hash_view(agent_json));
}

} // verus!
