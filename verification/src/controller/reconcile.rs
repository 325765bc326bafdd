//! The reconcile of one AgentJob as a sequence of requests to the cluster.
//! The caller performs each request and hands back what came of it; `step`
//! decides what to ask for next, until the reconcile finishes or fails.

use vstd::prelude::*;
use crate::controller::agentjob::{
    hash_changed, is_reconciled_update, not_found_message, plan, reconcile_mode, reconciled_note,
    resolve_failed_update, suspended_update, Mode, Plan, Workload,
};
use crate::controller::builders::{
    agent_config, agent_config_ok, base_name, cluster_role_binding_ok, cluster_role_ok,
    config_hash_view, configmap_ok, cron_job_ok, cron_name, job_ok, owner_label_selector,
    owner_selector_view, persist_slots, pvc_ok, service_account_ok, AgentConfig,
};
use crate::controller::finalizer::{
    finalizers_after_add, finalizers_after_remove, finalizers_view, without_finalizer,
};
use crate::controller::resolve::{
    completes, found_kind, gathered_nothing, gathers, kind_name_view, lookup_view, lookups,
    lookups_view, references, Found, Gathered, Lookup, RefKind, Resolved,
};
use crate::controller::clock::{is_clock_text, now_rfc3339};
use crate::controller::status::{patch_outcome, status_patch, StatusUpdate};
use crate::controller::{Action, ReconcileError, FINALIZER};
use crate::crd::agent_job::{AgentJob, AgentJobStatus};
use crate::k8s::batch::{CronJob, Job};
use crate::k8s::meta::{copy_opt_string, opt_view, strs_view};
use crate::k8s::pod::{ConfigMap, PersistentVolumeClaim, ServiceAccount};
use crate::k8s::rbac::{ClusterRole, ClusterRoleBinding};

verus! {

/// A child resource to apply.
pub enum Child {
    ConfigMap(ConfigMap),
    PersistentVolumeClaim(PersistentVolumeClaim),
    ServiceAccount(ServiceAccount),
    ClusterRole(ClusterRole),
    ClusterRoleBinding(ClusterRoleBinding),
    CronJob(CronJob),
    Job(Job),
}

/// What the reconcile asks of the cluster next.
pub enum Request {
    /// Delete every ClusterRole and ClusterRoleBinding matching the label
    /// selector. A failed deletion is ignored; a failed listing fails.
    DeleteClusterRbac(String),
    /// Merge-patch the AgentJob's finalizers to this list.
    PatchFinalizers(Vec<String>),
    /// Delete the CronJob of this name, and the Jobs matching the selector
    /// when there is one. Nothing it does fails.
    TearDown { cron_name: String, selector: Option<String> },
    /// Apply this status to the AgentJob's status subresource.
    PatchStatus(AgentJobStatus),
    /// Fetch the resource of this kind and name from this namespace.
    Fetch { kind: RefKind, name: String, namespace: String },
    /// Render the agent configuration as pretty-printed JSON.
    Render(AgentConfig),
    /// Server-side apply this child, forcing ownership of its fields.
    Apply(Child),
    /// Publish an event about the AgentJob; what comes of it is ignored.
    Publish { warning: bool, reason: &'static str, note: String, action: &'static str },
}

/// What came of the last request.
pub enum Event {
    /// The reconcile begins.
    Begin,
    /// The request succeeded.
    Done,
    /// The request failed.
    Failed(ReconcileError),
    /// The fetch came back: with the resource, or with nothing when no
    /// resource of that name exists.
    Fetched(Option<Found>),
    /// The agent configuration was rendered.
    Rendered(String),
}

/// What the caller does next.
pub enum Next {
    /// Perform the request, then call `step` with what came of it.
    Do(Request),
    /// The reconcile is over; requeue as told.
    Finish(Action),
    /// The reconcile failed.
    Fail(ReconcileError),
}

/// Where the reconcile stands: which request it awaits the outcome of.
pub enum Stage {
    Start,
    /// Awaiting the deletion of cluster-scoped RBAC.
    CleaningUp,
    /// Awaiting the removal of the finalizer.
    ReleasingFinalizer,
    /// Awaiting the addition of the finalizer.
    HoldingFinalizer(String),
    /// Awaiting the teardown of a suspended AgentJob's workloads.
    TearingDown,
    /// Awaiting the status of a suspended AgentJob.
    ReportingSuspension,
    /// Awaiting the fetch of a reference; the rest follow, in order.
    Resolving { ns: String, awaiting: Lookup, rest: Vec<Lookup>, gathered: Gathered },
    /// Awaiting the status that reports a missing reference; then the
    /// event with this note.
    ReportingMissing(String),
    /// Awaiting the event about a missing reference.
    AnnouncingMissing,
    /// Awaiting the rendered configuration, for these references.
    Rendering(String, Resolved),
    /// Awaiting the last child applied; these remain, then the status
    /// update and the event with this note.
    Applying { rest: Vec<Child>, update: StatusUpdate, note: String },
    /// Awaiting the status of the reconciled AgentJob; then the event.
    ReportingReconciled(String),
    /// Awaiting the event announcing the reconcile.
    AnnouncingReconciled,
    /// The reconcile is over.
    Finished,
}

/// The error for an outcome that does not answer the request awaited.
pub open spec fn is_out_of_order(e: ReconcileError) -> bool {
    e matches ReconcileError::InvalidSpec(m) && m@ == "reconcile event out of order"@
}

fn out_of_order() -> (r: (Stage, Next))
    ensures
        r.0 is Finished,
        r.1 matches Next::Fail(e) && is_out_of_order(e),
{
    (Stage::Finished, Next::Fail(ReconcileError::InvalidSpec("reconcile event out of order".to_owned())))
}

// ── Deletion ────────────────────────────────────────────────

/// After cleanup: release the finalizer when the AgentJob holds it, else
/// the reconcile is over until something changes.
pub open spec fn releases(ajob: AgentJob, st: Stage, nx: Next) -> bool {
    if finalizers_view(ajob.metadata).contains(FINALIZER@) {
        &&& st is ReleasingFinalizer
        &&& nx matches Next::Do(Request::PatchFinalizers(fs)) && strs_view(fs@) == without_finalizer(
            finalizers_view(ajob.metadata),
        )
    } else {
        st is Finished && nx == Next::Finish(Action::AwaitChange)
    }
}

fn release(ajob: &AgentJob) -> (r: (Stage, Next))
    ensures
        releases(*ajob, r.0, r.1),
{
    match finalizers_after_remove(ajob) {
        Some(fs) => (Stage::ReleasingFinalizer, Next::Do(Request::PatchFinalizers(fs))),
        None => (Stage::Finished, Next::Finish(Action::AwaitChange)),
    }
}

/// On deletion: delete cluster-scoped RBAC labelled with the AgentJob's
/// uid, then release; without a uid there is nothing to select.
pub open spec fn begins_deletion(ajob: AgentJob, st: Stage, nx: Next) -> bool {
    match ajob.metadata.uid {
        Some(u) => st is CleaningUp && (nx matches Next::Do(Request::DeleteClusterRbac(sel)) && sel@
            == owner_selector_view(u@)),
        None => releases(ajob, st, nx),
    }
}

fn begin_deletion(ajob: &AgentJob) -> (r: (Stage, Next))
    ensures
        begins_deletion(*ajob, r.0, r.1),
{
    match owner_label_selector(ajob) {
        Some(sel) => (Stage::CleaningUp, Next::Do(Request::DeleteClusterRbac(sel))),
        None => release(ajob),
    }
}

// ── Suspension and resolution ───────────────────────────────

/// Once the finalizer is held: tear down a suspended AgentJob's workloads,
/// else fetch the references.
pub open spec fn proceeds(ajob: AgentJob, ns: Seq<char>, st: Stage, nx: Next) -> bool {
    if ajob.spec.suspend {
        &&& st is TearingDown
        &&& nx matches Next::Do(Request::TearDown { cron_name, selector }) && cron_name@ == base_name(
            ajob,
        ) && opt_view(selector) == match ajob.metadata.uid {
            Some(u) => Some(owner_selector_view(u@)),
            None => None,
        }
    } else {
        starts_resolving(ajob, ns, st, nx)
    }
}

/// `nx` fetches the reference `l` from the namespace `ns`.
pub open spec fn fetches(ns: Seq<char>, l: Lookup, nx: Next) -> bool {
    nx matches Next::Do(Request::Fetch { kind, name, namespace }) && kind == l.kind && name@
        == l.name@ && namespace@ == ns
}

/// Resolution begins: the first reference is fetched, the others await
/// their turn, nothing is gathered yet.
pub open spec fn starts_resolving(ajob: AgentJob, ns: Seq<char>, st: Stage, nx: Next) -> bool {
    let refs = references(ajob);
    &&& st matches Stage::Resolving { ns: n, awaiting, rest, gathered }
    &&& n@ == ns
    &&& lookup_view(awaiting) == refs[0]
    &&& lookups_view(rest@) == refs.drop_first()
    &&& gathered_nothing(gathered)
    &&& fetches(ns, awaiting, nx)
}

fn fetch(ns: &String, l: &Lookup) -> (nx: Next)
    ensures
        fetches(ns@, *l, nx),
{
    Next::Do(Request::Fetch { kind: l.kind, name: l.name.clone(), namespace: ns.clone() })
}

fn start_resolving(ajob: &AgentJob, ns: String) -> (r: (Stage, Next))
    ensures
        starts_resolving(*ajob, ns@, r.0, r.1),
{
    let mut rest = lookups(ajob);
    let ghost all = rest@;
    assert(lookups_view(all).len() == all.len() && references(*ajob).len() >= 3);
    let first = rest.remove(0);
    assert(lookups_view(rest@) =~= lookups_view(all).drop_first());
    let nx = fetch(&ns, &first);
    (Stage::Resolving { ns, awaiting: first, rest, gathered: Gathered::new() }, nx)
}

fn proceed(ajob: &AgentJob, ns: String) -> (r: (Stage, Next))
    ensures
        proceeds(*ajob, ns@, r.0, r.1),
{
    if ajob.spec.suspend {
        (
            Stage::TearingDown,
            Next::Do(
                Request::TearDown {
                    cron_name: cron_name(ajob),
                    selector: owner_label_selector(ajob),
                },
            ),
        )
    } else {
        start_resolving(ajob, ns)
    }
}

/// Before anything else is done: hold the finalizer, adding it when
/// missing.
pub open spec fn holds(ajob: AgentJob, ns: Seq<char>, st: Stage, nx: Next) -> bool {
    if finalizers_view(ajob.metadata).contains(FINALIZER@) {
        proceeds(ajob, ns, st, nx)
    } else {
        &&& st matches Stage::HoldingFinalizer(n) && n@ == ns
        &&& nx matches Next::Do(Request::PatchFinalizers(fs)) && strs_view(fs@) == finalizers_view(
            ajob.metadata,
        ).push(FINALIZER@)
    }
}

fn hold(ajob: &AgentJob, ns: String) -> (r: (Stage, Next))
    ensures
        holds(*ajob, ns@, r.0, r.1),
{
    match finalizers_after_add(ajob) {
        Some(fs) => (Stage::HoldingFinalizer(ns), Next::Do(Request::PatchFinalizers(fs))),
        None => proceed(ajob, ns),
    }
}

/// Report a suspended AgentJob, with `now` the clock's reading: write its
/// status when that says something new, else requeue after five minutes;
/// a failure to build the status fails the reconcile.
pub open spec fn reports_suspension(ajob: AgentJob, now: Option<Seq<char>>, st: Stage, nx: Next) -> bool {
    exists|u: StatusUpdate, r: Result<Option<AgentJobStatus>, ReconcileError>|
        #![trigger patch_outcome(ajob, u, now, r)]
        is_suspended_update(u) && patch_outcome(ajob, u, now, r) && match r {
            Err(e) => st is Finished && nx == Next::Fail(e),
            Ok(None) => st is Finished && nx == Next::Finish(Action::Requeue(300)),
            Ok(Some(s)) => st is ReportingSuspension && nx == Next::Do(Request::PatchStatus(s)),
        }
}

/// `u` is the update reporting a suspension.
pub open spec fn is_suspended_update(u: StatusUpdate) -> bool {
    &&& u.phase@ == "Suspended"@
    &&& u.message matches Some(m) && m@ == "spec.suspend=true"@
    &&& u.ready matches Some(r) && !r.0 && r.1@ == "Suspended"@ && r.2@ == "AgentJob suspended"@
    &&& u.config_hash is None
    &&& u.owned@.len() == 0
    &&& u.last_run_time is None
}

fn report_suspension(ajob: &AgentJob, now: &Option<String>) -> (r: (Stage, Next))
    ensures
        reports_suspension(*ajob, opt_view(*now), r.0, r.1),
{
    let u = suspended_update();
    let ghost gu = u;
    let out = status_patch(ajob, u, copy_opt_string(now));
    let ghost gout = out;
    assert(is_suspended_update(gu));
    assert(patch_outcome(*ajob, gu, opt_view(*now), gout));
    match out {
        Err(e) => (Stage::Finished, Next::Fail(e)),
        Ok(None) => {
            assert(is_suspended_update(gu));
            (Stage::Finished, Next::Finish(Action::Requeue(300)))
        },
        Ok(Some(s)) => {
            assert(is_suspended_update(gu));
            (Stage::ReportingSuspension, Next::Do(Request::PatchStatus(s)))
        },
    }
}

/// The event about a missing reference.
pub open spec fn announces_missing(note: Seq<char>, st: Stage, nx: Next) -> bool {
    &&& st is AnnouncingMissing
    &&& nx matches Next::Do(Request::Publish { warning, reason, note: n, action }) && warning
        && reason@ == "ResolveFailed"@ && n@ == note && action@ == "Resolve"@
}

fn announce_missing(note: String) -> (r: (Stage, Next))
    ensures
        announces_missing(note@, r.0, r.1),
{
    (
        Stage::AnnouncingMissing,
        Next::Do(
            Request::Publish { warning: true, reason: "ResolveFailed", note, action: "Resolve" },
        ),
    )
}

/// After a reference was found missing, with `now` the clock's reading:
/// report it in the status when that says something new, and announce it
/// (at once when there is nothing to write, or the status could not be
/// built: that failure is ignored), then retry soon.
pub open spec fn handles_missing(
    ajob: AgentJob,
    note: Seq<char>,
    now: Option<Seq<char>>,
    st: Stage,
    nx: Next,
) -> bool {
    exists|u: StatusUpdate, r: Result<Option<AgentJobStatus>, ReconcileError>|
        #![trigger patch_outcome(ajob, u, now, r)]
        is_missing_update(u, note) && patch_outcome(ajob, u, now, r) && match r {
            Ok(Some(s)) => (st matches Stage::ReportingMissing(n) && n@ == note) && nx == Next::Do(
                Request::PatchStatus(s),
            ),
            _ => announces_missing(note, st, nx),
        }
}

/// `u` reports a missing reference with this message.
pub open spec fn is_missing_update(u: StatusUpdate, note: Seq<char>) -> bool {
    &&& u.phase@ == "Pending"@
    &&& u.message matches Some(m) && m@ == note
    &&& u.ready matches Some(r) && !r.0 && r.1@ == "ResolveFailed"@ && r.2@ == note
    &&& u.config_hash is None
    &&& u.owned@.len() == 0
    &&& u.last_run_time is None
}

fn report_missing(
    ajob: &AgentJob,
    kind: &'static str,
    name: String,
    ns: String,
    now: &Option<String>,
) -> (r: (Stage, Next))
    ensures
        handles_missing(*ajob, not_found_message(kind@, name@, ns@), opt_view(*now), r.0, r.1),
{
    let e = ReconcileError::RefNotFound { kind, name, namespace: ns };
    match resolve_failed_update(&e) {
        None => out_of_order(),
        Some(u) => {
            let note = match &u.message {
                Some(m) => m.clone(),
                None => String::new(),
            };
            let ghost gu = u;
            assert(is_missing_update(gu, note@));
            let out = status_patch(ajob, u, copy_opt_string(now));
            let ghost gout = out;
            assert(patch_outcome(*ajob, gu, opt_view(*now), gout));
            match out {
                Ok(Some(s)) => (Stage::ReportingMissing(note), Next::Do(Request::PatchStatus(s))),
                _ => announce_missing(note),
            }
        },
    }
}

/// A fetch came back, awaited at `awaiting` with `rest` to follow and `g`
/// gathered: a missing resource is reported; a found one of the kind
/// awaited is gathered, and the next reference fetched, or, after the
/// last, the configuration rendered from all of them; a resource of
/// another kind answers no fetch awaited.
pub open spec fn resolves(
    ajob: AgentJob,
    ns: Seq<char>,
    awaiting: Lookup,
    rest: Seq<Lookup>,
    g: Gathered,
    found: Option<Found>,
    now: Option<Seq<char>>,
    st: Stage,
    nx: Next,
) -> bool {
    match found {
        None => handles_missing(
            ajob,
            not_found_message(kind_name_view(awaiting.kind), awaiting.name@, ns),
            now,
            st,
            nx,
        ),
        Some(f) => if found_kind(f) != awaiting.kind {
            st is Finished && (nx matches Next::Fail(e) && is_out_of_order(e))
        } else if rest.len() > 0 {
            &&& st matches Stage::Resolving { ns: n, awaiting: a, rest: r2, gathered: g2 }
            &&& n@ == ns
            &&& a == rest[0]
            &&& r2@ == rest.drop_first()
            &&& gathers(g, awaiting.name, f, g2)
            &&& fetches(ns, rest[0], nx)
        } else {
            exists|g2: Gathered|
                #[trigger] gathers(g, awaiting.name, f, g2) && if g2.runtime is Some && g2.auth is Some
                    && g2.role is Some {
                    (st matches Stage::Rendering(n, res) && n@ == ns && completes(g2, res)) && (nx matches Next::Do(
                        Request::Render(c),
                    ) && (st matches Stage::Rendering(_, res) && agent_config_ok(c, ajob, res)))
                } else {
                    st is Finished && (nx matches Next::Fail(e) && is_out_of_order(e))
                }
        },
    }
}

fn resolve_next(
    ajob: &AgentJob,
    ns: String,
    awaiting: Lookup,
    rest: Vec<Lookup>,
    gathered: Gathered,
    found: Option<Found>,
    now: &Option<String>,
) -> (r: (Stage, Next))
    ensures
        resolves(*ajob, ns@, awaiting, rest@, gathered, found, opt_view(*now), r.0, r.1),
{
    match found {
        None => report_missing(ajob, awaiting.kind.kind_name(), awaiting.name, ns, now),
        Some(f) => {
            if f.kind() != awaiting.kind {
                return out_of_order();
            }
            let ghost f0 = f;
            let g = gathered.gather(awaiting.name, f);
            let mut rest = rest;
            if rest.len() > 0 {
                let next = rest.remove(0);
                let nx = fetch(&ns, &next);
                (Stage::Resolving { ns, awaiting: next, rest, gathered: g }, nx)
            } else {
                let ghost g0 = g;
                match g.complete() {
                    Some(res) => {
                        let c = agent_config(ajob, &res);
                        let out = (Stage::Rendering(ns, res), Next::Do(Request::Render(c)));
                        assert(gathers(gathered, awaiting.name, f0, g0));
                        out
                    },
                    None => {
                        assert(gathers(gathered, awaiting.name, f0, g0));
                        out_of_order()
                    },
                }
            }
        },
    }
}

// ── Applying ────────────────────────────────────────────────

/// How many children cluster access adds: three when granted.
pub open spec fn access_slots(ajob: AgentJob) -> int {
    if ajob.spec.cluster_access_ref is Some {
        3
    } else {
        0
    }
}

/// The children of a reconcile, in the order they are applied: the
/// ConfigMap, the claim when persistent, the ServiceAccount, ClusterRole
/// and ClusterRoleBinding when granted cluster access, the workload last.
pub open spec fn children_ok(
    cs: Seq<Child>,
    ajob: AgentJob,
    r: Resolved,
    ns: Seq<char>,
    json: Seq<char>,
    hash: Seq<char>,
) -> bool {
    let p = persist_slots(ajob);
    let a = access_slots(ajob);
    &&& cs.len() == 2 + p + a
    &&& cs[0] matches Child::ConfigMap(cm) && configmap_ok(cm, ajob, ns, json)
    &&& ajob.spec.persist ==> (cs[1] matches Child::PersistentVolumeClaim(c) && pvc_ok(c, ajob, ns))
    &&& ajob.spec.cluster_access_ref is Some ==> {
        &&& cs[1 + p] matches Child::ServiceAccount(sa) && service_account_ok(sa, ajob, ns)
        &&& cs[2 + p] matches Child::ClusterRole(cr) && cluster_role_ok(cr, ajob, r)
        &&& cs[3 + p] matches Child::ClusterRoleBinding(crb) && cluster_role_binding_ok(crb, ajob, ns)
    }
    &&& match ajob.spec.schedule {
        Some(s) => cs[1 + p + a] matches Child::CronJob(cj) && cron_job_ok(cj, ajob, r, ns, s@),
        None => cs[1 + p + a] matches Child::Job(j) && job_ok(j, ajob, r, ns, hash),
    }
}

fn children(p: Plan) -> (r: (Vec<Child>, StatusUpdate, String))
    ensures
        r.0@.len() == 2 + (if p.pvc is Some { 1int } else { 0 }) + (if p.service_account is Some {
            1int
        } else {
            0
        }) + (if p.cluster_role is Some { 1int } else { 0 }) + (if p.cluster_role_binding is Some {
            1int
        } else {
            0
        }),
        r.0@[0] == Child::ConfigMap(p.config_map),
        r.1 == p.update,
        r.2 == p.event_note,
        ({
            let k = if p.pvc is Some { 1int } else { 0 };
            &&& p.pvc matches Some(c) ==> r.0@[1] == Child::PersistentVolumeClaim(c)
            &&& (p.service_account is Some && p.cluster_role is Some && p.cluster_role_binding is Some)
                ==> {
                &&& r.0@[1 + k] == Child::ServiceAccount(p.service_account->0)
                &&& r.0@[2 + k] == Child::ClusterRole(p.cluster_role->0)
                &&& r.0@[3 + k] == Child::ClusterRoleBinding(p.cluster_role_binding->0)
            }
            &&& r.0@.last() == match p.workload {
                Workload::Scheduled(cj) => Child::CronJob(cj),
                Workload::OneShot(j) => Child::Job(j),
            }
        }),
{
    let Plan {
        hash,
        config_map,
        pvc,
        service_account,
        cluster_role,
        cluster_role_binding,
        workload,
        workload_name,
        update,
        event_note,
    } = p;
    let mut cs: Vec<Child> = Vec::new();
    cs.push(Child::ConfigMap(config_map));
    match pvc {
        Some(c) => cs.push(Child::PersistentVolumeClaim(c)),
        None => {},
    }
    match service_account {
        Some(sa) => cs.push(Child::ServiceAccount(sa)),
        None => {},
    }
    match cluster_role {
        Some(cr) => cs.push(Child::ClusterRole(cr)),
        None => {},
    }
    match cluster_role_binding {
        Some(crb) => cs.push(Child::ClusterRoleBinding(crb)),
        None => {},
    }
    match workload {
        Workload::Scheduled(cj) => cs.push(Child::CronJob(cj)),
        Workload::OneShot(j) => cs.push(Child::Job(j)),
    }
    (cs, update, event_note)
}

/// After the last child, with `now` the clock's reading: report the
/// reconciled status when it says something new, then announce the
/// reconcile; a failure to build the status fails the reconcile.
pub open spec fn reports_reconciled(
    ajob: AgentJob,
    update: StatusUpdate,
    note: Seq<char>,
    now: Option<Seq<char>>,
    st: Stage,
    nx: Next,
) -> bool {
    exists|r: Result<Option<AgentJobStatus>, ReconcileError>|
        #![trigger patch_outcome(ajob, update, now, r)]
        patch_outcome(ajob, update, now, r) && match r {
            Err(e) => st is Finished && nx == Next::Fail(e),
            Ok(None) => announces_reconciled(note, st, nx),
            Ok(Some(s)) => (st matches Stage::ReportingReconciled(n) && n@ == note) && nx == Next::Do(
                Request::PatchStatus(s),
            ),
        }
}

/// The event announcing the reconcile.
pub open spec fn announces_reconciled(note: Seq<char>, st: Stage, nx: Next) -> bool {
    &&& st is AnnouncingReconciled
    &&& nx matches Next::Do(Request::Publish { warning, reason, note: n, action }) && !warning
        && reason@ == "Reconciled"@ && n@ == note && action@ == "Apply"@
}

fn announce_reconciled(note: String) -> (r: (Stage, Next))
    ensures
        announces_reconciled(note@, r.0, r.1),
{
    (
        Stage::AnnouncingReconciled,
        Next::Do(Request::Publish { warning: false, reason: "Reconciled", note, action: "Apply" }),
    )
}

fn report_reconciled(ajob: &AgentJob, update: StatusUpdate, note: String, now: &Option<String>) -> (r: (
    Stage,
    Next,
))
    ensures
        reports_reconciled(*ajob, update, note@, opt_view(*now), r.0, r.1),
{
    let ghost gu = update;
    let out = status_patch(ajob, update, copy_opt_string(now));
    let ghost gout = out;
    assert(patch_outcome(*ajob, gu, opt_view(*now), gout));
    match out {
        Err(e) => (Stage::Finished, Next::Fail(e)),
        Ok(None) => announce_reconciled(note),
        Ok(Some(s)) => (Stage::ReportingReconciled(note), Next::Do(Request::PatchStatus(s))),
    }
}

/// Apply the next child, or report once every child is applied.
pub open spec fn continues(
    ajob: AgentJob,
    rest: Seq<Child>,
    update: StatusUpdate,
    note: Seq<char>,
    now: Option<Seq<char>>,
    st: Stage,
    nx: Next,
) -> bool {
    if rest.len() > 0 {
        st matches Stage::Applying { rest: r2, update: u2, note: n2 } && r2@ == rest.drop_first()
            && u2 == update && n2@ == note && nx == Next::Do(Request::Apply(rest[0]))
    } else {
        reports_reconciled(ajob, update, note, now, st, nx)
    }
}

fn apply_next(
    ajob: &AgentJob,
    rest: Vec<Child>,
    update: StatusUpdate,
    note: String,
    now: &Option<String>,
) -> (r: (Stage, Next))
    ensures
        continues(*ajob, rest@, update, note@, opt_view(*now), r.0, r.1),
{
    let mut rest = rest;
    if rest.len() > 0 {
        let first = rest.remove(0);
        (Stage::Applying { rest, update, note }, Next::Do(Request::Apply(first)))
    } else {
        report_reconciled(ajob, update, note, now)
    }
}

/// Once rendered, with `now` the clock's reading: plan the children and
/// the status for the configuration `json`, and apply the first child; a
/// plan that needs the clock when it could not be read fails the
/// reconcile.
pub open spec fn starts_applying(
    ajob: AgentJob,
    ns: Seq<char>,
    r: Resolved,
    json: Seq<char>,
    now: Option<Seq<char>>,
    st: Stage,
    nx: Next,
) -> bool {
    if hash_changed(ajob, config_hash_view(json)) && now is None {
        st is Finished && (nx matches Next::Fail(e) && e is Clock)
    } else {
        exists|cs: Seq<Child>, u: StatusUpdate, note: Seq<char>|
            #![trigger children_ok(cs, ajob, r, ns, json, config_hash_view(json)), continues(ajob, cs, u, note, now, st, nx)]
            children_ok(cs, ajob, r, ns, json, config_hash_view(json)) && continues(
                ajob,
                cs,
                u,
                note,
                now,
                st,
                nx,
            ) && is_reconciled_update(u, ajob, config_hash_view(json), now) && note == reconciled_note(
                ajob,
                config_hash_view(json),
            )
    }
}

fn start_applying(ajob: &AgentJob, ns: String, r: &Resolved, json: String, now: &Option<String>) -> (res: (
    Stage,
    Next,
))
    ensures
        starts_applying(*ajob, ns@, *r, json@, opt_view(*now), res.0, res.1),
{
    let p = match plan(ajob, r, ns.as_str(), json.as_str(), copy_opt_string(now)) {
        Ok(p) => p,
        Err(e) => return (Stage::Finished, Next::Fail(e)),
    };
    let ghost gp = p;
    let (cs, u, note) = children(p);
    proof {
        let k = if gp.pvc is Some { 1int } else { 0 };
        assert(children_ok(cs@, *ajob, *r, ns@, json@, gp.hash@));
    }
    let ghost gcs = cs@;
    let ghost gu = u;
    let ghost gnote = note@;
    let out = apply_next(ajob, cs, u, note, now);
    assert(continues(*ajob, gcs, gu, gnote, opt_view(*now), out.0, out.1));
    assert(is_reconciled_update(gu, *ajob, config_hash_view(json@), opt_view(*now)));
    out
}

// ── The step ────────────────────────────────────────────────

/// One step of the reconcile of `ajob`, with `now` the clock's reading:
/// from `stage`, given `event`, it stands at `st` and does `nx`. See
/// `step`.
pub open spec fn steps_at(
    ajob: AgentJob,
    stage: Stage,
    event: Event,
    now: Option<Seq<char>>,
    st: Stage,
    nx: Next,
) -> bool {
    match (stage, event) {
        (Stage::Start, Event::Begin) => match ajob.metadata.namespace {
            None => st is Finished && (nx matches Next::Fail(e) && (e matches ReconcileError::InvalidSpec(m)
                && m@ == "AgentJob missing namespace"@)),
            Some(ns) => if ajob.metadata.deletion_timestamp is Some {
                begins_deletion(ajob, st, nx)
            } else {
                holds(ajob, ns@, st, nx)
            },
        },
        (Stage::CleaningUp, Event::Done) => releases(ajob, st, nx),
        (Stage::ReleasingFinalizer, Event::Done) => st is Finished && nx == Next::Finish(
            Action::AwaitChange,
        ),
        (Stage::HoldingFinalizer(ns), Event::Done) => proceeds(ajob, ns@, st, nx),
        (Stage::TearingDown, Event::Done) => reports_suspension(ajob, now, st, nx),
        (Stage::TearingDown, Event::Failed(_)) => reports_suspension(ajob, now, st, nx),
        (Stage::ReportingSuspension, Event::Done) => st is Finished && nx == Next::Finish(
            Action::Requeue(300),
        ),
        (Stage::Resolving { ns, awaiting, rest, gathered }, Event::Fetched(found)) => resolves(
            ajob,
            ns@,
            awaiting,
            rest@,
            gathered,
            found,
            now,
            st,
            nx,
        ),
        (Stage::Resolving { .. }, Event::Failed(e)) => st is Finished && nx == Next::Fail(e),
        (Stage::ReportingMissing(note), Event::Done) => announces_missing(note@, st, nx),
        (Stage::ReportingMissing(note), Event::Failed(_)) => announces_missing(note@, st, nx),
        (Stage::AnnouncingMissing, Event::Done) => st is Finished && nx == Next::Finish(
            Action::Requeue(30),
        ),
        (Stage::AnnouncingMissing, Event::Failed(_)) => st is Finished && nx == Next::Finish(
            Action::Requeue(30),
        ),
        (Stage::Rendering(ns, res), Event::Rendered(json)) => starts_applying(
            ajob,
            ns@,
            res,
            json@,
            now,
            st,
            nx,
        ),
        (Stage::Applying { rest, update, note }, Event::Done) => continues(
            ajob,
            rest@,
            update,
            note@,
            now,
            st,
            nx,
        ),
        (Stage::ReportingReconciled(note), Event::Done) => announces_reconciled(note@, st, nx),
        (Stage::AnnouncingReconciled, Event::Done) => st is Finished && nx == Next::Finish(
            Action::Requeue(300),
        ),
        (Stage::AnnouncingReconciled, Event::Failed(_)) => st is Finished && nx
            == Next::Finish(Action::Requeue(300)),
        (Stage::CleaningUp, Event::Failed(e)) => st is Finished && nx == Next::Fail(e),
        (Stage::ReleasingFinalizer, Event::Failed(e)) => st is Finished && nx == Next::Fail(e),
        (Stage::HoldingFinalizer(_), Event::Failed(e)) => st is Finished && nx == Next::Fail(e),
        (Stage::ReportingSuspension, Event::Failed(e)) => st is Finished && nx == Next::Fail(e),
        (Stage::Rendering(_, _), Event::Failed(e)) => st is Finished && nx == Next::Fail(e),
        (Stage::Applying { .. }, Event::Failed(e)) => st is Finished && nx == Next::Fail(e),
        (Stage::ReportingReconciled(_), Event::Failed(e)) => st is Finished && nx == Next::Fail(
            e,
        ),
        _ => st is Finished && (nx matches Next::Fail(e) && is_out_of_order(e)),
    }
}

/// One step of the reconcile of `ajob`, for some reading of the clock.
pub open spec fn steps_to(ajob: AgentJob, stage: Stage, event: Event, st: Stage, nx: Next) -> bool {
    exists|now: Option<Seq<char>>| #[trigger] steps_at(ajob, stage, event, now, st, nx)
}

/// What the reconcile of `ajob` does next, given where it stands and what
/// came of the last request:
/// - it begins by checking the namespace, then on deletion cleans up
///   cluster-scoped RBAC and releases the finalizer; otherwise it holds
///   the finalizer first;
/// - a suspended AgentJob has its workloads torn down and its status
///   reported, then is requeued after five minutes;
/// - a running one has its references fetched one after the other, in
///   order (the first missing one is reported and announced, then
///   retried after thirty seconds), its
///   configuration rendered, its children applied in order, its status
///   reported and the reconcile announced, then is requeued after five
///   minutes;
/// - a failed request fails the reconcile, except where its outcome is
///   ignored: tearing down, reporting a missing reference, events;
/// - an outcome that answers no request awaited fails the reconcile;
/// - where a status or run time must be recorded and the clock could not
///   be read, the reconcile fails, except that reporting a missing
///   reference then just announces it.
///
/// The clock is read once, before the step: see `step_at`.
pub fn step(ajob: &AgentJob, stage: Stage, event: Event) -> (r: (Stage, Next))
    ensures
        exists|now: Option<Seq<char>>|
            (now matches Some(t) ==> is_clock_text(t)) && #[trigger] steps_at(
                *ajob,
                stage,
                event,
                now,
                r.0,
                r.1,
            ),
        steps_to(*ajob, stage, event, r.0, r.1),
{
    let now = now_rfc3339();
    let ghost t = opt_view(now);
    let r = step_at(ajob, stage, event, now);
    assert(steps_at(*ajob, stage, event, t, r.0, r.1));
    r
}

/// The step of the reconcile of `ajob` with `now` the clock's reading:
/// see `step`.
pub fn step_at(ajob: &AgentJob, stage: Stage, event: Event, now: Option<String>) -> (r: (Stage, Next))
    ensures
        steps_at(*ajob, stage, event, opt_view(now), r.0, r.1),
{
    match (stage, event) {
        (Stage::Start, Event::Begin) => match reconcile_mode(ajob) {
            Err(e) => (Stage::Finished, Next::Fail(e)),
            Ok((_, Mode::Delete)) => begin_deletion(ajob),
            Ok((ns, _)) => hold(ajob, ns),
        },
        (Stage::CleaningUp, Event::Done) => release(ajob),
        (Stage::ReleasingFinalizer, Event::Done) => (Stage::Finished, Next::Finish(Action::AwaitChange)),
        (Stage::HoldingFinalizer(ns), Event::Done) => proceed(ajob, ns),
        (Stage::TearingDown, Event::Done) => report_suspension(ajob, &now),
        (Stage::TearingDown, Event::Failed(_)) => report_suspension(ajob, &now),
        (Stage::ReportingSuspension, Event::Done) => (Stage::Finished, Next::Finish(Action::Requeue(300))),
        (Stage::Resolving { ns, awaiting, rest, gathered }, Event::Fetched(found)) => resolve_next(
            ajob,
            ns,
            awaiting,
            rest,
            gathered,
            found,
            &now,
        ),
        (Stage::Resolving { .. }, Event::Failed(e)) => (Stage::Finished, Next::Fail(e)),
        (Stage::ReportingMissing(note), Event::Done) => announce_missing(note),
        (Stage::ReportingMissing(note), Event::Failed(_)) => announce_missing(note),
        (Stage::AnnouncingMissing, Event::Done) => (Stage::Finished, Next::Finish(Action::Requeue(30))),
        (Stage::AnnouncingMissing, Event::Failed(_)) => (Stage::Finished, Next::Finish(Action::Requeue(30))),
        (Stage::Rendering(ns, res), Event::Rendered(json)) => start_applying(ajob, ns, &res, json, &now),
        (Stage::Applying { rest, update, note }, Event::Done) => apply_next(ajob, rest, update, note, &now),
        (Stage::ReportingReconciled(note), Event::Done) => announce_reconciled(note),
        (Stage::AnnouncingReconciled, Event::Done) => (Stage::Finished, Next::Finish(Action::Requeue(300))),
        (Stage::AnnouncingReconciled, Event::Failed(_)) => (Stage::Finished, Next::Finish(Action::Requeue(300))),
        (Stage::CleaningUp, Event::Failed(e)) => (Stage::Finished, Next::Fail(e)),
        (Stage::ReleasingFinalizer, Event::Failed(e)) => (Stage::Finished, Next::Fail(e)),
        (Stage::HoldingFinalizer(_), Event::Failed(e)) => (Stage::Finished, Next::Fail(e)),
        (Stage::ReportingSuspension, Event::Failed(e)) => (Stage::Finished, Next::Fail(e)),
        (Stage::Rendering(_, _), Event::Failed(e)) => (Stage::Finished, Next::Fail(e)),
        (Stage::Applying { .. }, Event::Failed(e)) => (Stage::Finished, Next::Fail(e)),
        (Stage::ReportingReconciled(_), Event::Failed(e)) => (Stage::Finished, Next::Fail(e)),
        _ => out_of_order(),
    }
}

// ── Runs of the reconcile ───────────────────────────────────

/// `stages`, `events` and `nexts` are a run of the reconcile of `ajob`:
/// it starts at `Start`, and each step follows `steps_to`.
pub open spec fn is_run(ajob: AgentJob, stages: Seq<Stage>, events: Seq<Event>, nexts: Seq<Next>) -> bool {
    &&& stages.len() == events.len() + 1
    &&& nexts.len() == events.len()
    &&& stages[0] is Start
    &&& forall|i: int|
        #![trigger events[i]]
        0 <= i < events.len() ==> steps_to(ajob, stages[i], events[i], stages[i + 1], nexts[i])
}

/// The stages a deletion passes through.
pub open spec fn deletion_stage(st: Stage) -> bool {
    st is Start || st is CleaningUp || st is ReleasingFinalizer || st is Finished
}

/// What a deletion may ask for: the RBAC cleanup, and the finalizer list
/// without the controller's own.
pub open spec fn deletion_request(ajob: AgentJob, nx: Next) -> bool {
    nx matches Next::Do(req) ==> {
        ||| req is DeleteClusterRbac
        ||| req matches Request::PatchFinalizers(fs) && strs_view(fs@) == without_finalizer(
            finalizers_view(ajob.metadata),
        )
    }
}

proof fn lemma_deletion_step(ajob: AgentJob, stage: Stage, event: Event, st: Stage, nx: Next)
    requires
        ajob.metadata.deletion_timestamp is Some,
        deletion_stage(stage),
        steps_to(ajob, stage, event, st, nx),
    ensures
        deletion_stage(st),
        deletion_request(ajob, nx),
{
}

/// A deleted AgentJob is only cleaned up and released: no run of its
/// reconcile applies, resolves, tears down, renders, reports or announces
/// anything, and the only finalizer list it writes is its own without the
/// controller's finalizer.
pub proof fn lemma_deletion_only_cleans_up(
    ajob: AgentJob,
    stages: Seq<Stage>,
    events: Seq<Event>,
    nexts: Seq<Next>,
)
    requires
        ajob.metadata.deletion_timestamp is Some,
        is_run(ajob, stages, events, nexts),
    ensures
        forall|i: int| 0 <= i < stages.len() ==> deletion_stage(#[trigger] stages[i]),
        forall|i: int| 0 <= i < nexts.len() ==> deletion_request(ajob, #[trigger] nexts[i]),
{
    lemma_deletion_prefix(ajob, stages, events, nexts, events.len() as int);
    assert forall|i: int| 0 <= i < nexts.len() implies deletion_request(ajob, #[trigger] nexts[i]) by {
        assert(steps_to(ajob, stages[i], events[i], stages[i + 1], nexts[i]));
        lemma_deletion_step(ajob, stages[i], events[i], stages[i + 1], nexts[i]);
    }
}

proof fn lemma_deletion_prefix(
    ajob: AgentJob,
    stages: Seq<Stage>,
    events: Seq<Event>,
    nexts: Seq<Next>,
    k: int,
)
    requires
        ajob.metadata.deletion_timestamp is Some,
        is_run(ajob, stages, events, nexts),
        0 <= k <= events.len(),
    ensures
        forall|i: int| 0 <= i <= k ==> deletion_stage(#[trigger] stages[i]),
    decreases k,
{
    if k > 0 {
        lemma_deletion_prefix(ajob, stages, events, nexts, k - 1);
        assert(steps_to(ajob, stages[k - 1], events[k - 1], stages[k], nexts[k - 1]));
        lemma_deletion_step(ajob, stages[k - 1], events[k - 1], stages[k], nexts[k - 1]);
    }
}

/// On deletion the finalizer is released only once the cluster-scoped
/// RBAC is gone: the release follows a successful cleanup, or the
/// AgentJob has no uid to select RBAC by.
pub proof fn lemma_release_follows_cleanup(ajob: AgentJob, stage: Stage, event: Event, st: Stage, nx: Next)
    requires
        ajob.metadata.deletion_timestamp is Some,
        steps_to(ajob, stage, event, st, nx),
        st is ReleasingFinalizer,
    ensures
        (stage is CleaningUp && event is Done) || (stage is Start && ajob.metadata.uid is None),
{
}

/// The stages that come after the finalizer is held.
pub open spec fn working(st: Stage) -> bool {
    ||| st is TearingDown
    ||| st is ReportingSuspension
    ||| st is Resolving
    ||| st is ReportingMissing
    ||| st is AnnouncingMissing
    ||| st is Rendering
    ||| st is Applying
    ||| st is ReportingReconciled
    ||| st is AnnouncingReconciled
}

proof fn lemma_working_step(ajob: AgentJob, stage: Stage, event: Event, st: Stage, nx: Next)
    requires
        steps_to(ajob, stage, event, st, nx),
        working(st),
    ensures
        working(stage) || (stage is HoldingFinalizer && event is Done) || (stage is Start
            && finalizers_view(ajob.metadata).contains(FINALIZER@)),
{
}

/// The requests that do the work of a reconcile: all but the RBAC
/// cleanup and the finalizer patches.
pub open spec fn is_work(req: Request) -> bool {
    ||| req is Fetch
    ||| req is Render
    ||| req is Apply
    ||| req is TearDown
    ||| req is PatchStatus
    ||| req is Publish
}

proof fn lemma_work_request_step(ajob: AgentJob, stage: Stage, event: Event, st: Stage, nx: Next)
    requires
        steps_to(ajob, stage, event, st, nx),
        nx matches Next::Do(req) && is_work(req),
    ensures
        working(st),
{
}

/// The finalizer is held before any work: in every run, the AgentJob's
/// references are fetched, its configuration rendered, its children
/// applied, its workloads torn down, its status written and events
/// published only when it already carried the controller's finalizer or a
/// request adding it succeeded before.
pub proof fn lemma_finalizer_held_before_work(
    ajob: AgentJob,
    stages: Seq<Stage>,
    events: Seq<Event>,
    nexts: Seq<Next>,
    i: int,
)
    requires
        is_run(ajob, stages, events, nexts),
        0 <= i < nexts.len(),
        nexts[i] matches Next::Do(req) && is_work(req),
    ensures
        finalizers_view(ajob.metadata).contains(FINALIZER@) || exists|j: int|
            0 <= j <= i && #[trigger] stages[j] is HoldingFinalizer && events[j] is Done,
{
    assert(steps_to(ajob, stages[i], events[i], stages[i + 1], nexts[i]));
    lemma_work_request_step(ajob, stages[i], events[i], stages[i + 1], nexts[i]);
    lemma_held_prefix(ajob, stages, events, nexts, i + 1);
}

proof fn lemma_held_prefix(
    ajob: AgentJob,
    stages: Seq<Stage>,
    events: Seq<Event>,
    nexts: Seq<Next>,
    k: int,
)
    requires
        is_run(ajob, stages, events, nexts),
        0 <= k <= events.len(),
        working(stages[k]),
    ensures
        finalizers_view(ajob.metadata).contains(FINALIZER@) || exists|j: int|
            0 <= j < k && #[trigger] stages[j] is HoldingFinalizer && events[j] is Done,
    decreases k,
{
    if k > 0 {
        assert(steps_to(ajob, stages[k - 1], events[k - 1], stages[k], nexts[k - 1]));
        lemma_working_step(ajob, stages[k - 1], events[k - 1], stages[k], nexts[k - 1]);
        if working(stages[k - 1]) {
            lemma_held_prefix(ajob, stages, events, nexts, k - 1);
        } else if stages[k - 1] is HoldingFinalizer {
            assert(stages[k - 1] is HoldingFinalizer && events[k - 1] is Done);
        }
    }
}

// ── Resolution follows the references ───────────────────────

/// Resolution is on track: a stage awaiting a fetch works in the
/// AgentJob's namespace, awaits one of its references, and has the
/// references after that one still to fetch, in order.
pub open spec fn on_track(ajob: AgentJob, st: Stage) -> bool {
    match st {
        Stage::HoldingFinalizer(ns) => ajob.metadata.namespace matches Some(n) && ns@ == n@,
        Stage::Resolving { ns, awaiting, rest, .. } => {
            &&& ajob.metadata.namespace matches Some(n) && ns@ == n@
            &&& exists|k: int| awaits_reference(ajob, awaiting, rest@, k)
        },
        _ => true,
    }
}

/// `awaiting` is the `k`-th reference of the AgentJob, and `rest` the
/// references after it.
pub open spec fn awaits_reference(ajob: AgentJob, awaiting: Lookup, rest: Seq<Lookup>, k: int) -> bool {
    &&& 0 <= k < references(ajob).len()
    &&& lookup_view(awaiting) == references(ajob)[k]
    &&& lookups_view(rest) == references(ajob).skip(k + 1)
}

proof fn lemma_on_track_step(ajob: AgentJob, stage: Stage, event: Event, st: Stage, nx: Next)
    requires
        steps_to(ajob, stage, event, st, nx),
        on_track(ajob, stage),
    ensures
        on_track(ajob, st),
        st matches Stage::Resolving { awaiting, rest, .. } ==> {
            ||| stage is Start || stage is HoldingFinalizer
            ||| stage matches Stage::Resolving { awaiting: a0, rest: r0, .. } && (event matches Event::Fetched(
                Some(f),
            ) && found_kind(f) == a0.kind) && r0.len() > 0 && awaiting == r0@[0] && rest@
                == r0@.drop_first()
        },
        (st is Resolving && (stage is Start || stage is HoldingFinalizer)) ==> (st matches Stage::Resolving {
            awaiting,
            rest,
            ..
        } && awaits_reference(ajob, awaiting, rest@, 0)),
{
    let refs = references(ajob);
    match st {
        Stage::Resolving { awaiting, rest, .. } => match stage {
            Stage::Resolving { awaiting: a0, rest: r0, .. } => {
                let k = choose|k: int| awaits_reference(ajob, a0, r0@, k);
                assert(r0@.len() > 0);
                assert(lookups_view(r0@).len() == r0@.len());
                assert(lookups_view(r0@)[0] == lookup_view(r0@[0]));
                assert(refs.skip(k + 1)[0] == refs[k + 1]);
                assert(lookups_view(rest@) =~= lookups_view(r0@).drop_first());
                assert(refs.skip(k + 1).drop_first() =~= refs.skip(k + 2));
                assert(awaits_reference(ajob, awaiting, rest@, k + 1));
            },
            _ => {
                assert(refs.skip(1) =~= refs.drop_first());
                assert(awaits_reference(ajob, awaiting, rest@, 0));
            },
        },
        _ => {},
    }
}

proof fn lemma_on_track_prefix(
    ajob: AgentJob,
    stages: Seq<Stage>,
    events: Seq<Event>,
    nexts: Seq<Next>,
    k: int,
)
    requires
        is_run(ajob, stages, events, nexts),
        0 <= k <= events.len(),
    ensures
        on_track(ajob, stages[k]),
    decreases k,
{
    if k > 0 {
        lemma_on_track_prefix(ajob, stages, events, nexts, k - 1);
        assert(steps_to(ajob, stages[k - 1], events[k - 1], stages[k], nexts[k - 1]));
        lemma_on_track_step(ajob, stages[k - 1], events[k - 1], stages[k], nexts[k - 1]);
    }
}

proof fn lemma_fetch_step(ajob: AgentJob, stage: Stage, event: Event, st: Stage, nx: Next)
    requires
        steps_to(ajob, stage, event, st, nx),
        nx matches Next::Do(req) && req is Fetch,
    ensures
        st matches Stage::Resolving { ns, awaiting, .. } && fetches(ns@, awaiting, nx),
{
}

/// Resolution fetches the references one after the other, in order: in
/// every run, each fetch asks, in the AgentJob's namespace, for one of its
/// references, the `k`-th, with those after it still to come; and unless
/// it is the first, it follows the finding of the `k - 1`-th.
pub proof fn lemma_fetches_follow_references(
    ajob: AgentJob,
    stages: Seq<Stage>,
    events: Seq<Event>,
    nexts: Seq<Next>,
    i: int,
)
    requires
        is_run(ajob, stages, events, nexts),
        0 <= i < nexts.len(),
        nexts[i] matches Next::Do(req) && req is Fetch,
    ensures
        nexts[i] matches Next::Do(Request::Fetch { kind, name, namespace }) && (ajob.metadata.namespace matches Some(
            n,
        ) && namespace@ == n@) && exists|k: int|
            {
                &&& 0 <= k < references(ajob).len()
                &&& references(ajob)[k] == (kind, name@)
                &&& stages[i + 1] matches Stage::Resolving { rest, .. } && lookups_view(rest@)
                    == references(ajob).skip(k + 1)
                &&& k == 0 || (events[i] matches Event::Fetched(Some(f)) && found_kind(f)
                    == references(ajob)[k - 1].0)
            },
{
    let refs = references(ajob);
    lemma_on_track_prefix(ajob, stages, events, nexts, i);
    assert(steps_to(ajob, stages[i], events[i], stages[i + 1], nexts[i]));
    lemma_on_track_step(ajob, stages[i], events[i], stages[i + 1], nexts[i]);
    lemma_fetch_step(ajob, stages[i], events[i], stages[i + 1], nexts[i]);
    match stages[i + 1] {
        Stage::Resolving { awaiting, rest, .. } => {
            let k = choose|k: int| awaits_reference(ajob, awaiting, rest@, k);
            assert(lookups_view(rest@).len() == rest@.len());
            match stages[i] {
                Stage::Resolving { awaiting: a0, rest: r0, .. } => {
                    let k0 = choose|k: int| awaits_reference(ajob, a0, r0@, k);
                    assert(lookups_view(r0@).len() == r0@.len());
                    assert(k0 == k - 1);
                },
                _ => {},
            }
        },
        _ => {},
    }
}

// ── Every reconcile ends ────────────────────────────────────

/// How far a stage is from the end of the reconcile of `ajob`: every
/// request lowers it. A stage awaiting a fetch counts the fetches still to
/// come, one applying children the children still to apply; the start
/// and the finalizer's addition count every reference of the AgentJob.
pub open spec fn rank(ajob: AgentJob, st: Stage) -> nat {
    let refs = references(ajob).len();
    match st {
        Stage::Start => 11 + refs,
        Stage::HoldingFinalizer(_) => 10 + refs,
        Stage::Resolving { rest, .. } => 10 + rest@.len(),
        Stage::Rendering(_, _) => 9,
        Stage::Applying { rest, .. } => 3 + rest@.len(),
        Stage::CleaningUp => 2,
        Stage::TearingDown => 2,
        Stage::ReportingMissing(_) => 2,
        Stage::ReportingReconciled(_) => 2,
        Stage::ReleasingFinalizer => 1,
        Stage::ReportingSuspension => 1,
        Stage::AnnouncingMissing => 1,
        Stage::AnnouncingReconciled => 1,
        Stage::Finished => 0,
    }
}

/// A step that asks for something lowers the rank; any other step
/// finishes the reconcile.
pub proof fn lemma_step_lowers_rank(ajob: AgentJob, stage: Stage, event: Event, st: Stage, nx: Next)
    requires
        steps_to(ajob, stage, event, st, nx),
    ensures
        nx is Do ==> rank(ajob, st) < rank(ajob, stage),
        !(nx is Do) ==> st is Finished,
{
    let now = choose|now: Option<Seq<char>>| steps_at(ajob, stage, event, now, st, nx);
    let refs = references(ajob);
    match st {
        Stage::Resolving { rest, .. } => {
            assert(lookups_view(rest@).len() == rest@.len());
        },
        Stage::Applying { rest, .. } => {
            if stage is Rendering {
                let json = match event {
                    Event::Rendered(j) => j@,
                    _ => Seq::empty(),
                };
                let (ns, res) = match stage {
                    Stage::Rendering(n, r) => (n@, r),
                    _ => (Seq::empty(), arbitrary()),
                };
                let (cs, u, note) = choose|cs: Seq<Child>, u: StatusUpdate, note: Seq<char>|
                    children_ok(cs, ajob, res, ns, json, config_hash_view(json)) && continues(
                        ajob,
                        cs,
                        u,
                        note,
                        now,
                        st,
                        nx,
                    ) && is_reconciled_update(u, ajob, config_hash_view(json), now) && note
                        == reconciled_note(ajob, config_hash_view(json));
                assert(cs.len() <= 6);
            }
        },
        _ => {},
    }
}

proof fn lemma_rank_along_run(
    ajob: AgentJob,
    stages: Seq<Stage>,
    events: Seq<Event>,
    nexts: Seq<Next>,
    k: int,
)
    requires
        is_run(ajob, stages, events, nexts),
        0 <= k <= events.len(),
        forall|i: int| 0 <= i < nexts.len() ==> #[trigger] nexts[i] is Do,
    ensures
        rank(ajob, stages[k]) + k <= rank(ajob, Stage::Start),
    decreases k,
{
    if k > 0 {
        lemma_rank_along_run(ajob, stages, events, nexts, k - 1);
        assert(steps_to(ajob, stages[k - 1], events[k - 1], stages[k], nexts[k - 1]));
        assert(nexts[k - 1] is Do);
        lemma_step_lowers_rank(ajob, stages[k - 1], events[k - 1], stages[k], nexts[k - 1]);
    }
}

/// Every reconcile ends: a run in which every step asked for something
/// has at most `11 + n` steps, `n` the number of the AgentJob's
/// references; so performing the requests one after the other reaches a
/// step that finishes or fails the reconcile.
pub proof fn lemma_runs_end(ajob: AgentJob, stages: Seq<Stage>, events: Seq<Event>, nexts: Seq<Next>)
    requires
        is_run(ajob, stages, events, nexts),
        forall|i: int| 0 <= i < nexts.len() ==> #[trigger] nexts[i] is Do,
    ensures
        nexts.len() <= 11 + references(ajob).len(),
{
    lemma_rank_along_run(ajob, stages, events, nexts, events.len() as int);
}

} // verus!
