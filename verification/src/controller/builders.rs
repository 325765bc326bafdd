//! Builders for the child resources owned by an AgentJob: their names,
//! labels, metadata and contents.

use vstd::prelude::*;
use vstd::string::StringSliceAdditionalSpecFns;
use crate::controller::{LABEL_AGENTJOB, LABEL_AGENTJOB_NS, LABEL_MANAGED_BY, LABEL_OWNER_UID};
use crate::crd::agent_job::AgentJob;
use crate::crd::definition::API_VERSION;
use crate::controller::resolve::Resolved;
use crate::k8s::batch::{CronJob, CronJobSpec, Job, JobSpec, JobTemplateSpec};
use crate::k8s::env::{EnvVar, EnvVarSource, KeySelector, ResourceRequirements};
use crate::k8s::meta::{
    copy_strings, duplicate_all, key_lt, lemma_name_any_prefers_name, key_lt_at, keys_increasing, lookup_entries, opt_view,
    ObjectMeta, OwnerReference, StringMap,
};
use crate::k8s::pod::{
    Capabilities, ConfigMap, ConfigMapVolumeSource, Container, PersistentVolumeClaim,
    PersistentVolumeClaimSpec, PersistentVolumeClaimVolumeSource, PodSecurityContext, PodSpec,
    PodTemplateSpec, SeccompProfile, SecurityContext, ServiceAccount, Volume, VolumeMount,
    VolumeResourceRequirements,
};
use crate::k8s::rbac::{duplicate_rules, same_rules, ClusterRole, ClusterRoleBinding, RoleRef, Subject};

verus! {

/// User and group the agent runs as.
pub const POD_USER: i64 = 65532;

/// Writable home directory of the agent.
pub const AGENT_HOME: &'static str = "/home/agent";

// ── Names ───────────────────────────────────────────────────

/// `name` followed by `suffix`.
fn suffixed(name: String, suffix: &str) -> (s: String)
    ensures
        s@ == name@ + suffix@,
{
    let mut s = name;
    s.append(suffix);
    s
}

/// The name of the AgentJob, as the children's names start with it.
pub open spec fn base_name(ajob: AgentJob) -> Seq<char> {
    ajob.metadata.name_any_view()
}

/// Name of the ConfigMap holding the agent configuration.
pub open spec fn config_name_view(ajob: AgentJob) -> Seq<char> {
    base_name(ajob) + "-config"@
}

/// Name of the ConfigMap holding the agent configuration.
pub fn config_name(ajob: &AgentJob) -> (s: String)
    ensures
        s@ == config_name_view(*ajob),
{
    suffixed(ajob.metadata.name_any(), "-config")
}

/// Name of the ServiceAccount the agent runs as.
pub open spec fn runner_name_view(ajob: AgentJob) -> Seq<char> {
    base_name(ajob) + "-runner"@
}

/// Name of the ServiceAccount the agent runs as.
pub fn runner_name(ajob: &AgentJob) -> (s: String)
    ensures
        s@ == runner_name_view(*ajob),
{
    suffixed(ajob.metadata.name_any(), "-runner")
}

/// Name of the persistent volume claim.
pub open spec fn pvc_name_view(ajob: AgentJob) -> Seq<char> {
    base_name(ajob) + "-data"@
}

/// Name of the persistent volume claim.
pub fn pvc_name(ajob: &AgentJob) -> (s: String)
    ensures
        s@ == pvc_name_view(*ajob),
{
    suffixed(ajob.metadata.name_any(), "-data")
}

/// Name of the CronJob: the AgentJob's own.
pub fn cron_name(ajob: &AgentJob) -> (s: String)
    ensures
        s@ == base_name(*ajob),
{
    ajob.metadata.name_any()
}

/// Name of the one-shot Job for configuration `hash`.
pub open spec fn job_name_view(ajob: AgentJob, hash: Seq<char>) -> Seq<char> {
    base_name(ajob) + "-"@ + hash
}

/// Name of the one-shot Job for configuration `hash`.
pub fn job_name(ajob: &AgentJob, hash: &str) -> (s: String)
    ensures
        s@ == job_name_view(*ajob, hash@),
{
    suffixed(suffixed(ajob.metadata.name_any(), "-"), hash)
}

/// The namespace of the AgentJob, `default` when unset.
pub open spec fn namespace_or_default(ajob: AgentJob) -> Seq<char> {
    match ajob.metadata.namespace {
        Some(ns) => ns@,
        None => "default"@,
    }
}

/// Name of the cluster-scoped ClusterRole and ClusterRoleBinding.
pub open spec fn cluster_rbac_name_view(ajob: AgentJob) -> Seq<char> {
    "thurkube-"@ + namespace_or_default(ajob) + "-"@ + base_name(ajob)
}

/// Name of the cluster-scoped ClusterRole and ClusterRoleBinding.
pub fn cluster_rbac_name(ajob: &AgentJob) -> (s: String)
    ensures
        s@ == cluster_rbac_name_view(*ajob),
{
    let mut s = "thurkube-".to_owned();
    match &ajob.metadata.namespace {
        Some(ns) => s.append(ns.as_str()),
        None => s.append("default"),
    }
    s.append("-");
    let name = ajob.metadata.name_any();
    s.append(name.as_str());
    s
}

/// Label selector matching the children of the AgentJob with this uid.
pub open spec fn owner_selector_view(uid: Seq<char>) -> Seq<char> {
    LABEL_OWNER_UID@ + "="@ + uid
}

/// Label selector matching every child labelled with the AgentJob's uid;
/// none when the AgentJob has no uid.
pub fn owner_label_selector(ajob: &AgentJob) -> (r: Option<String>)
    ensures
        opt_view(r) == match ajob.metadata.uid {
            Some(u) => Some(owner_selector_view(u@)),
            None => None,
        },
{
    match &ajob.metadata.uid {
        Some(uid) => {
            let s = suffixed(suffixed(LABEL_OWNER_UID.to_owned(), "="), uid.as_str());
            Some(s)
        },
        None => None,
    }
}

// ── Labels and metadata ─────────────────────────────────────

/// The labels of every child, in key order: the manager, the AgentJob's
/// name, its namespace when set, its uid when set.
pub open spec fn labels_view(ajob: AgentJob) -> Seq<(Seq<char>, Seq<char>)> {
    let base = seq![(LABEL_MANAGED_BY@, "thurkube"@), (LABEL_AGENTJOB@, base_name(ajob))];
    let with_ns = match ajob.metadata.namespace {
        Some(ns) => base.push((LABEL_AGENTJOB_NS@, ns@)),
        None => base,
    };
    match ajob.metadata.uid {
        Some(uid) => with_ns.push((LABEL_OWNER_UID@, uid@)),
        None => with_ns,
    }
}

/// The labels of every child.
pub fn labels(ajob: &AgentJob) -> (m: StringMap)
    ensures
        m.entries_view() == labels_view(*ajob),
        m.wf(),
{
    let mut entries: Vec<(String, String)> = Vec::new();
    entries.push((LABEL_MANAGED_BY.to_owned(), "thurkube".to_owned()));
    entries.push((LABEL_AGENTJOB.to_owned(), ajob.metadata.name_any()));
    match &ajob.metadata.namespace {
        Some(ns) => entries.push((LABEL_AGENTJOB_NS.to_owned(), ns.clone())),
        None => {},
    }
    match &ajob.metadata.uid {
        Some(uid) => entries.push((LABEL_OWNER_UID.to_owned(), uid.clone())),
        None => {},
    }
    let m = StringMap { entries };
    assert(m.entries_view() =~= labels_view(*ajob));
    proof {
        lemma_label_keys_increasing(*ajob);
    }
    m
}

/// The label keys in the order the labels hold them sort strictly
/// increasing.
pub proof fn lemma_label_keys_increasing(ajob: AgentJob)
    ensures
        keys_increasing(labels_view(ajob)),
{
    reveal_strlit("app.kubernetes.io/managed-by");
    reveal_strlit("thurkube.thurbeen.eu/agentjob");
    reveal_strlit("thurkube.thurbeen.eu/agentjob-namespace");
    reveal_strlit("thurkube.thurbeen.eu/owner-uid");
    let mb = LABEL_MANAGED_BY@;
    let aj = LABEL_AGENTJOB@;
    let ns = LABEL_AGENTJOB_NS@;
    let uid = LABEL_OWNER_UID@;
    assert(mb.take(0) =~= aj.take(0) && mb.take(0) =~= ns.take(0) && mb.take(0) =~= uid.take(0));
    assert(key_lt_at(mb, aj, 0));
    assert(key_lt_at(mb, ns, 0));
    assert(key_lt_at(mb, uid, 0));
    assert(aj.take(29) =~= ns.take(29));
    assert(key_lt_at(aj, ns, 29));
    assert(aj.take(21) =~= uid.take(21));
    assert(key_lt_at(aj, uid, 21));
    assert(ns.take(21) =~= uid.take(21));
    assert(key_lt_at(ns, uid, 21));
    let kv = labels_view(ajob);
    assert forall|i: int, j: int| 0 <= i < j < kv.len() implies #[trigger] key_lt(kv[i].0, kv[j].0) by {
        assert(kv[0].0 == mb && kv[1].0 == aj);
        if kv.len() > 2 {
            assert(kv[2].0 == ns || kv[2].0 == uid);
            if kv[2].0 == uid {
                assert(kv.len() == 3);
            }
        }
        if kv.len() > 3 {
            assert(kv[2].0 == ns && kv[3].0 == uid);
        }
    }
}

/// `o` names the AgentJob as the controlling owner of a child.
pub open spec fn is_owner_ref(o: OwnerReference, ajob: AgentJob) -> bool {
    &&& o.api_version@ == API_VERSION@
    &&& o.kind@ == "AgentJob"@
    &&& ajob.metadata.name matches Some(n) && o.name@ == n@
    &&& ajob.metadata.uid matches Some(u) && o.uid@ == u@
    &&& o.controller == Some(true)
    &&& o.block_owner_deletion == Some(true)
}

/// The reference from a child to the AgentJob; none unless the AgentJob
/// has both a name and a uid.
fn owner_ref(ajob: &AgentJob) -> (r: Option<OwnerReference>)
    ensures
        r is Some <==> (ajob.metadata.name is Some && ajob.metadata.uid is Some),
        r matches Some(o) ==> is_owner_ref(o, *ajob),
{
    let name = match &ajob.metadata.name {
        Some(n) => n.clone(),
        None => {
            return None;
        },
    };
    let uid = match &ajob.metadata.uid {
        Some(u) => u.clone(),
        None => {
            return None;
        },
    };
    Some(
        OwnerReference {
            api_version: API_VERSION.to_owned(),
            kind: "AgentJob".to_owned(),
            name,
            uid,
            controller: Some(true),
            block_owner_deletion: Some(true),
        },
    )
}

/// The metadata fields that builders leave unset.
pub open spec fn rest_unset(m: ObjectMeta) -> bool {
    &&& m.generate_name is None
    &&& m.uid is None
    &&& m.generation is None
    &&& m.finalizers is None
    &&& m.deletion_timestamp is None
}

/// `m` carries the AgentJob's labels.
pub open spec fn has_labels(m: ObjectMeta, ajob: AgentJob) -> bool {
    m.labels matches Some(l) && l.entries_view() == labels_view(ajob) && l.wf()
}

/// Metadata of a namespaced child: its name and namespace, the labels, and
/// the AgentJob as owner when it can be named.
pub open spec fn is_namespaced_meta(
    m: ObjectMeta,
    name: Seq<char>,
    namespace: Seq<char>,
    ajob: AgentJob,
) -> bool {
    &&& opt_view(m.name) == Some(name)
    &&& opt_view(m.namespace) == Some(namespace)
    &&& has_labels(m, ajob)
    &&& rest_unset(m)
    &&& if ajob.metadata.name is Some && ajob.metadata.uid is Some {
        m.owner_references matches Some(os) && os@.len() == 1 && is_owner_ref(os@[0], ajob)
    } else {
        m.owner_references is None
    }
}

/// Metadata of a cluster-scoped child: its name and the labels; no
/// namespace and no owner, which a cluster-scoped object cannot have.
pub open spec fn is_cluster_meta(m: ObjectMeta, name: Seq<char>, ajob: AgentJob) -> bool {
    &&& opt_view(m.name) == Some(name)
    &&& m.namespace is None
    &&& has_labels(m, ajob)
    &&& rest_unset(m)
    &&& m.owner_references is None
}

fn namespaced_meta(name: String, namespace: &str, ajob: &AgentJob) -> (m: ObjectMeta)
    ensures
        is_namespaced_meta(m, name@, namespace@, *ajob),
{
    let owner_references = match owner_ref(ajob) {
        Some(o) => {
            let mut v: Vec<OwnerReference> = Vec::new();
            v.push(o);
            Some(v)
        },
        None => None,
    };
    let mut m = ObjectMeta::empty();
    m.name = Some(name);
    m.namespace = Some(namespace.to_owned());
    m.labels = Some(labels(ajob));
    m.owner_references = owner_references;
    m
}

fn cluster_meta(name: String, ajob: &AgentJob) -> (m: ObjectMeta)
    ensures
        is_cluster_meta(m, name@, *ajob),
{
    let mut m = ObjectMeta::empty();
    m.name = Some(name);
    m.labels = Some(labels(ajob));
    m
}

// ── Namespaced children ─────────────────────────────────────

/// A map with the one entry `key` → `value`.
fn single_entry(key: &str, value: String) -> (m: StringMap)
    ensures
        m.entries_view() == seq![(key@, value@)],
        m.wf(),
{
    let mut entries: Vec<(String, String)> = Vec::new();
    entries.push((key.to_owned(), value));
    let m = StringMap { entries };
    assert(m.entries_view() =~= seq![(key@, value@)]);
    m
}

/// The ConfigMap holding the agent configuration under `agent.json`.
pub open spec fn configmap_ok(cm: ConfigMap, ajob: AgentJob, namespace: Seq<char>, agent_json: Seq<char>) -> bool {
    &&& is_namespaced_meta(cm.metadata, config_name_view(ajob), namespace, ajob)
    &&& cm.data matches Some(d) && d.entries_view() == seq![("agent.json"@, agent_json)] && d.wf()
}

/// The ConfigMap holding the agent configuration under `agent.json`.
pub fn configmap(ajob: &AgentJob, namespace: &str, agent_json: &str) -> (cm: ConfigMap)
    ensures
        configmap_ok(cm, *ajob, namespace@, agent_json@),
{
    ConfigMap {
        metadata: namespaced_meta(config_name(ajob), namespace, ajob),
        data: Some(single_entry("agent.json", agent_json.to_owned())),
    }
}

/// The persistent volume claim: one gibibyte, read-write by one node.
pub open spec fn pvc_ok(c: PersistentVolumeClaim, ajob: AgentJob, namespace: Seq<char>) -> bool {
    &&& is_namespaced_meta(c.metadata, pvc_name_view(ajob), namespace, ajob)
    &&& c.spec matches Some(spec) && {
        &&& spec.access_modes matches Some(m) && m@.len() == 1 && m@[0]@ == "ReadWriteOnce"@
        &&& spec.resources matches Some(res) && res.requests matches Some(req)
            && req.entries_view() == seq![("storage"@, "1Gi"@)] && req.wf()
    }
}

/// The persistent volume claim: one gibibyte, read-write by one node.
pub fn pvc(ajob: &AgentJob, namespace: &str) -> (c: PersistentVolumeClaim)
    ensures
        pvc_ok(c, *ajob, namespace@),
{
    let mut access_modes: Vec<String> = Vec::new();
    access_modes.push("ReadWriteOnce".to_owned());
    PersistentVolumeClaim {
        metadata: namespaced_meta(pvc_name(ajob), namespace, ajob),
        spec: Some(
            PersistentVolumeClaimSpec {
                access_modes: Some(access_modes),
                resources: Some(
                    VolumeResourceRequirements {
                        requests: Some(single_entry("storage", "1Gi".to_owned())),
                    },
                ),
            },
        ),
    }
}

/// The ServiceAccount the agent runs as when it has cluster access; its
/// token is mounted.
pub open spec fn service_account_ok(sa: ServiceAccount, ajob: AgentJob, namespace: Seq<char>) -> bool {
    &&& is_namespaced_meta(sa.metadata, runner_name_view(ajob), namespace, ajob)
    &&& sa.automount_service_account_token == Some(true)
}

/// The ServiceAccount the agent runs as when it has cluster access.
pub fn service_account(ajob: &AgentJob, namespace: &str) -> (sa: ServiceAccount)
    ensures
        service_account_ok(sa, *ajob, namespace@),
{
    ServiceAccount {
        metadata: namespaced_meta(runner_name(ajob), namespace, ajob),
        automount_service_account_token: Some(true),
    }
}

// ── Cluster-scoped children ─────────────────────────────────

/// The ClusterRole granting the rules of the referenced ClusterAccess;
/// no rules when none is referenced.
pub open spec fn cluster_role_ok(cr: ClusterRole, ajob: AgentJob, r: Resolved) -> bool {
    &&& is_cluster_meta(cr.metadata, cluster_rbac_name_view(ajob), ajob)
    &&& cr.rules is Some <==> r.cluster_access is Some
    &&& cr.rules matches Some(rules) ==> same_rules(rules@, r.cluster_access->0.spec.rules@)
}

/// The ClusterRole granting the rules of the referenced ClusterAccess.
pub fn cluster_role(ajob: &AgentJob, r: &Resolved) -> (cr: ClusterRole)
    ensures
        cluster_role_ok(cr, *ajob, *r),
{
    let rules = match &r.cluster_access {
        Some(ca) => Some(duplicate_rules(&ca.spec.rules)),
        None => None,
    };
    ClusterRole { metadata: cluster_meta(cluster_rbac_name(ajob), ajob), rules }
}

/// The ClusterRoleBinding granting the ClusterRole to the runner
/// ServiceAccount in `namespace`.
pub open spec fn cluster_role_binding_ok(crb: ClusterRoleBinding, ajob: AgentJob, namespace: Seq<char>) -> bool {
    &&& is_cluster_meta(crb.metadata, cluster_rbac_name_view(ajob), ajob)
    &&& crb.role_ref.api_group@ == "rbac.authorization.k8s.io"@
    &&& crb.role_ref.kind@ == "ClusterRole"@
    &&& crb.role_ref.name@ == cluster_rbac_name_view(ajob)
    &&& crb.subjects matches Some(subjects) && subjects@.len() == 1 && {
        let s = subjects@[0];
        &&& s.kind@ == "ServiceAccount"@
        &&& s.name@ == runner_name_view(ajob)
        &&& opt_view(s.namespace) == Some(namespace)
        &&& s.api_group is None
    }
}

/// The ClusterRoleBinding granting the ClusterRole to the runner
/// ServiceAccount in `namespace`.
pub fn cluster_role_binding(ajob: &AgentJob, namespace: &str) -> (crb: ClusterRoleBinding)
    ensures
        cluster_role_binding_ok(crb, *ajob, namespace@),
{
    let name = cluster_rbac_name(ajob);
    let mut subjects: Vec<Subject> = Vec::new();
    subjects.push(
        Subject {
            api_group: None,
            kind: "ServiceAccount".to_owned(),
            name: runner_name(ajob),
            namespace: Some(namespace.to_owned()),
        },
    );
    ClusterRoleBinding {
        metadata: cluster_meta(name.clone(), ajob),
        role_ref: RoleRef {
            api_group: "rbac.authorization.k8s.io".to_owned(),
            kind: "ClusterRole".to_owned(),
            name,
        },
        subjects: Some(subjects),
    }
}

// ── Pod template ────────────────────────────────────────────

/// `e` injects the auth token from the referenced Secret key under the
/// runtime's variable name.
pub open spec fn is_auth_env(e: EnvVar, r: Resolved) -> bool {
    &&& e.name@ == r.runtime.spec.auth_env_var@
    &&& e.value is None
    &&& e.value_from matches Some(src) && {
        &&& src.config_map_key_ref is None
        &&& src.field_ref is None
        &&& src.file_key_ref is None
        &&& src.resource_field_ref is None
        &&& src.secret_key_ref matches Some(k) && k.name@ == r.auth.spec.secret_ref.name@ && k.key@
            == r.auth.spec.secret_ref.key@ && k.optional == Some(false)
    }
}

/// `e` points `HOME` at the writable home directory.
pub open spec fn is_home_env(e: EnvVar) -> bool {
    &&& e.name@ == "HOME"@
    &&& e.value matches Some(v) && v@ == AGENT_HOME@
    &&& e.value_from is None
}

/// The agent's environment: the AgentJob's own variables, then the auth
/// token, then `HOME`.
pub open spec fn agent_env_ok(env: Seq<EnvVar>, ajob: AgentJob, r: Resolved) -> bool {
    let n = ajob.spec.env@.len();
    &&& env.len() == n + 2
    &&& env.subrange(0, n as int) == ajob.spec.env@
    &&& is_auth_env(env[n as int], r)
    &&& is_home_env(env[n as int + 1])
}

fn agent_env(ajob: &AgentJob, r: &Resolved) -> (env: Vec<EnvVar>)
    ensures
        agent_env_ok(env@, *ajob, *r),
{
    let mut env = duplicate_all(&ajob.spec.env);
    env.push(
        EnvVar {
            name: r.runtime.spec.auth_env_var.clone(),
            value: None,
            value_from: Some(
                EnvVarSource {
                    config_map_key_ref: None,
                    field_ref: None,
                    file_key_ref: None,
                    resource_field_ref: None,
                    secret_key_ref: Some(
                        KeySelector {
                            key: r.auth.spec.secret_ref.key.clone(),
                            name: r.auth.spec.secret_ref.name.clone(),
                            optional: Some(false),
                        },
                    ),
                },
            ),
        },
    );
    env.push(EnvVar { name: "HOME".to_owned(), value: Some(AGENT_HOME.to_owned()), value_from: None });
    assert(env@.subrange(0, ajob.spec.env@.len() as int) =~= ajob.spec.env@);
    env
}

/// `m` mounts volume `name` at `path`.
pub open spec fn is_mount(m: VolumeMount, name: Seq<char>, path: Seq<char>, read_only: Option<bool>) -> bool {
    m.name@ == name && m.mount_path@ == path && m.read_only == read_only
}

/// How many volumes persistence adds: one when enabled.
pub open spec fn persist_slots(ajob: AgentJob) -> int {
    if ajob.spec.persist {
        1
    } else {
        0
    }
}

/// The agent's mounts: the configuration read-only, the persistent volume
/// when enabled, then writable `/tmp` and home directories.
pub open spec fn mounts_ok(ms: Seq<VolumeMount>, ajob: AgentJob, r: Resolved) -> bool {
    let p = persist_slots(ajob);
    &&& ms.len() == 3 + p
    &&& is_mount(ms[0], "agent-config"@, r.runtime.spec.config_path@, Some(true))
    &&& ajob.spec.persist ==> is_mount(ms[1], "agent-persist"@, r.runtime.spec.persist_path@, None)
    &&& is_mount(ms[1 + p], "tmp"@, "/tmp"@, None)
    &&& is_mount(ms[2 + p], "home"@, AGENT_HOME@, None)
}

fn mount(name: &str, path: String, read_only: Option<bool>) -> (m: VolumeMount)
    ensures
        is_mount(m, name@, path@, read_only),
{
    VolumeMount { name: name.to_owned(), mount_path: path, read_only }
}

fn volume_mounts(ajob: &AgentJob, r: &Resolved) -> (ms: Vec<VolumeMount>)
    ensures
        mounts_ok(ms@, *ajob, *r),
{
    let mut ms: Vec<VolumeMount> = Vec::new();
    ms.push(mount("agent-config", r.runtime.spec.config_path.clone(), Some(true)));
    if ajob.spec.persist {
        ms.push(mount("agent-persist", r.runtime.spec.persist_path.clone(), None));
    }
    ms.push(mount("tmp", "/tmp".to_owned(), None));
    ms.push(mount("home", AGENT_HOME.to_owned(), None));
    ms
}

/// `v` is the configuration volume backed by the AgentJob's ConfigMap.
pub open spec fn is_config_volume(v: Volume, ajob: AgentJob) -> bool {
    &&& v.name@ == "agent-config"@
    &&& v.config_map matches Some(c) && c.name@ == config_name_view(ajob)
    &&& v.persistent_volume_claim is None
    &&& !v.empty_dir
}

/// `v` is the persistent volume backed by the AgentJob's claim.
pub open spec fn is_persist_volume(v: Volume, ajob: AgentJob) -> bool {
    &&& v.name@ == "agent-persist"@
    &&& v.config_map is None
    &&& v.persistent_volume_claim matches Some(c) && c.claim_name@ == pvc_name_view(ajob)
        && c.read_only == Some(false)
    &&& !v.empty_dir
}

/// `v` is an empty scratch directory named `name`.
pub open spec fn is_scratch_volume(v: Volume, name: Seq<char>) -> bool {
    &&& v.name@ == name
    &&& v.config_map is None
    &&& v.persistent_volume_claim is None
    &&& v.empty_dir
}

/// The pod's volumes, in the order of the mounts.
pub open spec fn volumes_ok(vs: Seq<Volume>, ajob: AgentJob) -> bool {
    let p = persist_slots(ajob);
    &&& vs.len() == 3 + p
    &&& is_config_volume(vs[0], ajob)
    &&& ajob.spec.persist ==> is_persist_volume(vs[1], ajob)
    &&& is_scratch_volume(vs[1 + p], "tmp"@)
    &&& is_scratch_volume(vs[2 + p], "home"@)
}

fn scratch(name: &str) -> (v: Volume)
    ensures
        is_scratch_volume(v, name@),
{
    Volume { name: name.to_owned(), config_map: None, persistent_volume_claim: None, empty_dir: true }
}

fn volumes(ajob: &AgentJob) -> (vs: Vec<Volume>)
    ensures
        volumes_ok(vs@, *ajob),
{
    let mut vs: Vec<Volume> = Vec::new();
    vs.push(
        Volume {
            name: "agent-config".to_owned(),
            config_map: Some(ConfigMapVolumeSource { name: config_name(ajob) }),
            persistent_volume_claim: None,
            empty_dir: false,
        },
    );
    if ajob.spec.persist {
        vs.push(
            Volume {
                name: "agent-persist".to_owned(),
                config_map: None,
                persistent_volume_claim: Some(
                    PersistentVolumeClaimVolumeSource {
                        claim_name: pvc_name(ajob),
                        read_only: Some(false),
                    },
                ),
                empty_dir: false,
            },
        );
    }
    vs.push(scratch("tmp"));
    vs.push(scratch("home"));
    vs
}

/// The container cannot gain privileges, writes nothing to its root
/// filesystem and drops every capability.
pub open spec fn container_locked_down(sc: SecurityContext) -> bool {
    &&& sc.allow_privilege_escalation == Some(false)
    &&& sc.read_only_root_filesystem == Some(true)
    &&& sc.capabilities matches Some(c) && c.drop matches Some(d) && d@.len() == 1 && d@[0]@ == "ALL"@
}

/// The agent container: the runtime's image and command, the agent's
/// environment and mounts, the AgentJob's resources (none when unset) and
/// a locked-down security context.
pub open spec fn container_ok(c: Container, ajob: AgentJob, r: Resolved) -> bool {
    &&& c.name@ == "agent"@
    &&& opt_view(c.image) == Some(r.runtime.spec.image@)
    &&& if r.runtime.spec.command@.len() == 0 {
        c.command is None
    } else {
        c.command matches Some(cmd) && cmd@ == r.runtime.spec.command@
    }
    &&& c.env matches Some(env) && agent_env_ok(env@, ajob, r)
    &&& if ajob.spec.env_from@.len() == 0 {
        c.env_from is None
    } else {
        c.env_from matches Some(ef) && ef@ == ajob.spec.env_from@
    }
    &&& c.volume_mounts matches Some(ms) && mounts_ok(ms@, ajob, r)
    &&& c.resources matches Some(res) && match ajob.spec.resources {
        Some(want) => res.same_as(want),
        None => res.is_none(),
    }
    &&& c.security_context matches Some(sc) && container_locked_down(sc)
}

fn agent_container(ajob: &AgentJob, r: &Resolved) -> (c: Container)
    ensures
        container_ok(c, *ajob, *r),
{
    let command = if r.runtime.spec.command.len() == 0 {
        None
    } else {
        Some(copy_strings(&r.runtime.spec.command))
    };
    let env_from = if ajob.spec.env_from.len() == 0 {
        None
    } else {
        Some(duplicate_all(&ajob.spec.env_from))
    };
    let resources = match &ajob.spec.resources {
        Some(res) => res.duplicate(),
        None => ResourceRequirements::none(),
    };
    let mut drop: Vec<String> = Vec::new();
    drop.push("ALL".to_owned());
    Container {
        name: "agent".to_owned(),
        image: Some(r.runtime.spec.image.clone()),
        command,
        env: Some(agent_env(ajob, r)),
        env_from,
        volume_mounts: Some(volume_mounts(ajob, r)),
        resources: Some(resources),
        security_context: Some(
            SecurityContext {
                allow_privilege_escalation: Some(false),
                read_only_root_filesystem: Some(true),
                capabilities: Some(Capabilities { drop: Some(drop) }),
            },
        ),
    }
}

/// The pod runs as a fixed non-root user and group with the default
/// seccomp profile.
pub open spec fn pod_locked_down(sc: PodSecurityContext) -> bool {
    &&& sc.run_as_non_root == Some(true)
    &&& sc.run_as_user == Some(POD_USER)
    &&& sc.run_as_group == Some(POD_USER)
    &&& sc.fs_group == Some(POD_USER)
    &&& sc.seccomp_profile matches Some(p) && p.type_@ == "RuntimeDefault"@
}

/// The service account a pod of the AgentJob runs as.
pub open spec fn service_account_view(ajob: AgentJob) -> Seq<char> {
    if ajob.spec.cluster_access_ref is Some {
        runner_name_view(ajob)
    } else {
        "default"@
    }
}

/// The pod: one agent container, never restarted, under the runner
/// account when the AgentJob has cluster access (whose token is then the
/// only one mounted), locked down, with the agent's volumes and the
/// AgentJob's timeout.
pub open spec fn pod_spec_ok(p: PodSpec, ajob: AgentJob, r: Resolved) -> bool {
    &&& p.containers@.len() == 1
    &&& container_ok(p.containers@[0], ajob, r)
    &&& opt_view(p.restart_policy) == Some("Never"@)
    &&& opt_view(p.service_account_name) == Some(service_account_view(ajob))
    &&& p.automount_service_account_token == Some(ajob.spec.cluster_access_ref is Some)
    &&& p.security_context matches Some(sc) && pod_locked_down(sc)
    &&& p.volumes matches Some(vs) && volumes_ok(vs@, ajob)
    &&& p.active_deadline_seconds == Some(ajob.spec.timeout_seconds as i64)
}

/// The pod template: labelled, in `namespace`, running the pod above.
pub open spec fn pod_template_ok(t: PodTemplateSpec, ajob: AgentJob, r: Resolved, namespace: Seq<char>) -> bool {
    &&& t.metadata matches Some(m) && {
        &&& m.name is None
        &&& opt_view(m.namespace) == Some(namespace)
        &&& has_labels(m, ajob)
        &&& rest_unset(m)
        &&& m.owner_references is None
    }
    &&& t.spec matches Some(p) && pod_spec_ok(p, ajob, r)
}

fn pod_template(ajob: &AgentJob, r: &Resolved, namespace: &str) -> (t: PodTemplateSpec)
    ensures
        pod_template_ok(t, *ajob, *r, namespace@),
{
    let has_access = ajob.spec.cluster_access_ref.is_some();
    let sa_name = if has_access {
        runner_name(ajob)
    } else {
        "default".to_owned()
    };
    let mut containers: Vec<Container> = Vec::new();
    containers.push(agent_container(ajob, r));
    let mut pod_meta = ObjectMeta::empty();
    pod_meta.labels = Some(labels(ajob));
    pod_meta.namespace = Some(namespace.to_owned());
    PodTemplateSpec {
        metadata: Some(pod_meta),
        spec: Some(
            PodSpec {
                containers,
                restart_policy: Some("Never".to_owned()),
                service_account_name: Some(sa_name),
                automount_service_account_token: Some(has_access),
                security_context: Some(
                    PodSecurityContext {
                        run_as_non_root: Some(true),
                        run_as_user: Some(POD_USER),
                        run_as_group: Some(POD_USER),
                        fs_group: Some(POD_USER),
                        seccomp_profile: Some(SeccompProfile { type_: "RuntimeDefault".to_owned() }),
                    },
                ),
                volumes: Some(volumes(ajob)),
                active_deadline_seconds: Some(ajob.spec.timeout_seconds as i64),
            },
        ),
    }
}

// ── Workloads ───────────────────────────────────────────────

/// How a Job of the AgentJob runs: the pod template, no retries, the
/// AgentJob's timeout, and cleanup a day after it finishes.
pub open spec fn job_spec_ok(js: JobSpec, ajob: AgentJob, r: Resolved, namespace: Seq<char>) -> bool {
    &&& pod_template_ok(js.template, ajob, r, namespace)
    &&& js.backoff_limit == Some(0i32)
    &&& js.active_deadline_seconds == Some(ajob.spec.timeout_seconds as i64)
    &&& js.ttl_seconds_after_finished == Some(86400i32)
}

fn job_spec(ajob: &AgentJob, r: &Resolved, namespace: &str) -> (js: JobSpec)
    ensures
        job_spec_ok(js, *ajob, *r, namespace@),
{
    JobSpec {
        template: pod_template(ajob, r, namespace),
        backoff_limit: Some(0),
        active_deadline_seconds: Some(ajob.spec.timeout_seconds as i64),
        ttl_seconds_after_finished: Some(86400),
    }
}

/// The one-shot Job for configuration `hash`.
pub open spec fn job_ok(j: Job, ajob: AgentJob, r: Resolved, namespace: Seq<char>, hash: Seq<char>) -> bool {
    &&& is_namespaced_meta(j.metadata, job_name_view(ajob, hash), namespace, ajob)
    &&& j.spec matches Some(js) && job_spec_ok(js, ajob, r, namespace)
}

/// The one-shot Job for configuration `hash`.
pub fn job(ajob: &AgentJob, r: &Resolved, namespace: &str, hash: &str) -> (j: Job)
    ensures
        job_ok(j, *ajob, *r, namespace@, hash@),
{
    Job {
        metadata: namespaced_meta(job_name(ajob, hash), namespace, ajob),
        spec: Some(job_spec(ajob, r, namespace)),
    }
}

/// The CronJob running the AgentJob on `schedule`, in its timezone,
/// suspended with it, never two runs at once, keeping three finished Jobs
/// of each outcome.
pub open spec fn cron_job_ok(cj: CronJob, ajob: AgentJob, r: Resolved, namespace: Seq<char>, schedule: Seq<char>) -> bool {
    &&& is_namespaced_meta(cj.metadata, base_name(ajob), namespace, ajob)
    &&& cj.spec matches Some(cs) && {
        &&& cs.schedule@ == schedule
        &&& opt_view(cs.time_zone) == Some(ajob.spec.timezone@)
        &&& cs.suspend == Some(ajob.spec.suspend)
        &&& opt_view(cs.concurrency_policy) == Some("Forbid"@)
        &&& cs.successful_jobs_history_limit == Some(3i32)
        &&& cs.failed_jobs_history_limit == Some(3i32)
        &&& cs.job_template.metadata matches Some(m) && {
            &&& m.name is None
            &&& m.namespace is None
            &&& has_labels(m, ajob)
            &&& rest_unset(m)
            &&& m.owner_references is None
        }
        &&& cs.job_template.spec matches Some(js) && job_spec_ok(js, ajob, r, namespace)
    }
}

/// The CronJob running the AgentJob on `schedule`.
pub fn cron_job(ajob: &AgentJob, r: &Resolved, namespace: &str, schedule: &str) -> (cj: CronJob)
    ensures
        cron_job_ok(cj, *ajob, *r, namespace@, schedule@),
{
    let mut template_meta = ObjectMeta::empty();
    template_meta.labels = Some(labels(ajob));
    CronJob {
        metadata: namespaced_meta(cron_name(ajob), namespace, ajob),
        spec: Some(
            CronJobSpec {
                schedule: schedule.to_owned(),
                time_zone: Some(ajob.spec.timezone.clone()),
                suspend: Some(ajob.spec.suspend),
                concurrency_policy: Some("Forbid".to_owned()),
                successful_jobs_history_limit: Some(3),
                failed_jobs_history_limit: Some(3),
                job_template: JobTemplateSpec {
                    metadata: Some(template_meta),
                    spec: Some(job_spec(ajob, r, namespace)),
                },
            },
        ),
    }
}

// ── How the children fit together ───────────────────────────

/// The label keys are distinct.
pub proof fn lemma_label_keys_distinct(ajob: AgentJob)
    ensures
        forall|i: int, j: int|
            0 <= i < j < labels_view(ajob).len() ==> (#[trigger] labels_view(ajob)[i]).0
                != (#[trigger] labels_view(ajob)[j]).0,
{
    reveal_strlit("app.kubernetes.io/managed-by");
    reveal_strlit("thurkube.thurbeen.eu/agentjob");
    reveal_strlit("thurkube.thurbeen.eu/agentjob-namespace");
    reveal_strlit("thurkube.thurbeen.eu/owner-uid");
    assert(LABEL_MANAGED_BY@.len() == 28);
    assert(LABEL_AGENTJOB@.len() == 29);
    assert(LABEL_AGENTJOB_NS@.len() == 39);
    assert(LABEL_OWNER_UID@.len() == 30);
}

/// The selector used to find an AgentJob's children matches the labels
/// the AgentJob puts on them: it is `key=value` where the labels map
/// `key` to `value`.
pub proof fn lemma_selector_matches_labels(ajob: AgentJob)
    requires
        ajob.metadata.uid is Some,
    ensures
        ({
            let uid = ajob.metadata.uid->0@;
            &&& owner_selector_view(uid) == LABEL_OWNER_UID@ + "="@ + uid
            &&& lookup_entries(labels_view(ajob), LABEL_OWNER_UID@) == Some(uid)
        }),
{
    reveal_strlit("app.kubernetes.io/managed-by");
    reveal_strlit("thurkube.thurbeen.eu/agentjob");
    reveal_strlit("thurkube.thurbeen.eu/agentjob-namespace");
    reveal_strlit("thurkube.thurbeen.eu/owner-uid");
    assert(LABEL_MANAGED_BY@.len() == 28);
    assert(LABEL_AGENTJOB@.len() == 29);
    assert(LABEL_AGENTJOB_NS@.len() == 39);
    assert(LABEL_OWNER_UID@.len() == 30);
    let l = labels_view(ajob);
    reveal_with_fuel(lookup_entries, 5);
    assert(l.drop_first().drop_first() =~= l.subrange(2, l.len() as int));
    if ajob.metadata.namespace is Some {
        assert(l.drop_first().drop_first().drop_first() =~= l.subrange(3, l.len() as int));
    }
}

/// `a + t == b + t` only when `a == b`.
proof fn lemma_suffix_cancels(a: Seq<char>, b: Seq<char>, t: Seq<char>)
    requires
        a + t == b + t,
    ensures
        a == b,
{
    assert((a + t).len() == a.len() + t.len());
    assert((b + t).len() == b.len() + t.len());
    assert(a.len() == b.len());
    assert((a + t).subrange(0, a.len() as int) =~= a);
    assert((b + t).subrange(0, b.len() as int) =~= b);
}

/// The children of a named AgentJob are named after its name, never after
/// its generate-name: the ConfigMap `<name>-config`, the claim
/// `<name>-data`, the ServiceAccount `<name>-runner`, the CronJob `<name>`
/// and the Job `<name>-<hash>`.
pub proof fn lemma_children_named_after_name(ajob: AgentJob, hash: Seq<char>)
    requires
        ajob.metadata.name is Some,
    ensures
        ({
            let n = ajob.metadata.name->0@;
            &&& config_name_view(ajob) == n + "-config"@
            &&& pvc_name_view(ajob) == n + "-data"@
            &&& runner_name_view(ajob) == n + "-runner"@
            &&& base_name(ajob) == n
            &&& job_name_view(ajob, hash) == n + "-"@ + hash
        }),
{
    lemma_name_any_prefers_name(ajob.metadata);
}

/// AgentJobs of different names have children of different names, so one
/// never overwrites another's: the ConfigMaps, claims, ServiceAccounts,
/// CronJobs and Jobs of one configuration all differ.
pub proof fn lemma_distinct_agentjobs_distinct_children(a: AgentJob, b: AgentJob, hash: Seq<char>)
    requires
        a.metadata.name is Some,
        b.metadata.name is Some,
        a.metadata.name->0@ != b.metadata.name->0@,
    ensures
        config_name_view(a) != config_name_view(b),
        pvc_name_view(a) != pvc_name_view(b),
        runner_name_view(a) != runner_name_view(b),
        base_name(a) != base_name(b),
        job_name_view(a, hash) != job_name_view(b, hash),
{
    lemma_children_named_after_name(a, hash);
    lemma_children_named_after_name(b, hash);
    let na = a.metadata.name->0@;
    let nb = b.metadata.name->0@;
    if config_name_view(a) == config_name_view(b) {
        lemma_suffix_cancels(na, nb, "-config"@);
    }
    if pvc_name_view(a) == pvc_name_view(b) {
        lemma_suffix_cancels(na, nb, "-data"@);
    }
    if runner_name_view(a) == runner_name_view(b) {
        lemma_suffix_cancels(na, nb, "-runner"@);
    }
    if job_name_view(a, hash) == job_name_view(b, hash) {
        assert(na + "-"@ + hash =~= na + ("-"@ + hash));
        assert(nb + "-"@ + hash =~= nb + ("-"@ + hash));
        lemma_suffix_cancels(na, nb, "-"@ + hash);
    }
}

/// One-shot Jobs of different configurations have different names, so a
/// changed configuration starts a new Job.
pub proof fn lemma_job_name_tracks_hash(ajob: AgentJob, h1: Seq<char>, h2: Seq<char>)
    requires
        h1 != h2,
    ensures
        job_name_view(ajob, h1) != job_name_view(ajob, h2),
{
    let pre = base_name(ajob) + "-"@;
    assert(job_name_view(ajob, h1) =~= pre + h1);
    assert(job_name_view(ajob, h2) =~= pre + h2);
    if pre + h1 == pre + h2 {
        assert((pre + h1).subrange(pre.len() as int, (pre + h1).len() as int) =~= h1);
        assert((pre + h2).subrange(pre.len() as int, (pre + h2).len() as int) =~= h2);
    }
}

/// The children of an AgentJob refer to each other by the names they are
/// given: the pod mounts the ConfigMap and the claim, runs as the
/// ServiceAccount, and the binding grants the ClusterRole to that
/// ServiceAccount; every mount names a volume of the pod.
pub proof fn lemma_children_fit_together(
    ajob: AgentJob,
    r: Resolved,
    namespace: Seq<char>,
    agent_json: Seq<char>,
    js: JobSpec,
    cm: ConfigMap,
    claim: PersistentVolumeClaim,
    sa: ServiceAccount,
    cr: ClusterRole,
    crb: ClusterRoleBinding,
)
    requires
        job_spec_ok(js, ajob, r, namespace),
        configmap_ok(cm, ajob, namespace, agent_json),
        ajob.spec.persist ==> pvc_ok(claim, ajob, namespace),
        ajob.spec.cluster_access_ref is Some ==> service_account_ok(sa, ajob, namespace),
        ajob.spec.cluster_access_ref is Some ==> cluster_role_ok(cr, ajob, r),
        ajob.spec.cluster_access_ref is Some ==> cluster_role_binding_ok(crb, ajob, namespace),
    ensures
        ({
            let pod = js.template.spec->0;
            let vs = pod.volumes->0@;
            let ms = pod.containers@[0].volume_mounts->0@;
            &&& Some(vs[0].config_map->0.name@) == opt_view(cm.metadata.name)
            &&& ajob.spec.persist ==> Some(vs[1].persistent_volume_claim->0.claim_name@) == opt_view(
                claim.metadata.name,
            )
            &&& ajob.spec.cluster_access_ref is Some ==> {
                &&& opt_view(pod.service_account_name) == opt_view(sa.metadata.name)
                &&& Some(crb.role_ref.name@) == opt_view(cr.metadata.name)
                &&& Some(crb.subjects->0@[0].name@) == opt_view(sa.metadata.name)
                &&& opt_view(crb.subjects->0@[0].namespace) == opt_view(sa.metadata.namespace)
            }
            &&& ms.len() == vs.len()
            &&& forall|i: int| 0 <= i < ms.len() ==> (#[trigger] ms[i]).name@ == vs[i].name@
        }),
{
    let pod = js.template.spec->0;
    let vs = pod.volumes->0@;
    let ms = pod.containers@[0].volume_mounts->0@;
    assert forall|i: int| 0 <= i < ms.len() implies (#[trigger] ms[i]).name@ == vs[i].name@ by {
        if ajob.spec.persist {
            assert(i == 0 || i == 1 || i == 2 || i == 3);
        } else {
            assert(i == 0 || i == 1 || i == 2);
        }
    }
}

// ── Agent configuration ─────────────────────────────────────

/// The skill an agent loads.
#[derive(Clone, Debug)]
pub struct SkillRef {
    pub repo: String,
    pub name: String,
    pub ref_: String,
}

/// An MCP server an agent reaches, under the name it was referenced by.
#[derive(Clone, Debug)]
pub struct McpServerRef {
    pub name: String,
    pub command: Option<String>,
    pub args: Vec<String>,
    pub url: Option<String>,
}

/// A repository an agent works on, under the name it was referenced by.
#[derive(Clone, Debug)]
pub struct RepoRef {
    pub name: String,
    pub owner: String,
    pub repo: String,
}

/// The configuration handed to the agent, mounted as `agent.json`.
#[derive(Clone, Debug)]
pub struct AgentConfig {
    pub prompt: String,
    pub instructions: Option<String>,
    pub model: Option<String>,
    pub allowed_tools: Vec<String>,
    pub skill: Option<SkillRef>,
    pub mcp_servers: Vec<McpServerRef>,
    pub repositories: Vec<RepoRef>,
}

/// `m` describes the referenced McpServer `s` under the name `name`.
pub open spec fn describes_mcp(m: McpServerRef, entry: (String, crate::crd::mcp_server::McpServer)) -> bool {
    &&& m.name@ == entry.0@
    &&& opt_view(m.command) == opt_view(entry.1.spec.command)
    &&& m.args@ == entry.1.spec.args@
    &&& opt_view(m.url) == opt_view(entry.1.spec.url)
}

/// `p` describes the referenced Repository under the name it was
/// referenced by.
pub open spec fn describes_repo(p: RepoRef, entry: (String, crate::crd::repository::Repository)) -> bool {
    &&& p.name@ == entry.0@
    &&& p.owner@ == entry.1.spec.owner@
    &&& p.repo@ == entry.1.spec.name@
}

/// The configuration of the agent: the AgentJob's prompt, instructions and
/// model; the role's tools; the skill; every MCP server and repository in
/// the order they were referenced.
pub open spec fn agent_config_ok(c: AgentConfig, ajob: AgentJob, r: Resolved) -> bool {
    &&& c.prompt@ == ajob.spec.prompt@
    &&& opt_view(c.instructions) == opt_view(ajob.spec.instructions)
    &&& opt_view(c.model) == opt_view(ajob.spec.model)
    &&& c.allowed_tools@ == r.role.spec.allowed_tools@
    &&& c.skill is Some <==> r.skill is Some
    &&& c.skill matches Some(k) ==> {
        let s = r.skill->0.spec;
        k.repo@ == s.repo@ && k.name@ == s.name@ && k.ref_@ == s.ref_@
    }
    &&& c.mcp_servers@.len() == r.mcp_servers@.len()
    &&& forall|i: int| 0 <= i < c.mcp_servers@.len() ==> describes_mcp(#[trigger] c.mcp_servers@[i], r.mcp_servers@[i])
    &&& c.repositories@.len() == r.repositories@.len()
    &&& forall|i: int| 0 <= i < c.repositories@.len() ==> describes_repo(#[trigger] c.repositories@[i], r.repositories@[i])
}

/// The configuration of the agent; see `agent_config_ok`.
pub fn agent_config(ajob: &AgentJob, r: &Resolved) -> (c: AgentConfig)
    ensures
        agent_config_ok(c, *ajob, *r),
{
    let skill = match &r.skill {
        Some(s) => Some(
            SkillRef {
                repo: s.spec.repo.clone(),
                name: s.spec.name.clone(),
                ref_: s.spec.ref_.clone(),
            },
        ),
        None => None,
    };
    let mut mcp_servers: Vec<McpServerRef> = Vec::new();
    let mut i: usize = 0;
    while i < r.mcp_servers.len()
        invariant
            i <= r.mcp_servers@.len(),
            mcp_servers@.len() == i,
            forall|j: int| 0 <= j < i ==> describes_mcp(#[trigger] mcp_servers@[j], r.mcp_servers@[j]),
        decreases r.mcp_servers.len() - i,
    {
        let (name, m) = &r.mcp_servers[i];
        mcp_servers.push(
            McpServerRef {
                name: name.clone(),
                command: crate::k8s::meta::copy_opt_string(&m.spec.command),
                args: copy_strings(&m.spec.args),
                url: crate::k8s::meta::copy_opt_string(&m.spec.url),
            },
        );
        i = i + 1;
    }
    let mut repositories: Vec<RepoRef> = Vec::new();
    let mut k: usize = 0;
    while k < r.repositories.len()
        invariant
            k <= r.repositories@.len(),
            repositories@.len() == k,
            forall|j: int| 0 <= j < k ==> describes_repo(#[trigger] repositories@[j], r.repositories@[j]),
        decreases r.repositories.len() - k,
    {
        let (name, repo) = &r.repositories[k];
        repositories.push(
            RepoRef { name: name.clone(), owner: repo.spec.owner.clone(), repo: repo.spec.name.clone() },
        );
        k = k + 1;
    }
    AgentConfig {
        prompt: ajob.spec.prompt.clone(),
        instructions: crate::k8s::meta::copy_opt_string(&ajob.spec.instructions),
        model: crate::k8s::meta::copy_opt_string(&ajob.spec.model),
        allowed_tools: copy_strings(&r.role.spec.allowed_tools),
        skill,
        mcp_servers,
        repositories,
    }
}

// ── Configuration hash ──────────────────────────────────────

/// The SHA-256 digest of `data`.
pub uninterp spec fn sha256_digest(data: Seq<u8>) -> Seq<u8>;

/// SHA-256 of `data`, `sha2::Sha256::digest`: the digest of the bytes,
/// which is 32 bytes long.
#[verifier::external_body]
fn sha256(data: &[u8]) -> (d: Vec<u8>)
    ensures
        d@ == sha256_digest(data@),
        d@.len() == 32,
{
    <sha2::Sha256 as sha2::Digest>::digest(data).to_vec()
}

/// The lowercase hex digit of `n`, below 16.
pub open spec fn hex_char(n: int) -> char {
    if n < 10 {
        (48 + n) as char
    } else {
        (87 + n) as char
    }
}

/// Two lowercase hex digits per byte, most significant first.
pub open spec fn hex_lower(bytes: Seq<u8>) -> Seq<char>
    decreases bytes.len(),
{
    if bytes.len() == 0 {
        Seq::empty()
    } else {
        let b = bytes.last();
        hex_lower(bytes.drop_last()) + seq![hex_char((b / 16) as int), hex_char((b % 16) as int)]
    }
}

fn hex_digit(n: u8) -> (s: &'static str)
    requires
        n < 16,
    ensures
        s@ == seq![hex_char(n as int)],
{
    match n {
        0 => { proof { reveal_strlit("0"); } "0" },
        1 => { proof { reveal_strlit("1"); } "1" },
        2 => { proof { reveal_strlit("2"); } "2" },
        3 => { proof { reveal_strlit("3"); } "3" },
        4 => { proof { reveal_strlit("4"); } "4" },
        5 => { proof { reveal_strlit("5"); } "5" },
        6 => { proof { reveal_strlit("6"); } "6" },
        7 => { proof { reveal_strlit("7"); } "7" },
        8 => { proof { reveal_strlit("8"); } "8" },
        9 => { proof { reveal_strlit("9"); } "9" },
        10 => { proof { reveal_strlit("a"); } "a" },
        11 => { proof { reveal_strlit("b"); } "b" },
        12 => { proof { reveal_strlit("c"); } "c" },
        13 => { proof { reveal_strlit("d"); } "d" },
        14 => { proof { reveal_strlit("e"); } "e" },
        _ => { proof { reveal_strlit("f"); } "f" },
    }
}

/// The first eight bytes as sixteen lowercase hex digits.
pub fn hex_short(bytes: &[u8]) -> (s: String)
    requires
        bytes@.len() >= 8,
    ensures
        s@ == hex_lower(bytes@.take(8)),
{
    let mut s = String::new();
    let mut i: usize = 0;
    while i < 8
        invariant
            i <= 8,
            bytes@.len() >= 8,
            s@ == hex_lower(bytes@.take(i as int)),
        decreases 8 - i,
    {
        let b = bytes[i];
        assert(bytes@.take(i + 1).drop_last() =~= bytes@.take(i as int));
        s.append(hex_digit(b / 16));
        s.append(hex_digit(b % 16));
        i = i + 1;
    }
    s
}

/// The hash of the rendered configuration `text`, used to detect drift and
/// to name one-shot Jobs: its UTF-8 bytes hashed.
pub open spec fn config_hash_view(text: Seq<char>) -> Seq<char> {
    hex_lower(sha256_digest(vstd::utf8::encode_utf8(text)).take(8))
}

/// The first eight bytes of the SHA-256 digest of `data`'s UTF-8 bytes,
/// as sixteen lowercase hex digits.
pub fn config_hash(data: &str) -> (h: String)
    ensures
        h@ == config_hash_view(data@),
        h@ == hex_lower(sha256_digest(vstd::utf8::encode_utf8(data@)).take(8)),
        h@.len() == 16,
        forall|i: int| 0 <= i < 16 ==> {
            let c = #[trigger] h@[i];
            ('0' <= c <= '9') || ('a' <= c <= 'f')
        },
{
    let digest = sha256(data.as_bytes());
    proof {
        lemma_config_hash_shape(digest@);
    }
    hex_short(digest.as_slice())
}

/// The configuration hash is taken over all of the text: the first eight
/// bytes of the SHA-256 digest of every one of its UTF-8 bytes, in hex;
/// and texts that differ anywhere are digested from different bytes.
pub proof fn lemma_config_hash_covers_all_bytes(t1: Seq<char>, t2: Seq<char>)
    ensures
        config_hash_view(t1) == hex_lower(sha256_digest(vstd::utf8::encode_utf8(t1)).take(8)),
        t1 != t2 ==> vstd::utf8::encode_utf8(t1) != vstd::utf8::encode_utf8(t2),
{
    vstd::utf8::encode_utf8_decode_utf8(t1);
    vstd::utf8::encode_utf8_decode_utf8(t2);
}

/// A configuration hash is sixteen lowercase hex digits.
pub proof fn lemma_config_hash_shape(bytes: Seq<u8>)
    requires
        bytes.len() >= 8,
    ensures
        hex_lower(bytes.take(8)).len() == 16,
        forall|i: int| 0 <= i < 16 ==> {
            let c = #[trigger] hex_lower(bytes.take(8))[i];
            ('0' <= c <= '9') || ('a' <= c <= 'f')
        },
{
    lemma_hex_lower_shape(bytes.take(8));
}

/// Hex encoding doubles the length and uses only lowercase hex digits.
pub proof fn lemma_hex_lower_shape(bytes: Seq<u8>)
    ensures
        hex_lower(bytes).len() == 2 * bytes.len(),
        forall|i: int| 0 <= i < hex_lower(bytes).len() ==> {
            let c = #[trigger] hex_lower(bytes)[i];
            ('0' <= c <= '9') || ('a' <= c <= 'f')
        },
    decreases bytes.len(),
{
    if bytes.len() > 0 {
        let init = bytes.drop_last();
        lemma_hex_lower_shape(init);
        let b = bytes.last();
        let tail = seq![hex_char((b / 16) as int), hex_char((b % 16) as int)];
        assert forall|i: int| 0 <= i < hex_lower(bytes).len() implies {
            let c = #[trigger] hex_lower(bytes)[i];
            ('0' <= c <= '9') || ('a' <= c <= 'f')
        } by {
            if i < hex_lower(init).len() {
                assert(hex_lower(bytes)[i] == hex_lower(init)[i]);
            } else {
                assert(hex_lower(bytes)[i] == tail[i - hex_lower(init).len()]);
            }
        }
    }
}

} // verus!
