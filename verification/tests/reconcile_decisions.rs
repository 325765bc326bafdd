use thurkube::controller::agentjob::{
    error_policy, plan, reconcile_mode, resolve_failed_update, suspended_update, Mode, Workload,
};
use thurkube::controller::builders::config_hash;
use thurkube::controller::clock::{now_rfc3339, timestamp_at};
use thurkube::controller::finalizer::{finalizers_after_add, finalizers_after_remove, has_finalizer};
use thurkube::controller::resolve::{lookups, require_namespace, Found, Gathered, RefKind, Resolved};
use thurkube::controller::{requeue_short, requeue_steady, Action, ReconcileError, FINALIZER};
use thurkube::crd::{
    AgentAuth, AgentAuthSpec, AgentJob, AgentJobSpec, AgentJobStatus, AgentRole, AgentRoleSpec,
    AgentRuntime, AgentRuntimeSpec, SecretKeyRef,
};
use thurkube::health::handle;
use thurkube::k8s::meta::ObjectMeta;

fn mk_ajob() -> AgentJob {
    let mut m = ObjectMeta::empty();
    m.name = Some("hello".into());
    m.namespace = Some("default".into());
    m.uid = Some("uid-123".into());
    AgentJob {
        metadata: m,
        spec: AgentJobSpec {
            schedule: None,
            timezone: "Etc/UTC".into(),
            suspend: false,
            runtime_ref: "rt".into(),
            auth_ref: "auth".into(),
            role_ref: "role".into(),
            skill_ref: None,
            cluster_access_ref: None,
            mcp_server_refs: vec![],
            repository_refs: vec![],
            prompt: "hi".into(),
            instructions: None,
            model: None,
            resources: None,
            timeout_seconds: 3600,
            env: vec![],
            env_from: vec![],
            persist: false,
        },
        status: None,
    }
}

fn mk_resolved() -> Resolved {
    Resolved {
        runtime: AgentRuntime {
            metadata: ObjectMeta::empty(),
            spec: AgentRuntimeSpec {
                image: "img:latest".into(),
                command: vec![],
                auth_env_var: "TOKEN".into(),
                config_path: "/etc/agent".into(),
                persist_path: "/var/agent".into(),
            },
        },
        auth: AgentAuth {
            metadata: ObjectMeta::empty(),
            spec: AgentAuthSpec {
                secret_ref: SecretKeyRef {
                    name: "tok".into(),
                    key: "TOKEN".into(),
                },
            },
        },
        role: AgentRole {
            metadata: ObjectMeta::empty(),
            spec: AgentRoleSpec {
                allowed_tools: vec!["Bash".into()],
            },
        },
        skill: None,
        cluster_access: None,
        mcp_servers: vec![],
        repositories: vec![],
    }
}

#[test]
fn requeue_intervals() {
    assert_eq!(requeue_steady(), Action::Requeue(300));
    assert_eq!(requeue_short(), Action::Requeue(30));
    let err = ReconcileError::InvalidSpec("x".into());
    assert_eq!(error_policy(&mk_ajob(), &err), Action::Requeue(30));
}

#[test]
fn mode_follows_deletion_then_suspension() {
    let ajob = mk_ajob();
    let (ns, mode) = reconcile_mode(&ajob).unwrap();
    assert_eq!(ns, "default");
    assert_eq!(mode, Mode::Run);

    let mut suspended = mk_ajob();
    suspended.spec.suspend = true;
    assert_eq!(reconcile_mode(&suspended).unwrap().1, Mode::Suspend);

    let mut deleted = suspended;
    deleted.metadata.deletion_timestamp = Some("2024-01-01T00:00:00Z".into());
    assert_eq!(reconcile_mode(&deleted).unwrap().1, Mode::Delete);

    let mut lost = mk_ajob();
    lost.metadata.namespace = None;
    match reconcile_mode(&lost) {
        Err(ReconcileError::InvalidSpec(m)) => assert_eq!(m, "AgentJob missing namespace"),
        other => panic!("unexpected: {other:?}"),
    }
    assert!(require_namespace(&lost).is_err());
}

#[test]
fn suspended_status() {
    let u = suspended_update();
    assert_eq!(u.phase, "Suspended");
    assert_eq!(u.message.as_deref(), Some("spec.suspend=true"));
    let (ready, reason, msg) = u.ready.unwrap();
    assert!(!ready);
    assert_eq!(reason, "Suspended");
    assert_eq!(msg, "AgentJob suspended");
}

#[test]
fn missing_reference_is_reported() {
    let e = ReconcileError::RefNotFound {
        kind: RefKind::AgentRuntime.kind_name(),
        name: "rt".into(),
        namespace: "default".into(),
    };
    let u = resolve_failed_update(&e).unwrap();
    assert_eq!(u.phase, "Pending");
    assert_eq!(
        u.message.as_deref(),
        Some("resource AgentRuntime/rt not found in namespace default")
    );
    let (ready, reason, msg) = u.ready.unwrap();
    assert!(!ready);
    assert_eq!(reason, "ResolveFailed");
    assert_eq!(msg, "resource AgentRuntime/rt not found in namespace default");
    assert!(resolve_failed_update(&ReconcileError::InvalidSpec("x".into())).is_none());
}

#[test]
fn finalizer_add_and_remove() {
    let mut ajob = mk_ajob();
    assert!(!has_finalizer(&ajob));
    assert!(finalizers_after_remove(&ajob).is_none());
    ajob.metadata.finalizers = Some(vec!["other/keep".into()]);
    let added = finalizers_after_add(&ajob).unwrap();
    assert_eq!(added, vec!["other/keep".to_string(), FINALIZER.to_string()]);
    ajob.metadata.finalizers = Some(added);
    assert!(has_finalizer(&ajob));
    assert!(finalizers_after_add(&ajob).is_none());
    let removed = finalizers_after_remove(&ajob).unwrap();
    assert_eq!(removed, vec!["other/keep".to_string()]);
    ajob.metadata.finalizers = Some(removed);
    assert!(!has_finalizer(&ajob));
}

#[test]
fn finalizer_on_empty_list() {
    let ajob = mk_ajob();
    assert_eq!(finalizers_after_add(&ajob).unwrap(), vec![FINALIZER.to_string()]);
}

#[test]
fn plan_for_one_shot_job() {
    let ajob = mk_ajob();
    let r = mk_resolved();
    let p = plan(&ajob, &r, "default", "{\"prompt\":\"hi\"}", Some("now".into())).unwrap();
    assert_eq!(p.hash, config_hash("{\"prompt\":\"hi\"}"));
    assert!(p.pvc.is_none() && p.service_account.is_none());
    assert!(p.cluster_role.is_none() && p.cluster_role_binding.is_none());
    let name = format!("hello-{}", p.hash);
    match &p.workload {
        Workload::OneShot(j) => assert_eq!(j.metadata.name.as_deref(), Some(name.as_str())),
        Workload::Scheduled(_) => panic!("expected a Job"),
    }
    assert_eq!(p.workload_name, name);
    assert_eq!(p.update.phase, "Running");
    assert_eq!(p.update.message.as_deref(), Some(format!("reconciled Job/{name}").as_str()));
    assert_eq!(p.event_note, format!("applied Job/{name}"));
    let owned: Vec<(&str, &str)> = p
        .update
        .owned
        .iter()
        .map(|o| (o.kind.as_str(), o.name.as_str()))
        .collect();
    assert_eq!(owned, vec![("ConfigMap", "hello-config"), ("Job", name.as_str())]);
    assert!(p.update.last_run_time.is_some());
    let (ready, reason, msg) = p.update.ready.unwrap();
    assert!(ready);
    assert_eq!(reason, "Reconciled");
    assert_eq!(msg, format!("Job/{name}"));
}

#[test]
fn plan_for_scheduled_job_with_everything() {
    let mut ajob = mk_ajob();
    ajob.spec.schedule = Some("0 */6 * * *".into());
    ajob.spec.persist = true;
    ajob.spec.cluster_access_ref = Some("reader".into());
    let r = mk_resolved();
    let p = plan(&ajob, &r, "default", "{}", Some("now".into())).unwrap();
    assert!(matches!(p.workload, Workload::Scheduled(_)));
    assert_eq!(p.update.phase, "Running");
    let owned: Vec<(&str, &str)> = p
        .update
        .owned
        .iter()
        .map(|o| (o.kind.as_str(), o.name.as_str()))
        .collect();
    assert_eq!(
        owned,
        vec![
            ("ConfigMap", "hello-config"),
            ("PersistentVolumeClaim", "hello-data"),
            ("ServiceAccount", "hello-runner"),
            ("ClusterRole", "thurkube-default-hello"),
            ("ClusterRoleBinding", "thurkube-default-hello"),
            ("CronJob", "hello"),
        ]
    );
}

#[test]
fn last_run_time_only_when_configuration_changes() {
    let mut ajob = mk_ajob();
    let hash = config_hash("{}");
    ajob.status = Some(AgentJobStatus {
        phase: Some("Running".into()),
        last_run_time: Some("earlier".into()),
        last_completion_time: None,
        message: None,
        observed_generation: 0,
        config_hash: Some(hash),
        owned_resources: vec![],
        conditions: vec![],
    });
    let r = mk_resolved();
    let same = plan(&ajob, &r, "default", "{}", Some("now".into())).unwrap();
    assert!(same.update.last_run_time.is_none());
    assert!(plan(&ajob, &r, "default", "{}", None).unwrap().update.last_run_time.is_none());
    let changed = plan(&ajob, &r, "default", "{\"x\":1}", Some("now".into())).unwrap();
    assert_eq!(changed.update.last_run_time.as_deref(), Some("now"));
    assert!(matches!(plan(&ajob, &r, "default", "{\"x\":1}", None), Err(ReconcileError::Clock)));
}

#[test]
fn health_answers() {
    let ok = handle("/healthz", false);
    assert_eq!((ok.status, ok.body), (200, "ok"));
    let ready = handle("/readyz", true);
    assert_eq!((ready.status, ready.body), (200, "ready"));
    let starting = handle("/readyz", false);
    assert_eq!((starting.status, starting.body), (503, "starting"));
    let missing = handle("/metrics", true);
    assert_eq!((missing.status, missing.body), (404, "not found"));
}

#[test]
fn lookups_list_every_reference_in_order() {
    let mut ajob = mk_ajob();
    let plain: Vec<(RefKind, String)> = lookups(&ajob).into_iter().map(|l| (l.kind, l.name)).collect();
    assert_eq!(
        plain,
        vec![
            (RefKind::AgentRuntime, "rt".to_string()),
            (RefKind::AgentAuth, "auth".to_string()),
            (RefKind::AgentRole, "role".to_string()),
        ]
    );
    ajob.spec.skill_ref = Some("s".into());
    ajob.spec.cluster_access_ref = Some("c".into());
    ajob.spec.mcp_server_refs = vec!["m1".into(), "m2".into()];
    ajob.spec.repository_refs = vec!["r1".into()];
    let kinds: Vec<&str> = lookups(&ajob).iter().map(|l| l.kind.kind_name()).collect();
    assert_eq!(
        kinds,
        vec![
            "AgentRuntime",
            "AgentAuth",
            "AgentRole",
            "AgentSkill",
            "ClusterAccess",
            "McpServer",
            "McpServer",
            "Repository"
        ]
    );
    let names: Vec<String> = lookups(&ajob).into_iter().map(|l| l.name).collect();
    assert_eq!(names, vec!["rt", "auth", "role", "s", "c", "m1", "m2", "r1"]);
}

#[test]
fn gathering_completes_only_with_runtime_auth_and_role() {
    let r = mk_resolved();
    let g = Gathered::new()
        .gather("rt".into(), Found::AgentRuntime(r.runtime.clone()))
        .gather("auth".into(), Found::AgentAuth(r.auth.clone()));
    assert!(g.complete().is_none());
    let g = Gathered::new()
        .gather("rt".into(), Found::AgentRuntime(r.runtime.clone()))
        .gather("auth".into(), Found::AgentAuth(r.auth.clone()))
        .gather("role".into(), Found::AgentRole(r.role.clone()));
    let done = g.complete().unwrap();
    assert_eq!(done.runtime.spec.image, "img:latest");
    assert_eq!(done.role.spec.allowed_tools, vec!["Bash".to_string()]);
    assert!(done.mcp_servers.is_empty());
}

#[test]
fn timestamps_are_rfc3339_utc() {
    assert_eq!(timestamp_at(Some((0, 0))).as_deref(), Some("1970-01-01T00:00:00+00:00"));
    assert_eq!(
        timestamp_at(Some((1_700_000_000, 500_000_000))).as_deref(),
        Some("2023-11-14T22:13:20.500+00:00")
    );
    assert_eq!(timestamp_at(None), None);
    assert_eq!(timestamp_at(Some((u64::MAX, 0))), None);
    let now = now_rfc3339().unwrap();
    assert_eq!(&now[4..5], "-");
    assert_eq!(&now[10..11], "T");
    assert!(now.ends_with("+00:00"));
}
