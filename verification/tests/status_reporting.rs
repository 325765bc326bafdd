use thurkube::controller::status::{desired_status, set_condition, status_equivalent, status_patch, StatusUpdate};
use thurkube::controller::ReconcileError;
use thurkube::crd::{AgentJob, AgentJobSpec, AgentJobStatus, Condition, OwnedResource};
use thurkube::k8s::meta::ObjectMeta;

fn cond(t: &str, status: &str, ltt: &str, reason: &str) -> Condition {
    Condition {
        type_: t.into(),
        status: status.into(),
        last_transition_time: ltt.into(),
        reason: Some(reason.into()),
        message: Some(format!("{reason} message")),
    }
}

fn mk_ajob(status: Option<AgentJobStatus>) -> AgentJob {
    let mut m = ObjectMeta::empty();
    m.name = Some("hello".into());
    m.namespace = Some("default".into());
    m.generation = Some(4);
    AgentJob {
        metadata: m,
        spec: AgentJobSpec {
            schedule: None,
            timezone: "Etc/UTC".into(),
            suspend: false,
            runtime_ref: "rt".into(),
            auth_ref: "auth".into(),
            role_ref: "role".into(),
            skill_ref: None,
            cluster_access_ref: None,
            mcp_server_refs: vec![],
            repository_refs: vec![],
            prompt: "hi".into(),
            instructions: None,
            model: None,
            resources: None,
            timeout_seconds: 3600,
            env: vec![],
            env_from: vec![],
            persist: false,
        },
        status,
    }
}

fn reconciled_update() -> StatusUpdate {
    StatusUpdate {
        phase: "Running",
        message: Some("reconciled Job/hello-abc".into()),
        config_hash: Some("abc".into()),
        owned: vec![OwnedResource {
            kind: "Job".into(),
            name: "hello-abc".into(),
        }],
        ready: Some((true, "Reconciled", "Job/hello-abc".into())),
        last_run_time: None,
    }
}

#[test]
fn pending_update_says_only_pending() {
    let u = StatusUpdate::pending();
    assert_eq!(u.phase, "Pending");
    assert!(u.message.is_none() && u.config_hash.is_none() && u.ready.is_none());
    assert!(u.owned.is_empty() && u.last_run_time.is_none());
}

#[test]
fn set_condition_appends_new_type() {
    let mut conds = vec![cond("Other", "True", "t0", "x")];
    set_condition(&mut conds, cond("Ready", "False", "t1", "Pending"));
    assert_eq!(conds.len(), 2);
    assert_eq!(conds[1].type_, "Ready");
    assert_eq!(conds[0].reason.as_deref(), Some("x"));
}

#[test]
fn set_condition_keeps_transition_time_when_status_unchanged() {
    let mut conds = vec![cond("Ready", "True", "t0", "Old")];
    set_condition(&mut conds, cond("Ready", "True", "t1", "New"));
    assert_eq!(conds.len(), 1);
    assert_eq!(conds[0].last_transition_time, "t0");
    assert_eq!(conds[0].reason.as_deref(), Some("New"));
    assert_eq!(conds[0].message.as_deref(), Some("New message"));
}

#[test]
fn set_condition_replaces_on_status_change() {
    let mut conds = vec![cond("Ready", "True", "t0", "Old")];
    set_condition(&mut conds, cond("Ready", "False", "t1", "New"));
    assert_eq!(conds.len(), 1);
    assert_eq!(conds[0].status, "False");
    assert_eq!(conds[0].last_transition_time, "t1");
}

#[test]
fn set_condition_twice_is_once() {
    let base = vec![cond("Other", "True", "t0", "x"), cond("Ready", "True", "t0", "Old")];
    let mut once = base.clone();
    set_condition(&mut once, cond("Ready", "False", "t1", "New"));
    let mut twice = once.clone();
    set_condition(&mut twice, cond("Ready", "False", "t1", "New"));
    assert_eq!(format!("{once:?}"), format!("{twice:?}"));
}

#[test]
fn equivalence_ignores_transition_times_only() {
    let a = AgentJobStatus {
        phase: Some("Running".into()),
        last_run_time: None,
        last_completion_time: None,
        message: Some("m".into()),
        observed_generation: 1,
        config_hash: Some("abc".into()),
        owned_resources: vec![],
        conditions: vec![cond("Ready", "True", "t0", "r")],
    };
    let mut b = a.clone();
    b.conditions[0].last_transition_time = "t9".into();
    assert!(status_equivalent(Some(&a), &b));
    assert!(!status_equivalent(None, &b));
    let mut c = a.clone();
    c.observed_generation = 2;
    assert!(!status_equivalent(Some(&a), &c));
    let mut d = a.clone();
    d.conditions[0].reason = Some("other".into());
    assert!(!status_equivalent(Some(&a), &d));
    let mut e = a.clone();
    e.owned_resources.push(OwnedResource {
        kind: "Job".into(),
        name: "x".into(),
    });
    assert!(!status_equivalent(Some(&a), &e));
}

#[test]
fn desired_status_keeps_times_it_does_not_set() {
    let old = AgentJobStatus {
        phase: Some("Pending".into()),
        last_run_time: Some("2024-01-01T00:00:00+00:00".into()),
        last_completion_time: Some("2024-01-02T00:00:00+00:00".into()),
        message: None,
        observed_generation: 3,
        config_hash: None,
        owned_resources: vec![],
        conditions: vec![],
    };
    let ajob = mk_ajob(Some(old));
    let s = desired_status(&ajob, reconciled_update(), "now".into());
    assert_eq!(s.phase.as_deref(), Some("Running"));
    assert_eq!(s.observed_generation, 4);
    assert_eq!(s.last_run_time.as_deref(), Some("2024-01-01T00:00:00+00:00"));
    assert_eq!(s.last_completion_time.as_deref(), Some("2024-01-02T00:00:00+00:00"));
    assert_eq!(s.config_hash.as_deref(), Some("abc"));
    assert_eq!(s.conditions.len(), 1);
    assert_eq!(s.conditions[0].type_, "Ready");
    assert_eq!(s.conditions[0].status, "True");
    assert_eq!(s.conditions[0].last_transition_time, "now");
    assert_eq!(s.conditions[0].reason.as_deref(), Some("Reconciled"));
}

#[test]
fn same_update_twice_writes_once() {
    let ajob = mk_ajob(None);
    let first = status_patch(&ajob, reconciled_update(), Some("t1".into())).unwrap().unwrap();
    let again = mk_ajob(Some(first));
    assert!(status_patch(&again, reconciled_update(), Some("t2".into())).unwrap().is_none());
}

#[test]
fn status_patch_needs_a_name() {
    let mut ajob = mk_ajob(None);
    ajob.metadata.name = None;
    match status_patch(&ajob, StatusUpdate::pending(), None) {
        Err(ReconcileError::InvalidSpec(m)) => assert_eq!(m, "AgentJob missing name"),
        other => panic!("unexpected: {other:?}"),
    }
}

#[test]
fn status_patch_writes_a_change() {
    let ajob = mk_ajob(None);
    let s = status_patch(&ajob, StatusUpdate::pending(), None).unwrap().unwrap();
    assert_eq!(s.phase.as_deref(), Some("Pending"));
    assert!(s.conditions.is_empty());
    assert_eq!(s.observed_generation, 4);
    let settled = mk_ajob(Some(s));
    assert!(status_patch(&settled, StatusUpdate::pending(), None).unwrap().is_none());
}

#[test]
fn status_patch_needs_the_clock_only_for_a_condition() {
    let ajob = mk_ajob(None);
    match status_patch(&ajob, reconciled_update(), None) {
        Err(ReconcileError::Clock) => {}
        other => panic!("unexpected: {other:?}"),
    }
    let s = status_patch(&ajob, reconciled_update(), Some("2024-01-01T00:00:00+00:00".into()))
        .unwrap()
        .unwrap();
    assert_eq!(s.conditions[0].last_transition_time, "2024-01-01T00:00:00+00:00");
    assert!(status_patch(&ajob, StatusUpdate::pending(), None).unwrap().is_some());
}
