use thurkube::controller::reconcile::{step, step_at, Child, Event, Next, Request, Stage};
use thurkube::controller::resolve::{Found, RefKind};
use thurkube::controller::{Action, ReconcileError, FINALIZER};
use thurkube::crd::{
    AgentAuth, AgentAuthSpec, AgentJob, AgentJobSpec, AgentRole, AgentRoleSpec, AgentRuntime,
    AgentRuntimeSpec, AgentSkill, AgentSkillSpec, ClusterAccess, ClusterAccessSpec, McpServer,
    McpServerSpec, Repository, RepositorySpec, SecretKeyRef,
};
use thurkube::k8s::meta::ObjectMeta;

fn mk_ajob() -> AgentJob {
    let mut m = ObjectMeta::empty();
    m.name = Some("hello".into());
    m.namespace = Some("default".into());
    m.uid = Some("uid-123".into());
    AgentJob {
        metadata: m,
        spec: AgentJobSpec {
            schedule: None,
            timezone: "Etc/UTC".into(),
            suspend: false,
            runtime_ref: "rt".into(),
            auth_ref: "auth".into(),
            role_ref: "role".into(),
            skill_ref: None,
            cluster_access_ref: None,
            mcp_server_refs: vec![],
            repository_refs: vec![],
            prompt: "hi".into(),
            instructions: None,
            model: None,
            resources: None,
            timeout_seconds: 3600,
            env: vec![],
            env_from: vec![],
            persist: false,
        },
        status: None,
    }
}

/// The resource a fetch of `kind`/`name` finds.
fn found(kind: RefKind, name: &str) -> Found {
    match kind {
        RefKind::AgentRuntime => Found::AgentRuntime(AgentRuntime {
            metadata: ObjectMeta::empty(),
            spec: AgentRuntimeSpec {
                image: "img:latest".into(),
                command: vec![],
                auth_env_var: "TOKEN".into(),
                config_path: "/etc/agent".into(),
                persist_path: "/var/agent".into(),
            },
        }),
        RefKind::AgentAuth => Found::AgentAuth(AgentAuth {
            metadata: ObjectMeta::empty(),
            spec: AgentAuthSpec {
                secret_ref: SecretKeyRef {
                    name: "tok".into(),
                    key: "TOKEN".into(),
                },
            },
        }),
        RefKind::AgentRole => Found::AgentRole(AgentRole {
            metadata: ObjectMeta::empty(),
            spec: AgentRoleSpec {
                allowed_tools: vec!["Bash".into()],
            },
        }),
        RefKind::AgentSkill => Found::AgentSkill(AgentSkill {
            metadata: ObjectMeta::empty(),
            spec: AgentSkillSpec {
                repo: "org/skills".into(),
                name: "review".into(),
                ref_: "main".into(),
            },
        }),
        RefKind::ClusterAccess => Found::ClusterAccess(ClusterAccess {
            metadata: ObjectMeta::empty(),
            spec: ClusterAccessSpec { rules: vec![] },
        }),
        RefKind::McpServer => Found::McpServer(McpServer {
            metadata: ObjectMeta::empty(),
            spec: McpServerSpec {
                command: Some(format!("{name}-cmd")),
                args: vec![],
                url: None,
            },
        }),
        RefKind::Repository => Found::Repository(Repository {
            metadata: ObjectMeta::empty(),
            spec: RepositorySpec {
                owner: "org".into(),
                name: name.into(),
                token_secret_ref: None,
            },
        }),
    }
}

/// Answers every fetch with the resource found, recording what was asked,
/// until the reconcile asks for something else.
fn fetch_all(ajob: &AgentJob, mut st: Stage, mut nx: Next) -> (Stage, Next, Vec<(RefKind, String)>) {
    let mut asked = vec![];
    loop {
        let (kind, name) = match &nx {
            Next::Do(Request::Fetch { kind, name, namespace }) => {
                assert_eq!(namespace, "default");
                (*kind, name.clone())
            }
            _ => return (st, nx, asked),
        };
        let answer = found(kind, &name);
        asked.push((kind, name));
        let (s2, n2) = step(ajob, st, Event::Fetched(Some(answer)));
        st = s2;
        nx = n2;
    }
}

fn request(next: Next) -> Request {
    match next {
        Next::Do(r) => r,
        Next::Finish(a) => panic!("finished early: {a:?}"),
        Next::Fail(e) => panic!("failed early: {e:?}"),
    }
}

#[test]
fn deletion_cleans_up_then_releases() {
    let mut ajob = mk_ajob();
    ajob.metadata.deletion_timestamp = Some("2024-01-01T00:00:00Z".into());
    ajob.metadata.finalizers = Some(vec![FINALIZER.into(), "other/keep".into()]);
    let (st, nx) = step(&ajob, Stage::Start, Event::Begin);
    match request(nx) {
        Request::DeleteClusterRbac(sel) => {
            assert_eq!(sel, "thurkube.thurbeen.eu/owner-uid=uid-123")
        }
        _ => panic!("expected the RBAC cleanup"),
    }
    let (st, nx) = step(&ajob, st, Event::Done);
    match request(nx) {
        Request::PatchFinalizers(fs) => assert_eq!(fs, vec!["other/keep".to_string()]),
        _ => panic!("expected the finalizer release"),
    }
    let (st, nx) = step(&ajob, st, Event::Done);
    assert!(matches!(st, Stage::Finished));
    assert!(matches!(nx, Next::Finish(Action::AwaitChange)));
}

#[test]
fn failed_cleanup_keeps_the_finalizer() {
    let mut ajob = mk_ajob();
    ajob.metadata.deletion_timestamp = Some("2024-01-01T00:00:00Z".into());
    ajob.metadata.finalizers = Some(vec![FINALIZER.into()]);
    let (st, _) = step(&ajob, Stage::Start, Event::Begin);
    let (st, nx) = step(&ajob, st, Event::Failed(ReconcileError::InvalidSpec("boom".into())));
    assert!(matches!(st, Stage::Finished));
    assert!(matches!(nx, Next::Fail(ReconcileError::InvalidSpec(m)) if m == "boom"));
}

#[test]
fn deletion_without_finalizer_or_uid_just_waits() {
    let mut ajob = mk_ajob();
    ajob.metadata.deletion_timestamp = Some("t".into());
    ajob.metadata.uid = None;
    let (_, nx) = step(&ajob, Stage::Start, Event::Begin);
    assert!(matches!(nx, Next::Finish(Action::AwaitChange)));
}

#[test]
fn missing_namespace_fails() {
    let mut ajob = mk_ajob();
    ajob.metadata.namespace = None;
    let (_, nx) = step(&ajob, Stage::Start, Event::Begin);
    assert!(
        matches!(nx, Next::Fail(ReconcileError::InvalidSpec(m)) if m == "AgentJob missing namespace")
    );
}

#[test]
fn one_shot_run_end_to_end() {
    let ajob = mk_ajob();
    let (st, nx) = step(&ajob, Stage::Start, Event::Begin);
    match request(nx) {
        Request::PatchFinalizers(fs) => assert_eq!(fs, vec![FINALIZER.to_string()]),
        _ => panic!("expected the finalizer to be added first"),
    }
    let (st, nx) = step(&ajob, st, Event::Done);
    let (st, nx, asked) = fetch_all(&ajob, st, nx);
    assert_eq!(
        asked,
        vec![
            (RefKind::AgentRuntime, "rt".to_string()),
            (RefKind::AgentAuth, "auth".to_string()),
            (RefKind::AgentRole, "role".to_string()),
        ]
    );
    match request(nx) {
        Request::Render(cfg) => {
            assert_eq!(cfg.prompt, "hi");
            assert_eq!(cfg.allowed_tools, vec!["Bash".to_string()]);
        }
        _ => panic!("expected rendering"),
    }
    let json = "{\n  \"prompt\": \"hi\"\n}".to_string();
    let (st, nx) = step(&ajob, st, Event::Rendered(json.clone()));
    match request(nx) {
        Request::Apply(Child::ConfigMap(cm)) => {
            assert_eq!(cm.metadata.name.as_deref(), Some("hello-config"));
            assert_eq!(cm.data.unwrap().get("agent.json"), Some(&json));
        }
        _ => panic!("expected the ConfigMap first"),
    }
    let (st, nx) = step(&ajob, st, Event::Done);
    let job_name = match request(nx) {
        Request::Apply(Child::Job(j)) => j.metadata.name.unwrap(),
        _ => panic!("expected the Job"),
    };
    assert!(job_name.starts_with("hello-") && job_name.len() == "hello-".len() + 16);
    let (st, nx) = step(&ajob, st, Event::Done);
    match request(nx) {
        Request::PatchStatus(s) => {
            assert_eq!(s.phase.as_deref(), Some("Running"));
            assert_eq!(
                s.message.as_deref(),
                Some(format!("reconciled Job/{job_name}").as_str())
            );
            assert_eq!(s.owned_resources.len(), 2);
            assert!(s.last_run_time.is_some());
        }
        _ => panic!("expected the status"),
    }
    let (st, nx) = step(&ajob, st, Event::Done);
    match request(nx) {
        Request::Publish { warning, reason, note, action } => {
            assert!(!warning);
            assert_eq!(reason, "Reconciled");
            assert_eq!(note, format!("applied Job/{job_name}"));
            assert_eq!(action, "Apply");
        }
        _ => panic!("expected the event"),
    }
    let (st, nx) = step(&ajob, st, Event::Failed(ReconcileError::InvalidSpec("ignored".into())));
    assert!(matches!(st, Stage::Finished));
    assert!(matches!(nx, Next::Finish(Action::Requeue(300))));
}

#[test]
fn failed_apply_fails_the_reconcile() {
    let mut ajob = mk_ajob();
    ajob.metadata.finalizers = Some(vec![FINALIZER.into()]);
    let (st, nx) = step(&ajob, Stage::Start, Event::Begin);
    let (st, nx, _) = fetch_all(&ajob, st, nx);
    assert!(matches!(request(nx), Request::Render(_)));
    let (st, _) = step(&ajob, st, Event::Rendered("{}".into()));
    let (st, nx) = step(&ajob, st, Event::Failed(ReconcileError::InvalidSpec("denied".into())));
    assert!(matches!(st, Stage::Finished));
    assert!(matches!(nx, Next::Fail(ReconcileError::InvalidSpec(m)) if m == "denied"));
}

#[test]
fn suspended_run_tears_down_and_reports() {
    let mut ajob = mk_ajob();
    ajob.spec.suspend = true;
    ajob.metadata.finalizers = Some(vec![FINALIZER.into()]);
    let (st, nx) = step(&ajob, Stage::Start, Event::Begin);
    match request(nx) {
        Request::TearDown { cron_name, selector } => {
            assert_eq!(cron_name, "hello");
            assert_eq!(selector.as_deref(), Some("thurkube.thurbeen.eu/owner-uid=uid-123"));
        }
        _ => panic!("expected the teardown"),
    }
    let (st, nx) = step(&ajob, st, Event::Done);
    match request(nx) {
        Request::PatchStatus(s) => {
            assert_eq!(s.phase.as_deref(), Some("Suspended"));
            assert_eq!(s.conditions[0].reason.as_deref(), Some("Suspended"));
            assert_eq!(s.conditions[0].status, "False");
        }
        _ => panic!("expected the status"),
    }
    let (_, nx) = step(&ajob, st, Event::Done);
    assert!(matches!(nx, Next::Finish(Action::Requeue(300))));
}

#[test]
fn missing_reference_is_reported_and_retried() {
    let mut ajob = mk_ajob();
    ajob.metadata.finalizers = Some(vec![FINALIZER.into()]);
    let (st, _) = step(&ajob, Stage::Start, Event::Begin);
    let (st, nx) = step(&ajob, st, Event::Fetched(Some(found(RefKind::AgentRuntime, "rt"))));
    match request(nx) {
        Request::Fetch { kind, name, namespace } => {
            assert_eq!((kind, name.as_str(), namespace.as_str()), (RefKind::AgentAuth, "auth", "default"));
        }
        _ => panic!("expected the auth to be fetched next"),
    }
    let (st, nx) = step(&ajob, st, Event::Fetched(None));
    match request(nx) {
        Request::PatchStatus(s) => {
            assert_eq!(s.phase.as_deref(), Some("Pending"));
            assert_eq!(
                s.message.as_deref(),
                Some("resource AgentAuth/auth not found in namespace default")
            );
        }
        _ => panic!("expected the status"),
    }
    let (st, nx) = step(&ajob, st, Event::Failed(ReconcileError::InvalidSpec("ignored".into())));
    match request(nx) {
        Request::Publish { warning, reason, note, action } => {
            assert!(warning);
            assert_eq!(reason, "ResolveFailed");
            assert_eq!(note, "resource AgentAuth/auth not found in namespace default");
            assert_eq!(action, "Resolve");
        }
        _ => panic!("expected the event"),
    }
    let (_, nx) = step(&ajob, st, Event::Done);
    assert!(matches!(nx, Next::Finish(Action::Requeue(30))));
}

#[test]
fn other_resolve_errors_fail() {
    let mut ajob = mk_ajob();
    ajob.metadata.finalizers = Some(vec![FINALIZER.into()]);
    let (st, _) = step(&ajob, Stage::Start, Event::Begin);
    let (_, nx) = step(&ajob, st, Event::Failed(ReconcileError::InvalidSpec("x".into())));
    assert!(matches!(nx, Next::Fail(ReconcileError::InvalidSpec(m)) if m == "x"));
}

#[test]
fn out_of_order_events_fail() {
    let ajob = mk_ajob();
    let (_, nx) = step(&ajob, Stage::Start, Event::Done);
    assert!(
        matches!(nx, Next::Fail(ReconcileError::InvalidSpec(m)) if m == "reconcile event out of order")
    );
    let (_, nx) = step(&ajob, Stage::Finished, Event::Done);
    assert!(matches!(nx, Next::Fail(_)));
}

#[test]
fn scheduled_run_applies_everything_in_order() {
    let mut ajob = mk_ajob();
    ajob.spec.schedule = Some("0 */6 * * *".into());
    ajob.spec.persist = true;
    ajob.spec.cluster_access_ref = Some("reader".into());
    ajob.metadata.finalizers = Some(vec![FINALIZER.into()]);
    let (st, nx) = step(&ajob, Stage::Start, Event::Begin);
    let (st, nx, asked) = fetch_all(&ajob, st, nx);
    assert_eq!(asked.len(), 4);
    assert_eq!(asked[3], (RefKind::ClusterAccess, "reader".to_string()));
    assert!(matches!(request(nx), Request::Render(_)));
    let (mut st, mut nx) = step(&ajob, st, Event::Rendered("{}".into()));
    let mut kinds = vec![];
    loop {
        match nx {
            Next::Do(Request::Apply(c)) => kinds.push(match c {
                Child::ConfigMap(_) => "ConfigMap",
                Child::PersistentVolumeClaim(_) => "PersistentVolumeClaim",
                Child::ServiceAccount(_) => "ServiceAccount",
                Child::ClusterRole(_) => "ClusterRole",
                Child::ClusterRoleBinding(_) => "ClusterRoleBinding",
                Child::CronJob(_) => "CronJob",
                Child::Job(_) => "Job",
            }),
            Next::Do(Request::PatchStatus(_)) => break,
            _ => panic!("unexpected request"),
        }
        let (s2, n2) = step(&ajob, st, Event::Done);
        st = s2;
        nx = n2;
    }
    assert_eq!(
        kinds,
        vec![
            "ConfigMap",
            "PersistentVolumeClaim",
            "ServiceAccount",
            "ClusterRole",
            "ClusterRoleBinding",
            "CronJob"
        ]
    );
}

#[test]
fn references_are_fetched_in_order() {
    let mut ajob = mk_ajob();
    ajob.metadata.finalizers = Some(vec![FINALIZER.into()]);
    ajob.spec.skill_ref = Some("review".into());
    ajob.spec.cluster_access_ref = Some("reader".into());
    ajob.spec.mcp_server_refs = vec!["github".into(), "search".into()];
    ajob.spec.repository_refs = vec!["app".into()];
    let (st, nx) = step(&ajob, Stage::Start, Event::Begin);
    let (_, nx, asked) = fetch_all(&ajob, st, nx);
    let asked: Vec<(RefKind, &str)> = asked.iter().map(|(k, n)| (*k, n.as_str())).collect();
    assert_eq!(
        asked,
        vec![
            (RefKind::AgentRuntime, "rt"),
            (RefKind::AgentAuth, "auth"),
            (RefKind::AgentRole, "role"),
            (RefKind::AgentSkill, "review"),
            (RefKind::ClusterAccess, "reader"),
            (RefKind::McpServer, "github"),
            (RefKind::McpServer, "search"),
            (RefKind::Repository, "app"),
        ]
    );
    match request(nx) {
        Request::Render(cfg) => {
            let servers: Vec<(&str, Option<&str>)> = cfg
                .mcp_servers
                .iter()
                .map(|s| (s.name.as_str(), s.command.as_deref()))
                .collect();
            assert_eq!(servers, vec![("github", Some("github-cmd")), ("search", Some("search-cmd"))]);
            assert_eq!(cfg.repositories.len(), 1);
            assert_eq!(cfg.repositories[0].name, "app");
            assert_eq!(cfg.skill.as_ref().map(|s| s.name.as_str()), Some("review"));
        }
        _ => panic!("expected rendering once everything is found"),
    }
}

#[test]
fn a_missing_later_reference_stops_resolution() {
    let mut ajob = mk_ajob();
    ajob.metadata.finalizers = Some(vec![FINALIZER.into()]);
    ajob.spec.mcp_server_refs = vec!["github".into(), "gone".into(), "never".into()];
    let (mut st, mut nx) = step(&ajob, Stage::Start, Event::Begin);
    let mut asked = vec![];
    loop {
        let name = match &nx {
            Next::Do(Request::Fetch { kind, name, .. }) => {
                asked.push(name.clone());
                if name == "gone" {
                    None
                } else {
                    Some(found(*kind, name))
                }
            }
            _ => break,
        };
        let (s2, n2) = step(&ajob, st, Event::Fetched(name));
        st = s2;
        nx = n2;
    }
    assert_eq!(asked, vec!["rt", "auth", "role", "github", "gone"]);
    match request(nx) {
        Request::PatchStatus(s) => assert_eq!(
            s.message.as_deref(),
            Some("resource McpServer/gone not found in namespace default")
        ),
        _ => panic!("expected the missing reference to be reported"),
    }
}

#[test]
fn a_resource_of_the_wrong_kind_is_out_of_order() {
    let mut ajob = mk_ajob();
    ajob.metadata.finalizers = Some(vec![FINALIZER.into()]);
    let (st, _) = step(&ajob, Stage::Start, Event::Begin);
    let (st, nx) = step(&ajob, st, Event::Fetched(Some(found(RefKind::AgentRole, "role"))));
    assert!(matches!(st, Stage::Finished));
    assert!(
        matches!(nx, Next::Fail(ReconcileError::InvalidSpec(m)) if m == "reconcile event out of order")
    );
}

#[test]
fn an_unreadable_clock_fails_a_suspension_report() {
    let mut ajob = mk_ajob();
    ajob.spec.suspend = true;
    ajob.metadata.finalizers = Some(vec![FINALIZER.into()]);
    let (st, _) = step(&ajob, Stage::Start, Event::Begin);
    let (st, nx) = step_at(&ajob, st, Event::Done, None);
    assert!(matches!(st, Stage::Finished));
    assert!(matches!(nx, Next::Fail(ReconcileError::Clock)));
}

#[test]
fn an_unreadable_clock_only_skips_the_missing_report() {
    let mut ajob = mk_ajob();
    ajob.metadata.finalizers = Some(vec![FINALIZER.into()]);
    let (st, _) = step(&ajob, Stage::Start, Event::Begin);
    let (st, nx) = step_at(&ajob, st, Event::Fetched(None), None);
    assert!(matches!(st, Stage::AnnouncingMissing));
    match request(nx) {
        Request::Publish { reason, .. } => assert_eq!(reason, "ResolveFailed"),
        _ => panic!("expected the event"),
    }
}

#[test]
fn the_clock_reading_is_the_transition_time() {
    let mut ajob = mk_ajob();
    ajob.spec.suspend = true;
    ajob.metadata.finalizers = Some(vec![FINALIZER.into()]);
    let (st, _) = step(&ajob, Stage::Start, Event::Begin);
    let (_, nx) = step_at(&ajob, st, Event::Done, Some("2024-05-06T07:08:09+00:00".into()));
    match request(nx) {
        Request::PatchStatus(s) => {
            assert_eq!(s.conditions[0].last_transition_time, "2024-05-06T07:08:09+00:00")
        }
        _ => panic!("expected the status"),
    }
}

#[test]
fn a_full_run_ends_within_its_bound() {
    let mut ajob = mk_ajob();
    ajob.spec.persist = true;
    ajob.spec.cluster_access_ref = Some("reader".into());
    ajob.spec.mcp_server_refs = vec!["github".into()];
    let bound = 11 + 5;
    let (mut st, mut nx) = step(&ajob, Stage::Start, Event::Begin);
    let mut requests = 0;
    loop {
        let event = match &nx {
            Next::Do(Request::Fetch { kind, name, .. }) => Event::Fetched(Some(found(*kind, name))),
            Next::Do(Request::Render(_)) => Event::Rendered("{}".into()),
            Next::Do(_) => Event::Done,
            Next::Finish(a) => {
                assert_eq!(*a, Action::Requeue(300));
                break;
            }
            Next::Fail(e) => panic!("failed: {e:?}"),
        };
        requests += 1;
        assert!(requests <= bound);
        let (s2, n2) = step(&ajob, st, event);
        st = s2;
        nx = n2;
    }
    assert!(matches!(st, Stage::Finished));
    assert_eq!(requests, 15);
}
