use thurkube::controller::builders::{
    agent_config, cluster_rbac_name, cluster_role, cluster_role_binding, config_hash,
    config_name, configmap, cron_job, cron_name, hex_short, job, job_name, labels, owner_label_selector,
    pvc, pvc_name, runner_name, service_account,
};
use thurkube::controller::resolve::Resolved;
use thurkube::controller::{LABEL_AGENTJOB, LABEL_AGENTJOB_NS, LABEL_MANAGED_BY, LABEL_OWNER_UID};
use thurkube::crd::{
    AgentAuth, AgentAuthSpec, AgentJob, AgentJobSpec, AgentRole, AgentRoleSpec, AgentRuntime,
    AgentRuntimeSpec, AgentSkill, AgentSkillSpec, ClusterAccess, ClusterAccessSpec, McpServer,
    McpServerSpec, Repository, RepositorySpec, SecretKeyRef,
};
use thurkube::k8s::env::{EnvFromSource, EnvSource, EnvVar, ResourceRequirements};
use thurkube::k8s::meta::{ObjectMeta, StringMap};
use thurkube::k8s::rbac::PolicyRule;

fn meta() -> ObjectMeta {
    ObjectMeta::empty()
}

fn mk_ajob() -> AgentJob {
    let mut m = meta();
    m.name = Some("hello".into());
    m.namespace = Some("default".into());
    m.uid = Some("uid-123".into());
    AgentJob {
        metadata: m,
        spec: AgentJobSpec {
            schedule: None,
            timezone: "Etc/UTC".into(),
            suspend: false,
            runtime_ref: "rt".into(),
            auth_ref: "auth".into(),
            role_ref: "role".into(),
            skill_ref: None,
            cluster_access_ref: None,
            mcp_server_refs: vec![],
            repository_refs: vec![],
            prompt: "hi".into(),
            instructions: None,
            model: None,
            resources: None,
            timeout_seconds: 3600,
            env: vec![],
            env_from: vec![],
            persist: false,
        },
        status: None,
    }
}

fn mk_resolved() -> Resolved {
    Resolved {
        runtime: AgentRuntime {
            metadata: meta(),
            spec: AgentRuntimeSpec {
                image: "img:latest".into(),
                command: vec![],
                auth_env_var: "TOKEN".into(),
                config_path: "/etc/agent".into(),
                persist_path: "/var/agent".into(),
            },
        },
        auth: AgentAuth {
            metadata: meta(),
            spec: AgentAuthSpec {
                secret_ref: SecretKeyRef {
                    name: "tok".into(),
                    key: "TOKEN".into(),
                },
            },
        },
        role: AgentRole {
            metadata: meta(),
            spec: AgentRoleSpec {
                allowed_tools: vec!["Bash".into()],
            },
        },
        skill: None,
        cluster_access: None,
        mcp_servers: vec![],
        repositories: vec![],
    }
}

#[test]
fn build_job_basic() {
    let ajob = mk_ajob();
    let r = mk_resolved();
    let j = job(&ajob, &r, "default", "deadbeef");
    assert_eq!(j.metadata.name.as_deref(), Some("hello-deadbeef"));
    let spec = j.spec.unwrap();
    let container = &spec.template.spec.unwrap().containers[0];
    assert_eq!(container.image.as_deref(), Some("img:latest"));
    let env = container.env.as_ref().unwrap();
    assert!(env.iter().any(|e| e.name == "TOKEN"));
}

#[test]
fn build_cronjob_has_schedule() {
    let ajob = mk_ajob();
    let r = mk_resolved();
    let cj = cron_job(&ajob, &r, "default", "0 */6 * * *");
    let spec = cj.spec.unwrap();
    assert_eq!(spec.schedule, "0 */6 * * *");
    assert_eq!(spec.time_zone.as_deref(), Some("Etc/UTC"));
    assert_eq!(spec.suspend, Some(false));
}

#[test]
fn configmap_contains_agent_json() {
    let ajob = mk_ajob();
    let cm = configmap(&ajob, "default", r#"{"prompt":"hi"}"#);
    assert!(cm.data.unwrap().get("agent.json").is_some());
}

#[test]
fn config_hash_is_stable() {
    assert_eq!(config_hash("x"), config_hash("x"));
    assert_ne!(config_hash("x"), config_hash("y"));
    assert_eq!(config_hash("x").len(), 16);
}

#[test]
fn labels_include_owner_uid() {
    let ajob = mk_ajob();
    let l = labels(&ajob);
    assert_eq!(l.get(LABEL_OWNER_UID).map(String::as_str), Some("uid-123"));
    assert_eq!(l.get(LABEL_AGENTJOB).map(String::as_str), Some("hello"));
}

#[test]
fn config_hash_is_the_sha256_prefix() {
    assert_eq!(config_hash("x"), "2d711642b726b044");
    assert_eq!(config_hash(""), "e3b0c44298fc1c14");
    assert!(config_hash("anything at all")
        .chars()
        .all(|c| c.is_ascii_digit() || ('a'..='f').contains(&c)));
}

#[test]
fn labels_are_ordered_and_complete() {
    let ajob = mk_ajob();
    let l = labels(&ajob);
    let keys: Vec<&str> = l.entries.iter().map(|(k, _)| k.as_str()).collect();
    assert_eq!(
        keys,
        vec![LABEL_MANAGED_BY, LABEL_AGENTJOB, LABEL_AGENTJOB_NS, LABEL_OWNER_UID]
    );
    assert_eq!(l.get(LABEL_MANAGED_BY).map(String::as_str), Some("thurkube"));
    assert_eq!(l.get(LABEL_AGENTJOB_NS).map(String::as_str), Some("default"));
    assert_eq!(l.get("missing"), None);

    let mut bare = mk_ajob();
    bare.metadata.namespace = None;
    bare.metadata.uid = None;
    assert_eq!(labels(&bare).entries.len(), 2);
}

#[test]
fn names_of_children() {
    let ajob = mk_ajob();
    assert_eq!(config_name(&ajob), "hello-config");
    assert_eq!(runner_name(&ajob), "hello-runner");
    assert_eq!(pvc_name(&ajob), "hello-data");
    assert_eq!(cron_name(&ajob), "hello");
    assert_eq!(job_name(&ajob, "abc"), "hello-abc");
    assert_eq!(cluster_rbac_name(&ajob), "thurkube-default-hello");

    let mut other = mk_ajob();
    other.metadata.namespace = Some("agents".into());
    assert_eq!(cluster_rbac_name(&other), "thurkube-agents-hello");
    other.metadata.namespace = None;
    assert_eq!(cluster_rbac_name(&other), "thurkube-default-hello");

    let mut generated = mk_ajob();
    generated.metadata.name = None;
    generated.metadata.generate_name = Some("gen-".into());
    assert_eq!(config_name(&generated), "gen--config");
    generated.metadata.generate_name = None;
    assert_eq!(config_name(&generated), "-config");
}

#[test]
fn selector_matches_owner_label() {
    let ajob = mk_ajob();
    let sel = owner_label_selector(&ajob).unwrap();
    assert_eq!(sel, "thurkube.thurbeen.eu/owner-uid=uid-123");
    let (k, v) = sel.split_once('=').unwrap();
    assert_eq!(labels(&ajob).get(k).map(String::as_str), Some(v));

    let mut no_uid = mk_ajob();
    no_uid.metadata.uid = None;
    assert_eq!(owner_label_selector(&no_uid), None);
}

#[test]
fn namespaced_children_are_owned() {
    let ajob = mk_ajob();
    let cm = configmap(&ajob, "default", "{}");
    assert_eq!(cm.metadata.namespace.as_deref(), Some("default"));
    let owners = cm.metadata.owner_references.unwrap();
    assert_eq!(owners.len(), 1);
    assert_eq!(owners[0].api_version, "thurkube.thurbeen.eu/v1alpha1");
    assert_eq!(owners[0].kind, "AgentJob");
    assert_eq!(owners[0].name, "hello");
    assert_eq!(owners[0].uid, "uid-123");
    assert_eq!(owners[0].controller, Some(true));
    assert_eq!(owners[0].block_owner_deletion, Some(true));

    let mut no_uid = mk_ajob();
    no_uid.metadata.uid = None;
    assert!(configmap(&no_uid, "default", "{}").metadata.owner_references.is_none());
}

#[test]
fn pvc_and_service_account() {
    let ajob = mk_ajob();
    let c = pvc(&ajob, "default");
    assert_eq!(c.metadata.name.as_deref(), Some("hello-data"));
    let spec = c.spec.unwrap();
    assert_eq!(spec.access_modes.unwrap(), vec!["ReadWriteOnce".to_string()]);
    let req = spec.resources.unwrap().requests.unwrap();
    assert_eq!(req.get("storage").map(String::as_str), Some("1Gi"));

    let sa = service_account(&ajob, "default");
    assert_eq!(sa.metadata.name.as_deref(), Some("hello-runner"));
    assert_eq!(sa.automount_service_account_token, Some(true));
}

#[test]
fn cluster_rbac_binds_runner() {
    let mut ajob = mk_ajob();
    ajob.spec.cluster_access_ref = Some("reader".into());
    let mut r = mk_resolved();
    let cr = cluster_role(&ajob, &r);
    assert!(cr.rules.is_none());
    assert!(cr.metadata.namespace.is_none());
    assert!(cr.metadata.owner_references.is_none());
    r.cluster_access = Some(ClusterAccess {
        metadata: meta(),
        spec: ClusterAccessSpec {
            rules: vec![PolicyRule {
                api_groups: Some(vec!["".into()]),
                non_resource_urls: None,
                resource_names: None,
                resources: Some(vec!["pods".into()]),
                verbs: vec!["get".into(), "list".into()],
            }],
        },
    });
    let cr = cluster_role(&ajob, &r);
    assert_eq!(cr.metadata.name.as_deref(), Some("thurkube-default-hello"));
    let rules = cr.rules.unwrap();
    assert_eq!(rules.len(), 1);
    assert_eq!(rules[0].verbs, vec!["get".to_string(), "list".to_string()]);

    let crb = cluster_role_binding(&ajob, "default");
    assert_eq!(crb.role_ref.kind, "ClusterRole");
    assert_eq!(crb.role_ref.api_group, "rbac.authorization.k8s.io");
    assert_eq!(Some(crb.role_ref.name.as_str()), cr.metadata.name.as_deref());
    let subjects = crb.subjects.unwrap();
    assert_eq!(subjects.len(), 1);
    assert_eq!(subjects[0].kind, "ServiceAccount");
    assert_eq!(subjects[0].name, "hello-runner");
    assert_eq!(subjects[0].namespace.as_deref(), Some("default"));
}

#[test]
fn pod_is_locked_down_and_mounts_its_volumes() {
    let mut ajob = mk_ajob();
    ajob.spec.persist = true;
    ajob.spec.env = vec![EnvVar {
        name: "REPOS".into(),
        value: Some("Thurbeen/thurspace".into()),
        value_from: None,
    }];
    let r = mk_resolved();
    let j = job(&ajob, &r, "default", "h");
    let js = j.spec.unwrap();
    assert_eq!(js.backoff_limit, Some(0));
    assert_eq!(js.active_deadline_seconds, Some(3600));
    assert_eq!(js.ttl_seconds_after_finished, Some(86_400));
    let pod = js.template.spec.unwrap();
    assert_eq!(pod.restart_policy.as_deref(), Some("Never"));
    assert_eq!(pod.service_account_name.as_deref(), Some("default"));
    assert_eq!(pod.automount_service_account_token, Some(false));
    let psc = pod.security_context.unwrap();
    assert_eq!(psc.run_as_non_root, Some(true));
    assert_eq!(psc.run_as_user, Some(65532));
    assert_eq!(psc.run_as_group, Some(65532));
    assert_eq!(psc.fs_group, Some(65532));
    assert_eq!(psc.seccomp_profile.unwrap().type_, "RuntimeDefault");

    let c = &pod.containers[0];
    assert_eq!(c.name, "agent");
    assert!(c.command.is_none());
    assert!(c.env_from.is_none());
    let sc = c.security_context.as_ref().unwrap();
    assert_eq!(sc.allow_privilege_escalation, Some(false));
    assert_eq!(sc.read_only_root_filesystem, Some(true));
    assert_eq!(
        sc.capabilities.as_ref().unwrap().drop.as_ref().unwrap(),
        &vec!["ALL".to_string()]
    );
    let env: Vec<&str> = c.env.as_ref().unwrap().iter().map(|e| e.name.as_str()).collect();
    assert_eq!(env, vec!["REPOS", "TOKEN", "HOME"]);
    let token = &c.env.as_ref().unwrap()[1];
    let secret = token.value_from.as_ref().unwrap().secret_key_ref.as_ref().unwrap();
    assert_eq!(secret.name, "tok");
    assert_eq!(secret.key, "TOKEN");
    assert_eq!(secret.optional, Some(false));
    assert_eq!(
        c.env.as_ref().unwrap()[2].value.as_deref(),
        Some("/home/agent")
    );

    let mounts: Vec<(&str, &str)> = c
        .volume_mounts
        .as_ref()
        .unwrap()
        .iter()
        .map(|m| (m.name.as_str(), m.mount_path.as_str()))
        .collect();
    assert_eq!(
        mounts,
        vec![
            ("agent-config", "/etc/agent"),
            ("agent-persist", "/var/agent"),
            ("tmp", "/tmp"),
            ("home", "/home/agent"),
        ]
    );
    let vols = pod.volumes.unwrap();
    let names: Vec<&str> = vols.iter().map(|v| v.name.as_str()).collect();
    assert_eq!(names, vec!["agent-config", "agent-persist", "tmp", "home"]);
    assert_eq!(vols[0].config_map.as_ref().unwrap().name, "hello-config");
    assert_eq!(
        vols[1].persistent_volume_claim.as_ref().unwrap().claim_name,
        "hello-data"
    );
    assert!(vols[2].empty_dir && vols[3].empty_dir);
    let res = c.resources.as_ref().unwrap();
    assert!(res.claims.is_none() && res.limits.is_none() && res.requests.is_none());
}

#[test]
fn container_takes_command_env_from_and_resources() {
    let mut ajob = mk_ajob();
    ajob.spec.cluster_access_ref = Some("reader".into());
    ajob.spec.env_from = vec![EnvFromSource {
        config_map_ref: Some(EnvSource {
            name: "settings".into(),
            optional: None,
        }),
        prefix: None,
        secret_ref: None,
    }];
    ajob.spec.resources = Some(ResourceRequirements {
        claims: None,
        limits: Some(StringMap {
            entries: vec![("cpu".into(), "1".into())],
        }),
        requests: None,
    });
    let mut r = mk_resolved();
    r.runtime.spec.command = vec!["/entrypoint.sh".into()];
    let cj = cron_job(&ajob, &r, "default", "@daily");
    let pod = cj.spec.unwrap().job_template.spec.unwrap().template.spec.unwrap();
    assert_eq!(pod.service_account_name.as_deref(), Some("hello-runner"));
    assert_eq!(pod.automount_service_account_token, Some(true));
    let c = &pod.containers[0];
    assert_eq!(c.command.as_ref().unwrap(), &vec!["/entrypoint.sh".to_string()]);
    assert_eq!(c.env_from.as_ref().unwrap().len(), 1);
    let limits = c.resources.as_ref().unwrap().limits.as_ref().unwrap();
    assert_eq!(limits.get("cpu").map(String::as_str), Some("1"));
    assert_eq!(c.volume_mounts.as_ref().unwrap().len(), 3);
}

#[test]
fn agent_config_follows_references() {
    let mut ajob = mk_ajob();
    ajob.spec.instructions = Some("Extra context.".into());
    ajob.spec.model = Some("sonnet".into());
    let mut r = mk_resolved();
    r.skill = Some(AgentSkill {
        metadata: meta(),
        spec: AgentSkillSpec {
            repo: "Thurbeen/thurbeen-skills".into(),
            name: "bump-pr-fixer".into(),
            ref_: "main".into(),
        },
    });
    r.mcp_servers = vec![(
        "gmail".into(),
        McpServer {
            metadata: meta(),
            spec: McpServerSpec {
                command: Some("npx".into()),
                args: vec!["-y".into(), "gmail-mcp".into()],
                url: None,
            },
        },
    )];
    r.repositories = vec![(
        "thurspace".into(),
        Repository {
            metadata: meta(),
            spec: RepositorySpec {
                owner: "Thurbeen".into(),
                name: "thurspace".into(),
                token_secret_ref: None,
            },
        },
    )];
    let cfg = agent_config(&ajob, &r);
    assert_eq!(cfg.prompt, "hi");
    assert_eq!(cfg.instructions.as_deref(), Some("Extra context."));
    assert_eq!(cfg.model.as_deref(), Some("sonnet"));
    assert_eq!(cfg.allowed_tools, vec!["Bash".to_string()]);
    let skill = cfg.skill.unwrap();
    assert_eq!(skill.name, "bump-pr-fixer");
    assert_eq!(skill.ref_, "main");
    assert_eq!(cfg.mcp_servers.len(), 1);
    assert_eq!(cfg.mcp_servers[0].name, "gmail");
    assert_eq!(cfg.mcp_servers[0].args, vec!["-y".to_string(), "gmail-mcp".to_string()]);
    assert_eq!(cfg.repositories[0].owner, "Thurbeen");
    assert_eq!(cfg.repositories[0].repo, "thurspace");
}

#[test]
fn job_name_changes_with_configuration() {
    let ajob = mk_ajob();
    let a = job_name(&ajob, &config_hash("{\"prompt\":\"a\"}"));
    let b = job_name(&ajob, &config_hash("{\"prompt\":\"b\"}"));
    assert_ne!(a, b);
}

#[test]
fn hex_short_takes_the_first_eight_bytes() {
    let bytes = [0x00u8, 0x01, 0x0f, 0x10, 0x7f, 0x80, 0xab, 0xff, 0x12, 0x34];
    assert_eq!(hex_short(&bytes), "00010f107f80abff");
}
