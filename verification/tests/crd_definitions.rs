use thurkube::crd::agent_job::{default_timeout, default_timezone};
use thurkube::crd::agent_skill::default_ref;
use thurkube::crd::definition::CustomResourceDefinition;
use thurkube::crd::{
    AgentAuth, AgentJob, AgentRole, AgentRuntime, AgentSkill, ClusterAccess, McpServer, Repository,
};

#[test]
fn agent_auth_crd_generation() {
    let crd = AgentAuth::crd();
    assert_eq!(
        crd.metadata.name.unwrap(),
        "agentauths.thurkube.thurbeen.eu"
    );
}

#[test]
fn agent_job_crd_generation() {
    let crd = AgentJob::crd();
    assert_eq!(crd.metadata.name.unwrap(), "agentjobs.thurkube.thurbeen.eu");
}

#[test]
fn agent_role_crd_generation() {
    let crd = AgentRole::crd();
    assert_eq!(
        crd.metadata.name.unwrap(),
        "agentroles.thurkube.thurbeen.eu"
    );
}

#[test]
fn agent_runtime_crd_generation() {
    let crd = AgentRuntime::crd();
    assert_eq!(
        crd.metadata.name.unwrap(),
        "agentruntimes.thurkube.thurbeen.eu"
    );
}

#[test]
fn agent_skill_crd_generation() {
    let crd = AgentSkill::crd();
    assert_eq!(
        crd.metadata.name.unwrap(),
        "agentskills.thurkube.thurbeen.eu"
    );
}

#[test]
fn cluster_access_crd_generation() {
    let crd = ClusterAccess::crd();
    assert_eq!(
        crd.metadata.name.unwrap(),
        "clusteraccesses.thurkube.thurbeen.eu"
    );
}

#[test]
fn mcp_server_crd_generation() {
    let crd = McpServer::crd();
    assert_eq!(
        crd.metadata.name.unwrap(),
        "mcpservers.thurkube.thurbeen.eu"
    );
}

#[test]
fn repository_crd_generation() {
    let crd = Repository::crd();
    assert_eq!(
        crd.metadata.name.unwrap(),
        "repositories.thurkube.thurbeen.eu"
    );
}

#[test]
fn every_definition_is_namespaced_v1alpha1_of_the_group() {
    let defs = vec![
        (AgentJob::crd(), "AgentJob", "aj"),
        (AgentRuntime::crd(), "AgentRuntime", "ar"),
        (AgentAuth::crd(), "AgentAuth", "aa"),
        (AgentRole::crd(), "AgentRole", "arl"),
        (AgentSkill::crd(), "AgentSkill", "ask"),
        (McpServer::crd(), "McpServer", "mcp"),
        (Repository::crd(), "Repository", "repo"),
        (ClusterAccess::crd(), "ClusterAccess", "ca"),
    ];
    for (d, kind, short) in &defs {
        assert_eq!(d.spec.group, "thurkube.thurbeen.eu");
        assert_eq!(d.spec.names.kind, *kind);
        assert_eq!(d.spec.names.singular, kind.to_ascii_lowercase());
        assert_eq!(d.spec.names.short_names, vec![short.to_string()]);
        assert_eq!(d.spec.scope, "Namespaced");
        assert_eq!(d.spec.versions.len(), 1);
        assert_eq!(d.spec.versions[0].name, "v1alpha1");
        assert!(d.spec.versions[0].served && d.spec.versions[0].storage);
    }
}

#[test]
fn only_agent_job_has_status_and_columns() {
    let aj = AgentJob::crd();
    assert!(aj.spec.versions[0].status_subresource);
    let cols: Vec<(&str, &str, &str)> = aj.spec.versions[0]
        .printer_columns
        .iter()
        .map(|c| (c.name.as_str(), c.type_.as_str(), c.json_path.as_str()))
        .collect();
    assert_eq!(
        cols,
        vec![
            ("Schedule", "string", ".spec.schedule"),
            ("Suspended", "boolean", ".spec.suspend"),
            ("Phase", "string", ".status.phase"),
            ("Last Run", "date", ".status.lastRunTime"),
        ]
    );
    let rt = AgentRuntime::crd();
    assert!(!rt.spec.versions[0].status_subresource);
    assert!(rt.spec.versions[0].printer_columns.is_empty());
}

#[test]
fn defaults_of_optional_fields() {
    assert_eq!(default_timezone(), "Etc/UTC");
    assert_eq!(default_timeout(), 3600);
    assert_eq!(default_ref(), "main");
}

fn assert_crd_valid(crd: CustomResourceDefinition, expected_group: &str, expected_kind: &str) {
    let name = crd.metadata.name.as_deref().unwrap();
    assert!(
        name.ends_with(expected_group),
        "CRD name {name} must end with {expected_group}"
    );
    assert_eq!(crd.spec.group, "thurkube.thurbeen.eu");
    assert_eq!(crd.spec.names.kind, expected_kind, "CRD kind mismatch");
}

#[test]
fn agent_job_crd() {
    assert_crd_valid(AgentJob::crd(), "thurkube.thurbeen.eu", "AgentJob");
}

#[test]
fn agent_runtime_crd() {
    assert_crd_valid(AgentRuntime::crd(), "thurkube.thurbeen.eu", "AgentRuntime");
}

#[test]
fn agent_auth_crd() {
    assert_crd_valid(AgentAuth::crd(), "thurkube.thurbeen.eu", "AgentAuth");
}

#[test]
fn agent_role_crd() {
    assert_crd_valid(AgentRole::crd(), "thurkube.thurbeen.eu", "AgentRole");
}

#[test]
fn agent_skill_crd() {
    assert_crd_valid(AgentSkill::crd(), "thurkube.thurbeen.eu", "AgentSkill");
}

#[test]
fn mcp_server_crd() {
    assert_crd_valid(McpServer::crd(), "thurkube.thurbeen.eu", "McpServer");
}

#[test]
fn repository_crd() {
    assert_crd_valid(Repository::crd(), "thurkube.thurbeen.eu", "Repository");
}

#[test]
fn cluster_access_crd() {
    assert_crd_valid(ClusterAccess::crd(), "thurkube.thurbeen.eu", "ClusterAccess");
}

#[test]
fn all_crds_have_v1alpha1_version() {
    let crds = vec![
        AgentJob::crd(),
        AgentRuntime::crd(),
        AgentAuth::crd(),
        AgentRole::crd(),
        AgentSkill::crd(),
        McpServer::crd(),
        Repository::crd(),
        ClusterAccess::crd(),
    ];
    for crd in &crds {
        let versions: Vec<&str> = crd.spec.versions.iter().map(|v| v.name.as_str()).collect();
        assert!(
            versions.contains(&"v1alpha1"),
            "CRD {} must have v1alpha1 version, got {:?}",
            crd.metadata.name.as_deref().unwrap(),
            versions
        );
    }
}
