//! The custom resources of the `thurkube.thurbeen.eu/v1alpha1` API group.

pub mod agent_auth;
pub mod agent_job;
pub mod agent_role;
pub mod agent_runtime;
pub mod agent_skill;
pub mod cluster_access;
pub mod definition;
pub mod mcp_server;
pub mod repository;

pub use agent_auth::{AgentAuth, AgentAuthSpec, SecretKeyRef};
pub use agent_job::{AgentJob, AgentJobSpec, AgentJobStatus, Condition, OwnedResource};
pub use agent_role::{AgentRole, AgentRoleSpec};
pub use agent_runtime::{AgentRuntime, AgentRuntimeSpec};
pub use agent_skill::{AgentSkill, AgentSkillSpec};
pub use cluster_access::{ClusterAccess, ClusterAccessSpec};
pub use mcp_server::{McpServer, McpServerSpec};
pub use repository::{Repository, RepositorySpec};
