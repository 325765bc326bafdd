//! AgentJob controller: shared names, errors and requeue decisions.

pub mod agentjob;
pub mod builders;
pub mod clock;
pub mod finalizer;
pub mod reconcile;
pub mod resolve;
pub mod status;

use vstd::prelude::*;

verus! {

/// Field manager used for server-side apply.
pub const FIELD_MANAGER: &'static str = "thurkube";

/// Finalizer that guards cleanup of cluster-scoped RBAC.
pub const FINALIZER: &'static str = "thurkube.thurbeen.eu/finalizer";

/// What the controller asks of the runtime after a reconcile.
#[derive(Clone, Copy, Debug, PartialEq, Eq, Structural)]
pub enum Action {
    /// Reconcile again after this many seconds.
    Requeue(u64),
    /// Reconcile again only when a watched object changes.
    AwaitChange,
}

/// Requeue for the steady state: five minutes.
pub fn requeue_steady() -> (a: Action)
    ensures
        a == Action::Requeue(300),
{
    Action::Requeue(300)
}

/// Requeue after an error or a missing reference: thirty seconds.
pub fn requeue_short() -> (a: Action)
    ensures
        a == Action::Requeue(30),
{
    Action::Requeue(30)
}

/// Label naming the manager of an object.
pub const LABEL_MANAGED_BY: &'static str = "app.kubernetes.io/managed-by";

/// Label naming the AgentJob that owns an object.
pub const LABEL_AGENTJOB: &'static str = "thurkube.thurbeen.eu/agentjob";

/// Label naming the namespace of the AgentJob that owns an object.
pub const LABEL_AGENTJOB_NS: &'static str = "thurkube.thurbeen.eu/agentjob-namespace";

/// Label holding the uid of the AgentJob that owns an object.
pub const LABEL_OWNER_UID: &'static str = "thurkube.thurbeen.eu/owner-uid";

#[verifier::external_type_specification]
#[verifier::external_body]
pub struct ExKubeError(kube::Error);

#[verifier::external_type_specification]
#[verifier::external_body]
pub struct ExSerdeJsonError(serde_json::Error);

/// Why a reconcile failed.
#[derive(Debug)]
pub enum ReconcileError {
    /// The Kubernetes API refused or failed a request.
    Kube(kube::Error),
    /// A referenced resource does not exist.
    RefNotFound { kind: &'static str, name: String, namespace: String },
    /// The AgentJob cannot be reconciled as written.
    InvalidSpec(String),
    /// A document could not be serialised.
    Serde(serde_json::Error),
    /// The system clock could not be read as a time after the Unix epoch.
    Clock,
}

} // verus!
