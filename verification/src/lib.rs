//! A Kubernetes controller that runs agents as batch workloads: the
//! custom resources it serves, and the decisions its reconciler makes.

pub mod controller;
pub mod crd;
pub mod health;
pub mod k8s;
