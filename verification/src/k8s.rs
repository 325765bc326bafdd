//! Plain-value models of the Kubernetes objects that the controller reads
//! and writes. Each field mirrors the field of the same name in the API.

pub mod batch;
pub mod env;
pub mod meta;
pub mod pod;
pub mod rbac;
