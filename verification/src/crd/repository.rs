//! Repository: a GitHub repository and the token to reach it.

use vstd::prelude::*;
use crate::crd::agent_auth::SecretKeyRef;
use crate::crd::definition::{definition, CustomResourceDefinition};
use crate::k8s::meta::ObjectMeta;

verus! {

/// Defines a GitHub repository with its access token.
#[derive(Clone, Debug)]
pub struct RepositorySpec {
    /// GitHub organization or user.
    pub owner: String,
    /// Repository name.
    pub name: String,
    /// Reference to a Secret key containing the GitHub token.
    pub token_secret_ref: Option<SecretKeyRef>,
}

/// A Repository resource.
#[derive(Clone, Debug)]
pub struct Repository {
    pub metadata: ObjectMeta,
    pub spec: RepositorySpec,
}

impl Repository {
    /// The CustomResourceDefinition of Repository.
    pub fn crd() -> (d: CustomResourceDefinition)
        ensures
            d.declares("Repository"@, "repositories"@, "repository"@, "repo"@, false),
            d.no_printer_columns(),
    {
        definition("Repository", "repositories", "repository", "repo", false)
    }
}

} // verus!
