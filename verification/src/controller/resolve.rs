//! The resources an AgentJob references: which to fetch, in what order,
//! and how the fetched ones are gathered.

use vstd::prelude::*;
use crate::controller::ReconcileError;
use crate::crd::agent_auth::AgentAuth;
use crate::crd::agent_job::AgentJob;
use crate::crd::agent_role::AgentRole;
use crate::crd::agent_runtime::AgentRuntime;
use crate::crd::agent_skill::AgentSkill;
use crate::crd::cluster_access::ClusterAccess;
use crate::crd::mcp_server::McpServer;
use crate::crd::repository::Repository;

verus! {

/// Everything an AgentJob references, fetched from its namespace.
pub struct Resolved {
    pub runtime: AgentRuntime,
    pub auth: AgentAuth,
    pub role: AgentRole,
    pub skill: Option<AgentSkill>,
    pub cluster_access: Option<ClusterAccess>,
    /// Each McpServer with the name it was referenced by, in order.
    pub mcp_servers: Vec<(String, McpServer)>,
    /// Each Repository with the name it was referenced by, in order.
    pub repositories: Vec<(String, Repository)>,
}

/// The namespace of the AgentJob; an error when it has none.
pub fn require_namespace(ajob: &AgentJob) -> (r: Result<String, ReconcileError>)
    ensures
        r is Ok <==> ajob.metadata.namespace is Some,
        r matches Ok(ns) ==> ajob.metadata.namespace matches Some(n) && ns@ == n@,
        r matches Err(e) ==> e matches ReconcileError::InvalidSpec(m) && m@
            == "AgentJob missing namespace"@,
{
    match &ajob.metadata.namespace {
        Some(ns) => Ok(ns.clone()),
        None => Err(ReconcileError::InvalidSpec("AgentJob missing namespace".to_owned())),
    }
}

/// A kind of resource an AgentJob references.
#[derive(Clone, Copy, Debug, PartialEq, Eq, Structural)]
pub enum RefKind {
    AgentRuntime,
    AgentAuth,
    AgentRole,
    AgentSkill,
    ClusterAccess,
    McpServer,
    Repository,
}

/// The API kind of a referenced resource.
pub open spec fn kind_name_view(k: RefKind) -> Seq<char> {
    match k {
        RefKind::AgentRuntime => "AgentRuntime"@,
        RefKind::AgentAuth => "AgentAuth"@,
        RefKind::AgentRole => "AgentRole"@,
        RefKind::AgentSkill => "AgentSkill"@,
        RefKind::ClusterAccess => "ClusterAccess"@,
        RefKind::McpServer => "McpServer"@,
        RefKind::Repository => "Repository"@,
    }
}

impl RefKind {
    /// The API kind of this resource.
    pub fn kind_name(&self) -> (s: &'static str)
        ensures
            s@ == kind_name_view(*self),
    {
        match self {
            RefKind::AgentRuntime => "AgentRuntime",
            RefKind::AgentAuth => "AgentAuth",
            RefKind::AgentRole => "AgentRole",
            RefKind::AgentSkill => "AgentSkill",
            RefKind::ClusterAccess => "ClusterAccess",
            RefKind::McpServer => "McpServer",
            RefKind::Repository => "Repository",
        }
    }
}

/// A reference to fetch: the resource of this kind and name.
pub struct Lookup {
    pub kind: RefKind,
    pub name: String,
}

/// A lookup as a kind and a name.
pub open spec fn lookup_view(l: Lookup) -> (RefKind, Seq<char>) {
    (l.kind, l.name@)
}

/// Lookups as kinds and names.
pub open spec fn lookups_view(ls: Seq<Lookup>) -> Seq<(RefKind, Seq<char>)> {
    ls.map_values(|l: Lookup| lookup_view(l))
}

/// The named references of one kind, in order.
pub open spec fn refs_of(kind: RefKind, names: Seq<String>) -> Seq<(RefKind, Seq<char>)> {
    names.map_values(|n: String| (kind, n@))
}

/// The optional reference of one kind.
pub open spec fn opt_ref(kind: RefKind, name: Option<String>) -> Seq<(RefKind, Seq<char>)> {
    match name {
        Some(n) => seq![(kind, n@)],
        None => Seq::empty(),
    }
}

/// Every reference of the AgentJob, in the order they are fetched: its
/// runtime, auth and role, its skill and cluster access when given, then
/// its MCP servers and repositories as listed.
pub open spec fn references(ajob: AgentJob) -> Seq<(RefKind, Seq<char>)> {
    let s = ajob.spec;
    seq![
        (RefKind::AgentRuntime, s.runtime_ref@),
        (RefKind::AgentAuth, s.auth_ref@),
        (RefKind::AgentRole, s.role_ref@),
    ] + opt_ref(RefKind::AgentSkill, s.skill_ref) + opt_ref(RefKind::ClusterAccess, s.cluster_access_ref)
        + refs_of(RefKind::McpServer, s.mcp_server_refs@) + refs_of(RefKind::Repository, s.repository_refs@)
}

fn push_refs(out: &mut Vec<Lookup>, kind: RefKind, names: &Vec<String>)
    ensures
        lookups_view(final(out)@) == lookups_view(old(out)@) + refs_of(kind, names@),
{
    let ghost start = lookups_view(out@);
    let mut i: usize = 0;
    while i < names.len()
        invariant
            i <= names.len(),
            lookups_view(out@) == start + refs_of(kind, names@.take(i as int)),
        decreases names.len() - i,
    {
        let ghost before = out@;
        out.push(Lookup { kind, name: names[i].clone() });
        proof {
            assert(lookups_view(out@) =~= lookups_view(before).push((kind, names@[i as int]@)));
            assert(refs_of(kind, names@.take(i + 1)) =~= refs_of(kind, names@.take(i as int)).push(
                (kind, names@[i as int]@),
            ));
            assert(lookups_view(out@) =~= start + refs_of(kind, names@.take(i + 1)));
        }
        i = i + 1;
    }
    assert(names@.take(names.len() as int) == names@);
}

fn push_opt_ref(out: &mut Vec<Lookup>, kind: RefKind, name: &Option<String>)
    ensures
        lookups_view(final(out)@) == lookups_view(old(out)@) + opt_ref(kind, *name),
{
    match name {
        Some(n) => {
            out.push(Lookup { kind, name: n.clone() });
        },
        None => {},
    }
    assert(lookups_view(out@) == lookups_view(old(out)@) + opt_ref(kind, *name));
}

/// The references of the AgentJob, in the order they are fetched.
pub fn lookups(ajob: &AgentJob) -> (ls: Vec<Lookup>)
    ensures
        lookups_view(ls@) == references(*ajob),
{
    let s = &ajob.spec;
    let mut ls: Vec<Lookup> = Vec::new();
    ls.push(Lookup { kind: RefKind::AgentRuntime, name: s.runtime_ref.clone() });
    ls.push(Lookup { kind: RefKind::AgentAuth, name: s.auth_ref.clone() });
    ls.push(Lookup { kind: RefKind::AgentRole, name: s.role_ref.clone() });
    push_opt_ref(&mut ls, RefKind::AgentSkill, &s.skill_ref);
    push_opt_ref(&mut ls, RefKind::ClusterAccess, &s.cluster_access_ref);
    push_refs(&mut ls, RefKind::McpServer, &s.mcp_server_refs);
    push_refs(&mut ls, RefKind::Repository, &s.repository_refs);
    ls
}

/// A fetched resource.
pub enum Found {
    AgentRuntime(AgentRuntime),
    AgentAuth(AgentAuth),
    AgentRole(AgentRole),
    AgentSkill(AgentSkill),
    ClusterAccess(ClusterAccess),
    McpServer(McpServer),
    Repository(Repository),
}

/// The kind of a fetched resource.
pub open spec fn found_kind(f: Found) -> RefKind {
    match f {
        Found::AgentRuntime(_) => RefKind::AgentRuntime,
        Found::AgentAuth(_) => RefKind::AgentAuth,
        Found::AgentRole(_) => RefKind::AgentRole,
        Found::AgentSkill(_) => RefKind::AgentSkill,
        Found::ClusterAccess(_) => RefKind::ClusterAccess,
        Found::McpServer(_) => RefKind::McpServer,
        Found::Repository(_) => RefKind::Repository,
    }
}

impl Found {
    /// The kind of this resource.
    pub fn kind(&self) -> (k: RefKind)
        ensures
            k == found_kind(*self),
    {
        match self {
            Found::AgentRuntime(_) => RefKind::AgentRuntime,
            Found::AgentAuth(_) => RefKind::AgentAuth,
            Found::AgentRole(_) => RefKind::AgentRole,
            Found::AgentSkill(_) => RefKind::AgentSkill,
            Found::ClusterAccess(_) => RefKind::ClusterAccess,
            Found::McpServer(_) => RefKind::McpServer,
            Found::Repository(_) => RefKind::Repository,
        }
    }
}

/// The references fetched so far.
pub struct Gathered {
    pub runtime: Option<AgentRuntime>,
    pub auth: Option<AgentAuth>,
    pub role: Option<AgentRole>,
    pub skill: Option<AgentSkill>,
    pub cluster_access: Option<ClusterAccess>,
    pub mcp_servers: Vec<(String, McpServer)>,
    pub repositories: Vec<(String, Repository)>,
}

/// Nothing is gathered yet.
pub open spec fn gathered_nothing(g: Gathered) -> bool {
    &&& g.runtime is None
    &&& g.auth is None
    &&& g.role is None
    &&& g.skill is None
    &&& g.cluster_access is None
    &&& g.mcp_servers@.len() == 0
    &&& g.repositories@.len() == 0
}

/// `g2` is `g` with the resource `f`, fetched by `name`, added: in its
/// slot for the single references, at the end of its list for the others.
pub open spec fn gathers(g: Gathered, name: String, f: Found, g2: Gathered) -> bool {
    &&& g2.runtime == match f {
        Found::AgentRuntime(x) => Some(x),
        _ => g.runtime,
    }
    &&& g2.auth == match f {
        Found::AgentAuth(x) => Some(x),
        _ => g.auth,
    }
    &&& g2.role == match f {
        Found::AgentRole(x) => Some(x),
        _ => g.role,
    }
    &&& g2.skill == match f {
        Found::AgentSkill(x) => Some(x),
        _ => g.skill,
    }
    &&& g2.cluster_access == match f {
        Found::ClusterAccess(x) => Some(x),
        _ => g.cluster_access,
    }
    &&& g2.mcp_servers@ == match f {
        Found::McpServer(x) => g.mcp_servers@.push((name, x)),
        _ => g.mcp_servers@,
    }
    &&& g2.repositories@ == match f {
        Found::Repository(x) => g.repositories@.push((name, x)),
        _ => g.repositories@,
    }
}

/// `r` holds what `g` gathered.
pub open spec fn completes(g: Gathered, r: Resolved) -> bool {
    &&& g.runtime == Some(r.runtime)
    &&& g.auth == Some(r.auth)
    &&& g.role == Some(r.role)
    &&& g.skill == r.skill
    &&& g.cluster_access == r.cluster_access
    &&& g.mcp_servers@ == r.mcp_servers@
    &&& g.repositories@ == r.repositories@
}

impl Gathered {
    /// Nothing gathered yet.
    pub fn new() -> (g: Gathered)
        ensures
            gathered_nothing(g),
    {
        Gathered {
            runtime: None,
            auth: None,
            role: None,
            skill: None,
            cluster_access: None,
            mcp_servers: Vec::new(),
            repositories: Vec::new(),
        }
    }

    /// Adds the resource `f`, fetched by `name`.
    pub fn gather(self, name: String, f: Found) -> (g: Gathered)
        ensures
            gathers(self, name, f, g),
    {
        let mut g = self;
        match f {
            Found::AgentRuntime(x) => g.runtime = Some(x),
            Found::AgentAuth(x) => g.auth = Some(x),
            Found::AgentRole(x) => g.role = Some(x),
            Found::AgentSkill(x) => g.skill = Some(x),
            Found::ClusterAccess(x) => g.cluster_access = Some(x),
            Found::McpServer(x) => g.mcp_servers.push((name, x)),
            Found::Repository(x) => g.repositories.push((name, x)),
        }
        g
    }

    /// What was gathered, once the runtime, auth and role are among it.
    pub fn complete(self) -> (r: Option<Resolved>)
        ensures
            r is Some <==> (self.runtime is Some && self.auth is Some && self.role is Some),
            r matches Some(res) ==> completes(self, res),
    {
        let Gathered { runtime, auth, role, skill, cluster_access, mcp_servers, repositories } = self;
        match (runtime, auth, role) {
            (Some(runtime), Some(auth), Some(role)) => Some(
                Resolved { runtime, auth, role, skill, cluster_access, mcp_servers, repositories },
            ),
            _ => None,
        }
    }
}

} // verus!
