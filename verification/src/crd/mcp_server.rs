//! McpServer: an MCP server an agent can reach.

use vstd::prelude::*;
use crate::crd::definition::{definition, CustomResourceDefinition};
use crate::k8s::meta::ObjectMeta;

verus! {

/// Defines an MCP server — either a local command or a remote
/// HTTP endpoint.
#[derive(Clone, Debug)]
pub struct McpServerSpec {
    /// Command to start a local MCP server (e.g. "npx").
    /// Mutually exclusive with `url`.
    pub command: Option<String>,
    /// Arguments for the command.
    pub args: Vec<String>,
    /// URL of a remote MCP server.
    /// Mutually exclusive with `command`.
    pub url: Option<String>,
}

/// An McpServer resource.
#[derive(Clone, Debug)]
pub struct McpServer {
    pub metadata: ObjectMeta,
    pub spec: McpServerSpec,
}

impl McpServer {
    /// The CustomResourceDefinition of McpServer.
    pub fn crd() -> (d: CustomResourceDefinition)
        ensures
            d.declares("McpServer"@, "mcpservers"@, "mcpserver"@, "mcp"@, false),
            d.no_printer_columns(),
    {
        definition("McpServer", "mcpservers", "mcpserver", "mcp", false)
    }
}

} // verus!
