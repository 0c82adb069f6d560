//! The MCP server's request rules.
pub mod server;
