//! Temperature monitoring library: sensor listing and parsing, configuration,
//! audit events, and the request rules of the MCP tools and the web UI.
pub mod text;
pub mod time;
pub mod config;
pub mod storage;
pub mod collector;
pub mod gpu;
pub mod audit;
pub mod mcp;
pub mod web;
pub mod daemon;
