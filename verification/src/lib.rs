//! Interoperability contracts, protocol plumbing, developer-delivery policy
//! and tool logic for the GoVail MCP server.
pub mod ambient;
pub mod cli;
pub mod client;
pub mod contracts;
pub mod json;
pub mod mcp;
pub mod rpc;
pub mod sdk;
pub mod server;
pub mod sorting;
pub mod text;
pub mod tools;
pub mod developer;
