//! The MCP server core: protocol messages, tool metadata and the tool registry.
pub mod protocol;
pub mod registry;
pub mod types;

pub use registry::ToolRegistry;
