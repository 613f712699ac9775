//! JSON-RPC 2.0 messages of the MCP SDK: requests, responses whose id may
//! be absent, standard error objects, and tool definitions.
use vstd::prelude::*;
use crate::json::{JsonValue, JsonView};
use crate::text::string_of;

verus! {

/// A JSON-RPC 2.0 request; a request without an id is a notification.
#[derive(Debug)]
pub struct JsonRpcRequest {
    pub jsonrpc: String,
    pub id: Option<JsonValue>,
    pub method: String,
    pub params: Option<JsonValue>,
}

/// A JSON-RPC 2.0 error object.
#[derive(Debug)]
pub struct JsonRpcError {
    pub code: i32,
    pub message: String,
    pub data: Option<JsonValue>,
}

/// A JSON-RPC 2.0 response.
#[derive(Debug)]
pub struct JsonRpcResponse {
    pub jsonrpc: String,
    pub id: Option<JsonValue>,
    pub result: Option<JsonValue>,
    pub error: Option<JsonRpcError>,
}

pub open spec fn opt_view(v: Option<JsonValue>) -> Option<JsonView> {
    match v {
        Some(x) => Some(x@),
        None => None,
    }
}

impl JsonRpcResponse {
    pub fn success(id: Option<JsonValue>, result: JsonValue) -> (r: Self)
        ensures
            r.jsonrpc@ == "2.0"@,
            opt_view(r.id) == opt_view(id),
            r.result is Some && r.result->0@ == result@,
            r.error is None,
    {
        JsonRpcResponse { jsonrpc: string_of("2.0"), id, result: Some(result), error: None }
    }

    pub fn error(id: Option<JsonValue>, error: JsonRpcError) -> (r: Self)
        ensures
            r.jsonrpc@ == "2.0"@,
            opt_view(r.id) == opt_view(id),
            r.result is None,
            r.error is Some,
            r.error->0.code == error.code,
            r.error->0.message@ == error.message@,
            opt_view(r.error->0.data) == opt_view(error.data),
    {
        JsonRpcResponse { jsonrpc: string_of("2.0"), id, result: None, error: Some(error) }
    }
}

impl JsonRpcError {
    /// -32600.
    pub fn invalid_request(msg: &str) -> (r: Self)
        ensures
            r.code == -32600,
            r.message@ == msg@,
            r.data is None,
    {
        JsonRpcError { code: -32600, message: string_of(msg), data: None }
    }

    /// -32601.
    pub fn method_not_found(msg: &str) -> (r: Self)
        ensures
            r.code == -32601,
            r.message@ == msg@,
            r.data is None,
    {
        JsonRpcError { code: -32601, message: string_of(msg), data: None }
    }

    /// -32602.
    pub fn invalid_params(msg: &str) -> (r: Self)
        ensures
            r.code == -32602,
            r.message@ == msg@,
            r.data is None,
    {
        JsonRpcError { code: -32602, message: string_of(msg), data: None }
    }

    /// -32603.
    pub fn internal_error(msg: &str) -> (r: Self)
        ensures
            r.code == -32603,
            r.message@ == msg@,
            r.data is None,
    {
        JsonRpcError { code: -32603, message: string_of(msg), data: None }
    }
}

/// A tool as `tools/list` describes it.
#[derive(Debug)]
pub struct ToolDefinition {
    pub name: String,
    pub description: String,
    pub input_schema: JsonValue,
}

/// The `tools/list` result.
#[derive(Debug)]
pub struct ListToolsResult {
    pub tools: Vec<ToolDefinition>,
}

} // verus!
