use govail_mcp::json::JsonValue;
use govail_mcp::rpc::{JsonRpcError, JsonRpcRequest, JsonRpcResponse};
use govail_mcp::sdk::{GovailMcpServer, RequestOutcome};

fn s(v: &str) -> JsonValue {
    JsonValue::Str(v.to_string())
}

fn obj(members: Vec<(&str, JsonValue)>) -> JsonValue {
    JsonValue::Object(members.into_iter().map(|(k, v)| (k.to_string(), v)).collect())
}

fn request(method: &str, id: Option<JsonValue>, params: Option<JsonValue>) -> JsonRpcRequest {
    JsonRpcRequest { jsonrpc: "2.0".to_string(), id, method: method.to_string(), params }
}

fn server() -> GovailMcpServer {
    GovailMcpServer::builder("promptia", "1.0.0")
        .tool("get_story", "old", obj(vec![]))
        .tool("get_story", "Get a story", obj(vec![("type", s("object"))]))
        .tool("list_stories", "List stories", obj(vec![]))
        .build()
}

#[test]
fn error_constructors_use_standard_codes() {
    assert_eq!(JsonRpcError::invalid_request("x").code, -32600);
    assert_eq!(JsonRpcError::method_not_found("x").code, -32601);
    assert_eq!(JsonRpcError::invalid_params("x").code, -32602);
    assert_eq!(JsonRpcError::internal_error("x").code, -32603);
    let r = JsonRpcResponse::error(None, JsonRpcError::internal_error("boom"));
    assert!(r.result.is_none());
    assert_eq!(r.error.unwrap().message, "boom");
}

#[test]
fn initialize_echoes_requested_version_or_baseline() {
    let srv = server();
    match srv.handle_request(&request("initialize", Some(s("1")), None)) {
        RequestOutcome::Reply(r) => {
            let result = r.result.unwrap();
            assert_eq!(result.str_field("protocolVersion"), Some("2025-11-25"));
            assert_eq!(result.get("serverInfo").and_then(|i| i.str_field("name")), Some("promptia"));
        }
        other => panic!("unexpected {:?}", other),
    }
    let params = obj(vec![("protocolVersion", s("2024-11-05"))]);
    match srv.handle_request(&request("initialize", Some(s("1")), Some(params))) {
        RequestOutcome::Reply(r) => assert_eq!(r.result.unwrap().str_field("protocolVersion"), Some("2024-11-05")),
        other => panic!("unexpected {:?}", other),
    }
}

#[test]
fn listing_keeps_last_definition_per_name() {
    match server().handle_request(&request("tools/list", Some(s("2")), None)) {
        RequestOutcome::Reply(r) => {
            let result = r.result.unwrap();
            let tools = result.array_field("tools").unwrap();
            assert_eq!(tools.len(), 2);
            assert_eq!(tools[0].str_field("description"), Some("Get a story"));
            assert_eq!(tools[0].get("inputSchema").and_then(|v| v.str_field("type")), Some("object"));
        }
        other => panic!("unexpected {:?}", other),
    }
}

#[test]
fn tool_calls_are_checked_before_dispatch() {
    let srv = server();
    match srv.handle_request(&request("tools/call", Some(s("3")), Some(obj(vec![])))) {
        RequestOutcome::Reply(r) => {
            let e = r.error.unwrap();
            assert_eq!(e.code, -32602);
            assert_eq!(e.message, "Missing tool 'name' in parameters");
        }
        other => panic!("unexpected {:?}", other),
    }
    match srv.handle_request(&request("tools/call", Some(s("4")), Some(obj(vec![("name", s("nope"))])))) {
        RequestOutcome::Reply(r) => assert_eq!(r.error.unwrap().message, "Tool 'nope' not found"),
        other => panic!("unexpected {:?}", other),
    }
    let params = obj(vec![("name", s("get_story")), ("arguments", obj(vec![("id", s("101"))]))]);
    match srv.handle_request(&request("tools/call", Some(s("5")), Some(params))) {
        RequestOutcome::CallTool { name, arguments, .. } => {
            assert_eq!(name, "get_story");
            assert_eq!(arguments.unwrap().str_field("id"), Some("101"));
        }
        other => panic!("unexpected {:?}", other),
    }
}

#[test]
fn notifications_get_no_answer() {
    let srv = server();
    assert!(matches!(srv.handle_request(&request("notifications/initialized", None, None)), RequestOutcome::NoReply));
    assert!(matches!(srv.handle_request(&request("notifications/cancelled", None, None)), RequestOutcome::NoReply));
    match srv.handle_request(&request("resources/list", Some(s("6")), None)) {
        RequestOutcome::Reply(r) => assert_eq!(r.error.unwrap().message, "Method 'resources/list' not supported"),
        other => panic!("unexpected {:?}", other),
    }
}

#[test]
fn tool_reply_marks_errors() {
    let ok = GovailMcpServer::tool_reply(Some(s("7")), Ok("{\"a\": 1}".to_string()));
    let result = ok.result.unwrap();
    assert!(result.get("isError").is_none());
    assert_eq!(result.array_field("content").unwrap()[0].str_field("text"), Some("{\"a\": 1}"));
    let err = GovailMcpServer::tool_reply(None, Err("{}".to_string()));
    assert_eq!(err.result.unwrap().bool_field("isError"), Some(true));
}
