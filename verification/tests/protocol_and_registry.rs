use govail_mcp::json::JsonValue;
use govail_mcp::mcp::protocol::{
    BusinessError, ContentBlock, JsonRpcRequest, JsonRpcResponse, McpError, ParamError, SystemError,
    ToolResult,
};
use govail_mcp::mcp::types::{ToolAnnotations, ToolDescriptor};
use govail_mcp::mcp::ToolRegistry;
use govail_mcp::server::{endpoint_event_data, health_report, route_message, tool_answer, MessageRoute};
use govail_mcp::tools::register_all;

fn s(v: &str) -> JsonValue {
    JsonValue::Str(v.to_string())
}

fn obj(members: Vec<(&str, JsonValue)>) -> JsonValue {
    JsonValue::Object(members.into_iter().map(|(k, v)| (k.to_string(), v)).collect())
}

fn descriptor(name: &str, read_only: Option<bool>) -> ToolDescriptor {
    ToolDescriptor {
        name: name.to_string(),
        description: format!("{name} tool"),
        input_schema: obj(vec![("type", s("object"))]),
        annotations: ToolAnnotations { read_only_hint: read_only, ..Default::default() },
    }
}

fn text_of(r: &ToolResult) -> String {
    match &r.content[0] {
        ContentBlock::Text { text } => text.clone(),
    }
}

#[test]
fn rpc_constructors() {
    let ok = JsonRpcResponse::success(s("1"), JsonValue::Bool(true));
    assert_eq!(ok.jsonrpc, "2.0");
    assert!(ok.error.is_none());
    let parse = JsonRpcResponse::parse_error("bad json");
    assert!(matches!(parse.id, JsonValue::Null));
    assert_eq!(parse.error.as_ref().unwrap().code, -32700);
    let missing = JsonRpcResponse::method_not_found(s("7"), "ping");
    let e = missing.error.unwrap();
    assert_eq!(e.code, -32601);
    assert_eq!(e.message, "존재하지 않는 메소드입니다: ping");
}

#[test]
fn error_layers_render_their_messages() {
    assert_eq!(
        McpError::Business(BusinessError::ApiFailure { status: 503, body: "down".into() }).message(),
        "API 호출 실패 (상태 코드: 503, 바디: down)"
    );
    assert_eq!(
        McpError::Business(BusinessError::NotFound { detail: "job".into() }).message(),
        "원하는 대상을 찾을 수 없습니다: job"
    );
    assert_eq!(McpError::System(SystemError::Http("timeout".into())).message(), "HTTP 클라이언트 통신 오류: timeout");
    assert_eq!(McpError::Param(ParamError::JsonParse("eof".into())).message(), "JSON 파싱 실패: eof");
}

#[test]
fn register_replaces_same_name_and_lookup_finds_it() {
    let mut registry = ToolRegistry::new();
    registry.register(descriptor("a", Some(true)));
    registry.register(descriptor("b", None));
    let mut newer = descriptor("a", Some(false));
    newer.description = "replacement".to_string();
    registry.register(newer);
    assert_eq!(registry.len(), 2);
    assert_eq!(registry.lookup("a").unwrap().description, "replacement");
    assert_eq!(registry.lookup("b").unwrap().description, "b tool");
    assert!(registry.lookup("c").is_none());
}

#[test]
fn listing_includes_only_set_hints() {
    let mut registry = ToolRegistry::new();
    registry.register(descriptor("a", Some(true)));
    registry.register(descriptor("b", None));
    let listing = registry.list_tools();
    let tools = listing.array_field("tools").unwrap();
    assert_eq!(tools.len(), 2);
    assert_eq!(tools[0].str_field("name"), Some("a"));
    assert_eq!(tools[0].get("annotations").and_then(|a| a.bool_field("readOnlyHint")), Some(true));
    assert!(tools[1].get("annotations").is_none());
    assert_eq!(tools[1].get("inputSchema").and_then(|v| v.str_field("type")), Some("object"));
}

#[test]
fn settled_results_hide_system_details() {
    let param = ToolRegistry::settle(Err(McpError::Param(ParamError::Missing { field: "q".into() })));
    assert!(param.is_error);
    assert_eq!(text_of(&param), "[L1 파라미터 에러] 필수 파라미터 누락: q");
    let business = ToolRegistry::settle(Err(McpError::Business(BusinessError::ApiFailure { status: 404, body: "x".into() })));
    assert_eq!(text_of(&business), "[L2 비즈니스 에러] API 호출 실패 (상태 코드: 404, 바디: x)");
    let a = ToolRegistry::settle(Err(McpError::System(SystemError::Internal("db password=hunter2".into()))));
    let b = ToolRegistry::settle(Err(McpError::System(SystemError::Io("disk".into()))));
    assert_eq!(text_of(&a), text_of(&b));
    assert!(!text_of(&a).contains("hunter2"));
    let ok = ToolRegistry::settle(Ok(ToolResult::text("fine".to_string())));
    assert!(!ok.is_error);
    assert_eq!(text_of(&ok), "fine");
    let unknown = ToolRegistry::unknown_tool("nope");
    assert_eq!(text_of(&unknown), "알 수 없는 고베일 MCP 도구입니다: nope");
}

#[test]
fn all_tools_register_in_order() {
    let mut registry = ToolRegistry::new();
    register_all(&mut registry);
    assert_eq!(registry.len(), 8);
    let listing = registry.list_tools();
    let names: Vec<String> = listing
        .array_field("tools")
        .unwrap()
        .iter()
        .map(|t| t.str_field("name").unwrap().to_string())
        .collect();
    assert_eq!(
        names,
        vec![
            "search_govail_context",
            "trigger_govail_job",
            "get_govail_job_status",
            "verify_dlp_policy",
            "validate_evidence_bundle",
            "submit_evidence_bundle",
            "map_findings_to_controls",
            "generate_risk_brief"
        ]
    );
    let submit = registry.lookup("submit_evidence_bundle").unwrap();
    assert_eq!(submit.annotations.destructive_hint, Some(false));
}

fn request(method: &str, id: Option<JsonValue>, params: Option<JsonValue>) -> JsonRpcRequest {
    JsonRpcRequest { jsonrpc: "2.0".to_string(), id, method: method.to_string(), params }
}

#[test]
fn posted_messages_are_routed() {
    let mut registry = ToolRegistry::new();
    registry.register(descriptor("a", None));
    match route_message(&request("initialize", Some(s("1")), None), &registry, "0.1.0") {
        MessageRoute::Respond(r) => {
            let result = r.result.unwrap();
            assert_eq!(result.str_field("protocolVersion"), Some("2024-11-05"));
            assert_eq!(result.get("serverInfo").and_then(|i| i.str_field("version")), Some("0.1.0"));
        }
        other => panic!("unexpected {:?}", other),
    }
    match route_message(&request("notifications/initialized", Some(s("2")), None), &registry, "0.1.0") {
        MessageRoute::Acknowledge(r) => assert!(matches!(r.id, JsonValue::Null)),
        other => panic!("unexpected {:?}", other),
    }
    match route_message(&request("tools/call", None, Some(obj(vec![("name", s("a"))]))), &registry, "0.1.0") {
        MessageRoute::Dispatch { id, tool, arguments } => {
            assert!(matches!(id, JsonValue::Null));
            assert_eq!(tool, "a");
            assert!(matches!(arguments, JsonValue::Object(ref m) if m.is_empty()));
        }
        other => panic!("unexpected {:?}", other),
    }
    match route_message(&request("ping", Some(s("3")), None), &registry, "0.1.0") {
        MessageRoute::Respond(r) => assert_eq!(r.error.unwrap().message, "존재하지 않는 메소드입니다: ping"),
        other => panic!("unexpected {:?}", other),
    }
}

#[test]
fn tool_answers_and_health() {
    let answer = tool_answer(s("9"), &ToolResult::error("bad".to_string()));
    let result = answer.result.unwrap();
    assert_eq!(result.bool_field("isError"), Some(true));
    let content = result.array_field("content").unwrap();
    assert_eq!(content[0].str_field("type"), Some("text"));
    assert_eq!(content[0].str_field("text"), Some("bad"));
    let health = health_report("1.2.3");
    assert_eq!(health.str_field("status"), Some("healthy"));
    assert_eq!(health.str_field("transport"), Some("sse"));
    assert_eq!(endpoint_event_data("abc"), "/message?session_id=abc");
}
