//! The decisions of the SSE server: how each JSON-RPC message posted to
//! `/message` is answered, what the stream announces first, and the health
//! report. Sessions, channels and HTTP belong to the host.
use vstd::prelude::*;
use crate::json::{JsonValue, JsonView, lemma_object_view, members_view, put};
use crate::mcp::protocol::{JsonRpcRequest, JsonRpcResponse, ToolResult};
use crate::mcp::registry::{ToolRegistry, listing_json};
use crate::text::{push_str, str_eq, string_of};

verus! {

broadcast use vstd::string::group_string_axioms;

/// What to do with a posted message.
#[derive(Debug)]
pub enum MessageRoute {
    /// Answer with this response and also send it to the caller's session.
    Respond(JsonRpcResponse),
    /// Answer with this response only; nothing goes to the session.
    Acknowledge(JsonRpcResponse),
    /// Run the tool with the arguments, then answer (and send to the
    /// session) `tool_answer(id, result)`.
    Dispatch { id: JsonValue, tool: String, arguments: JsonValue },
}

/// The request id, or `null`.
pub open spec fn id_or_null(id: Option<JsonValue>) -> JsonView {
    match id {
        Some(v) => v@,
        None => JsonView::Null,
    }
}

pub open spec fn sse_initialize_json(version: Seq<char>) -> JsonView {
    JsonView::Object(
        seq![
            ("protocolVersion"@, JsonView::Str("2024-11-05"@)),
            (
                "capabilities"@,
                JsonView::Object(seq![("tools"@, JsonView::Object(seq![("listChanged"@, JsonView::Bool(false))]))]),
            ),
            (
                "serverInfo"@,
                JsonView::Object(seq![("name"@, JsonView::Str("govail-mcp"@)), ("version"@, JsonView::Str(version))]),
            ),
        ],
    )
}

/// The parameters of a `tools/call`: the request's, or an empty object.
pub open spec fn posted_params(params: Option<JsonValue>) -> JsonView {
    match params {
        Some(p) => p@,
        None => JsonView::Object(Seq::empty()),
    }
}

fn empty_object() -> (r: JsonValue)
    ensures
        r@ == JsonView::Object(Seq::empty()),
{
    let m: Vec<(String, JsonValue)> = Vec::new();
    proof {
        lemma_object_view(m);
        assert(members_view(m@) =~= Seq::<(Seq<char>, JsonView)>::empty());
    }
    JsonValue::Object(m)
}

fn initialize_result(version: &str) -> (r: JsonValue)
    ensures
        r@ == sse_initialize_json(version@),
{
    let mut tools: Vec<(String, JsonValue)> = Vec::new();
    put(&mut tools, "listChanged", JsonValue::Bool(false));
    proof {
        lemma_object_view(tools);
    }
    let mut caps: Vec<(String, JsonValue)> = Vec::new();
    put(&mut caps, "tools", JsonValue::Object(tools));
    proof {
        lemma_object_view(caps);
    }
    let mut info: Vec<(String, JsonValue)> = Vec::new();
    put(&mut info, "name", JsonValue::string("govail-mcp"));
    put(&mut info, "version", JsonValue::string(version));
    proof {
        lemma_object_view(info);
    }
    let mut m: Vec<(String, JsonValue)> = Vec::new();
    put(&mut m, "protocolVersion", JsonValue::string("2024-11-05"));
    put(&mut m, "capabilities", JsonValue::Object(caps));
    put(&mut m, "serverInfo", JsonValue::Object(info));
    proof {
        let want = sse_initialize_json(version@);
        assert(members_view(tools@) =~= want->Object_0[1].1->Object_0[0].1->Object_0);
        assert(members_view(caps@) =~= want->Object_0[1].1->Object_0);
        assert(members_view(info@) =~= want->Object_0[2].1->Object_0);
        lemma_object_view(m);
        assert(members_view(m@) =~= want->Object_0);
    }
    JsonValue::Object(m)
}

fn id_value(id: &Option<JsonValue>) -> (r: JsonValue)
    ensures
        r@ == id_or_null(*id),
{
    match id {
        Some(v) => v.duplicate(),
        None => JsonValue::Null,
    }
}

/// How a posted message is answered:
/// - `initialize`: protocol `2024-11-05`, tools that do not change, and the
///   server's name and `version`;
/// - `notifications/initialized`: an empty success with a `null` id that is
///   not sent to the session;
/// - `tools/list`: the registry's listing;
/// - `tools/call`: the named tool (empty name when absent) with the
///   `arguments` member (an empty object when absent);
/// - anything else: method not found.
pub fn route_message(request: &JsonRpcRequest, registry: &ToolRegistry, version: &str) -> (r: MessageRoute)
    ensures
        request.method@ == "initialize"@ ==> (r matches MessageRoute::Respond(resp) && resp.id@ == id_or_null(
            request.id,
        ) && resp.error is None && resp.result is Some && resp.result->0@ == sse_initialize_json(version@)),
        request.method@ == "notifications/initialized"@ ==> (r matches MessageRoute::Acknowledge(resp) && resp.id@
            == JsonView::Null && resp.error is None && resp.result is Some && resp.result->0@ == JsonView::Null),
        request.method@ == "tools/list"@ ==> (r matches MessageRoute::Respond(resp) && resp.id@ == id_or_null(
            request.id,
        ) && resp.error is None && resp.result is Some && resp.result->0@ == listing_json(registry@)),
        request.method@ == "tools/call"@ ==> (r matches MessageRoute::Dispatch { id, tool, arguments } && id@
            == id_or_null(request.id) && tool@ == posted_params(request.params).str_or("name"@, ""@)
            && arguments@ == match posted_params(request.params).lookup("arguments"@) {
            Some(a) => a,
            None => JsonView::Object(Seq::empty()),
        }),
        request.method@ != "initialize"@ && request.method@ != "notifications/initialized"@ && request.method@
            != "tools/list"@ && request.method@ != "tools/call"@ ==> (r matches MessageRoute::Respond(resp)
            && resp.id@ == id_or_null(request.id) && resp.result is None && resp.error is Some
            && resp.error->0.code == -32601 && resp.error->0.message@ == "존재하지 않는 메소드입니다: "@
            + request.method@),
        r matches MessageRoute::Respond(resp) ==> resp.jsonrpc@ == "2.0"@,
        r matches MessageRoute::Acknowledge(resp) ==> resp.jsonrpc@ == "2.0"@,
{
    proof {
        reveal_strlit("initialize");
        reveal_strlit("notifications/initialized");
        reveal_strlit("tools/list");
        reveal_strlit("tools/call");
        assert("initialize"@.len() != "notifications/initialized"@.len());
        assert("initialize"@[0] != "tools/list"@[0]);
        assert("initialize"@[0] != "tools/call"@[0]);
        assert("notifications/initialized"@.len() != "tools/list"@.len());
        assert("notifications/initialized"@.len() != "tools/call"@.len());
        assert("tools/list"@[6] != "tools/call"@[6]);
    }
    let method = request.method.as_str();
    if str_eq(method, "initialize") {
        MessageRoute::Respond(JsonRpcResponse::success(id_value(&request.id), initialize_result(version)))
    } else if str_eq(method, "notifications/initialized") {
        MessageRoute::Acknowledge(JsonRpcResponse::success(JsonValue::Null, JsonValue::Null))
    } else if str_eq(method, "tools/list") {
        MessageRoute::Respond(JsonRpcResponse::success(id_value(&request.id), registry.list_tools()))
    } else if str_eq(method, "tools/call") {
        let empty = empty_object();
        let params: &JsonValue = match &request.params {
            Some(p) => p,
            None => &empty,
        };
        let tool = params.str_field_or("name", "");
        let arguments = match params.get("arguments") {
            Some(a) => a.duplicate(),
            None => empty_object(),
        };
        MessageRoute::Dispatch { id: id_value(&request.id), tool, arguments }
    } else {
        MessageRoute::Respond(JsonRpcResponse::method_not_found(id_value(&request.id), method))
    }
}

/// The answer to a dispatched tool call: the tool result as its JSON form.
pub fn tool_answer(id: JsonValue, result: &ToolResult) -> (r: JsonRpcResponse)
    ensures
        r.jsonrpc@ == "2.0"@,
        r.id@ == id@,
        r.error is None,
        r.result is Some && r.result->0@ == result.json_view(),
{
    JsonRpcResponse::success(id, result.to_json())
}

/// The data of the first event of a session's stream: where to post.
pub fn endpoint_event_data(session_id: &str) -> (r: String)
    ensures
        r@ == "/message?session_id="@ + session_id@,
{
    let mut s = string_of("/message?session_id=");
    push_str(&mut s, session_id);
    s
}

pub open spec fn health_json(version: Seq<char>) -> JsonView {
    JsonView::Object(
        seq![
            ("status"@, JsonView::Str("healthy"@)),
            ("service"@, JsonView::Str("govail-mcp"@)),
            ("version"@, JsonView::Str(version)),
            ("transport"@, JsonView::Str("sse"@)),
        ],
    )
}

/// The health report.
pub fn health_report(version: &str) -> (r: JsonValue)
    ensures
        r@ == health_json(version@),
{
    let mut m: Vec<(String, JsonValue)> = Vec::new();
    put(&mut m, "status", JsonValue::string("healthy"));
    put(&mut m, "service", JsonValue::string("govail-mcp"));
    put(&mut m, "version", JsonValue::string(version));
    put(&mut m, "transport", JsonValue::string("sse"));
    proof {
        lemma_object_view(m);
        assert(members_view(m@) =~= health_json(version@)->Object_0);
    }
    JsonValue::Object(m)
}

} // verus!
