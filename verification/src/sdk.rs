//! The MCP server SDK: a builder that collects tool definitions, and the
//! server's answer to each JSON-RPC request. Calling a tool's handler is
//! the host's part; the server says which handler to call and turns its
//! outcome into the response.
use vstd::prelude::*;
use crate::json::{JsonValue, JsonView, lemma_array_view, lemma_object_view, members_view, put};
use crate::rpc::{JsonRpcError, JsonRpcRequest, JsonRpcResponse, ToolDefinition, opt_view};
use crate::text::{push_str, str_eq, string_of};

verus! {

broadcast use vstd::string::group_string_axioms;

pub ghost struct DefinitionView {
    pub name: Seq<char>,
    pub description: Seq<char>,
    pub input_schema: JsonView,
}

pub open spec fn definition_view(d: ToolDefinition) -> DefinitionView {
    DefinitionView { name: d.name@, description: d.description@, input_schema: d.input_schema@ }
}

pub open spec fn definitions_view(s: Seq<ToolDefinition>) -> Seq<DefinitionView> {
    s.map_values(|d: ToolDefinition| definition_view(d))
}

/// No two definitions share a name.
pub open spec fn unique_names(s: Seq<DefinitionView>) -> bool {
    forall|i: int, j: int| 0 <= i < s.len() && 0 <= j < s.len() && i != j ==> #[trigger] s[i].name != #[trigger] s[j].name
}

pub open spec fn index_of_name(s: Seq<DefinitionView>, name: Seq<char>) -> Option<int> {
    if exists|i: int| 0 <= i < s.len() && #[trigger] s[i].name == name {
        Some(choose|i: int| 0 <= i < s.len() && #[trigger] s[i].name == name)
    } else {
        None
    }
}

/// The definitions after adding `d`: one of the same name is replaced in
/// place, otherwise `d` goes at the end.
pub open spec fn with_definition(s: Seq<DefinitionView>, d: DefinitionView) -> Seq<DefinitionView> {
    match index_of_name(s, d.name) {
        Some(i) => s.update(i, d),
        None => s.push(d),
    }
}

/// Collects the server's name, version and tools.
pub struct GovailMcpServerBuilder {
    name: String,
    version: String,
    tools: Vec<ToolDefinition>,
}

/// A server with a fixed set of tools.
pub struct GovailMcpServer {
    name: String,
    version: String,
    tools: Vec<ToolDefinition>,
}

fn put_definition(tools: &mut Vec<ToolDefinition>, def: ToolDefinition)
    requires
        unique_names(definitions_view(old(tools)@)),
    ensures
        unique_names(definitions_view(final(tools)@)),
        definitions_view(final(tools)@) == with_definition(definitions_view(old(tools)@), definition_view(def)),
{
    let ghost s = definitions_view(tools@);
    let ghost d = definition_view(def);
    let mut i: usize = 0;
    while i < tools.len()
        invariant
            i <= tools@.len(),
            s == definitions_view(tools@),
            s == definitions_view(old(tools)@),
            unique_names(s),
            d == definition_view(def),
            forall|j: int| 0 <= j < i ==> (#[trigger] s[j]).name != d.name,
        decreases tools.len() - i,
    {
        assert(s[i as int] == definition_view(tools@[i as int]));
        if str_eq(tools[i].name.as_str(), def.name.as_str()) {
            assert(s[i as int].name == d.name);
            assert(index_of_name(s, d.name) == Some(i as int)) by {
                let k = choose|k: int| 0 <= k < s.len() && #[trigger] s[k].name == d.name;
                assert(k == i as int);
            }
            tools.set(i, def);
            assert(definitions_view(tools@) =~= s.update(i as int, d));
            return;
        }
        i = i + 1;
    }
    assert(index_of_name(s, d.name) is None);
    tools.push(def);
    assert(definitions_view(tools@) =~= s.push(d));
}

impl GovailMcpServerBuilder {
    pub closed spec fn definitions(&self) -> Seq<DefinitionView> {
        definitions_view(self.tools@)
    }

    pub closed spec fn server_name(&self) -> Seq<char> {
        self.name@
    }

    pub closed spec fn server_version(&self) -> Seq<char> {
        self.version@
    }

    pub closed spec fn well_formed(&self) -> bool {
        unique_names(self.definitions())
    }

    /// A builder with no tools.
    pub fn new(name: &str, version: &str) -> (r: Self)
        ensures
            r.server_name() == name@,
            r.server_version() == version@,
            r.definitions() == Seq::<DefinitionView>::empty(),
            r.well_formed(),
    {
        let r = GovailMcpServerBuilder { name: string_of(name), version: string_of(version), tools: Vec::new() };
        assert(r.definitions() =~= Seq::<DefinitionView>::empty());
        r
    }

    /// Adds a tool; a tool of the same name is replaced.
    pub fn tool(self, name: &str, description: &str, input_schema: JsonValue) -> (r: Self)
        requires
            self.well_formed(),
        ensures
            r.well_formed(),
            r.server_name() == self.server_name(),
            r.server_version() == self.server_version(),
            r.definitions() == with_definition(
                self.definitions(),
                DefinitionView { name: name@, description: description@, input_schema: input_schema@ },
            ),
    {
        let mut b = self;
        let def = ToolDefinition {
            name: string_of(name),
            description: string_of(description),
            input_schema,
        };
        put_definition(&mut b.tools, def);
        b
    }

    /// The server with the collected tools.
    pub fn build(self) -> (r: GovailMcpServer)
        requires
            self.well_formed(),
        ensures
            r.well_formed(),
            r.server_name() == self.server_name(),
            r.server_version() == self.server_version(),
            r.definitions() == self.definitions(),
    {
        GovailMcpServer { name: self.name, version: self.version, tools: self.tools }
    }
}

/// What the server does with a request.
#[derive(Debug)]
pub enum RequestOutcome {
    /// Send this response.
    Reply(JsonRpcResponse),
    /// Send nothing (a notification).
    NoReply,
    /// Call the handler of the tool `name` with `arguments`, then answer
    /// with `GovailMcpServer::tool_reply`.
    CallTool { id: Option<JsonValue>, name: String, arguments: Option<JsonValue> },
}

/// The protocol version an `initialize` request asks for, `2025-11-25` by
/// default.
pub open spec fn requested_version(params: Option<JsonView>) -> Seq<char> {
    match params {
        Some(p) => p.str_or("protocolVersion"@, "2025-11-25"@),
        None => "2025-11-25"@,
    }
}

pub open spec fn initialize_json(version: Seq<char>, name: Seq<char>, server_version: Seq<char>) -> JsonView {
    JsonView::Object(
        seq![
            ("protocolVersion"@, JsonView::Str(version)),
            ("capabilities"@, JsonView::Object(seq![("tools"@, JsonView::Object(Seq::empty()))])),
            ("serverInfo"@, JsonView::Object(seq![("name"@, JsonView::Str(name)), ("version"@, JsonView::Str(server_version))])),
        ],
    )
}

pub open spec fn definition_json(d: DefinitionView) -> JsonView {
    JsonView::Object(
        seq![
            ("name"@, JsonView::Str(d.name)),
            ("description"@, JsonView::Str(d.description)),
            ("inputSchema"@, d.input_schema),
        ],
    )
}

pub open spec fn tools_list_json(s: Seq<DefinitionView>) -> JsonView {
    JsonView::Object(seq![("tools"@, JsonView::Array(s.map_values(|d: DefinitionView| definition_json(d))))])
}

/// The `tools/call` parameters: the request's, or `null`.
pub open spec fn call_params(params: Option<JsonView>) -> JsonView {
    match params {
        Some(p) => p,
        None => JsonView::Null,
    }
}

pub open spec fn text_content_json(text: Seq<char>) -> JsonView {
    JsonView::Array(seq![JsonView::Object(seq![("type"@, JsonView::Str("text"@)), ("text"@, JsonView::Str(text))])])
}

/// The result of a tool call: the handler's output as text, flagged as an
/// error when the handler failed.
pub open spec fn tool_reply_json(outcome: Result<Seq<char>, Seq<char>>) -> JsonView {
    match outcome {
        Ok(t) => JsonView::Object(seq![("content"@, text_content_json(t))]),
        Err(t) => JsonView::Object(seq![("isError"@, JsonView::Bool(true)), ("content"@, text_content_json(t))]),
    }
}

fn text_content(text: &str) -> (r: JsonValue)
    ensures
        r@ == text_content_json(text@),
{
    let mut block: Vec<(String, JsonValue)> = Vec::new();
    put(&mut block, "type", JsonValue::string("text"));
    put(&mut block, "text", JsonValue::string(text));
    proof {
        lemma_object_view(block);
        assert(members_view(block@) =~= text_content_json(text@)->Array_0[0]->Object_0);
    }
    let mut items: Vec<JsonValue> = Vec::new();
    items.push(JsonValue::Object(block));
    proof {
        lemma_array_view(items);
        assert(items@.map_values(|x: JsonValue| x@) =~= text_content_json(text@)->Array_0);
    }
    JsonValue::Array(items)
}

fn empty_object() -> (r: JsonValue)
    ensures
        r@ == JsonView::Object(Seq::empty()),
{
    let m: Vec<(String, JsonValue)> = Vec::new();
    proof {
        lemma_object_view(m);
        assert(members_view(m@) =~= Seq::<(Seq<char>, JsonView)>::empty());
    }
    JsonValue::Object(m)
}

fn copy_opt(v: &Option<JsonValue>) -> (r: Option<JsonValue>)
    ensures
        opt_view(r) == opt_view(*v),
{
    match v {
        Some(x) => Some(x.duplicate()),
        None => None,
    }
}

impl GovailMcpServer {
    pub closed spec fn definitions(&self) -> Seq<DefinitionView> {
        definitions_view(self.tools@)
    }

    pub closed spec fn server_name(&self) -> Seq<char> {
        self.name@
    }

    pub closed spec fn server_version(&self) -> Seq<char> {
        self.version@
    }

    pub closed spec fn well_formed(&self) -> bool {
        unique_names(self.definitions())
    }

    /// The server's name.
    pub fn name(&self) -> (r: &str)
        ensures
            r@ == self.server_name(),
    {
        self.name.as_str()
    }

    /// The server's version.
    pub fn version(&self) -> (r: &str)
        ensures
            r@ == self.server_version(),
    {
        self.version.as_str()
    }

    /// The server's tool definitions.
    pub fn tools(&self) -> (r: &Vec<ToolDefinition>)
        ensures
            definitions_view(r@) == self.definitions(),
    {
        &self.tools
    }

    pub fn builder(name: &str, version: &str) -> (r: GovailMcpServerBuilder)
        ensures
            r.server_name() == name@,
            r.server_version() == version@,
            r.definitions() == Seq::<DefinitionView>::empty(),
            r.well_formed(),
    {
        GovailMcpServerBuilder::new(name, version)
    }

    fn initialize_result(&self, params: &Option<JsonValue>) -> (r: JsonValue)
        ensures
            r@ == initialize_json(requested_version(opt_view(*params)), self.name@, self.version@),
    {
        let version = match params {
            Some(p) => p.str_field_or("protocolVersion", "2025-11-25"),
            None => string_of("2025-11-25"),
        };
        let mut caps: Vec<(String, JsonValue)> = Vec::new();
        put(&mut caps, "tools", empty_object());
        proof {
            lemma_object_view(caps);
        }
        let mut info: Vec<(String, JsonValue)> = Vec::new();
        put(&mut info, "name", JsonValue::string(self.name.as_str()));
        put(&mut info, "version", JsonValue::string(self.version.as_str()));
        proof {
            lemma_object_view(info);
        }
        let mut m: Vec<(String, JsonValue)> = Vec::new();
        put(&mut m, "protocolVersion", JsonValue::string(version.as_str()));
        put(&mut m, "capabilities", JsonValue::Object(caps));
        put(&mut m, "serverInfo", JsonValue::Object(info));
        proof {
            let want = initialize_json(requested_version(opt_view(*params)), self.name@, self.version@);
            assert(members_view(caps@) =~= want->Object_0[1].1->Object_0);
            assert(members_view(info@) =~= want->Object_0[2].1->Object_0);
            lemma_object_view(m);
            assert(members_view(m@) =~= want->Object_0);
        }
        JsonValue::Object(m)
    }

    fn tools_result(&self) -> (r: JsonValue)
        ensures
            r@ == tools_list_json(self.definitions()),
    {
        let ghost s = self.definitions();
        let mut items: Vec<JsonValue> = Vec::new();
        let mut i: usize = 0;
        while i < self.tools.len()
            invariant
                i <= self.tools@.len(),
                s == definitions_view(self.tools@),
                items@.len() == i,
                forall|j: int| 0 <= j < i ==> (#[trigger] items@[j])@ == definition_json(s[j]),
            decreases self.tools.len() - i,
        {
            let d = &self.tools[i];
            let mut m: Vec<(String, JsonValue)> = Vec::new();
            put(&mut m, "name", JsonValue::string(d.name.as_str()));
            put(&mut m, "description", JsonValue::string(d.description.as_str()));
            put(&mut m, "inputSchema", d.input_schema.duplicate());
            proof {
                lemma_object_view(m);
                assert(s[i as int] == definition_view(self.tools@[i as int]));
                assert(members_view(m@) =~= definition_json(s[i as int])->Object_0);
            }
            items.push(JsonValue::Object(m));
            i = i + 1;
        }
        proof {
            lemma_array_view(items);
            assert(items@.map_values(|x: JsonValue| x@) =~= s.map_values(|d: DefinitionView| definition_json(d)));
        }
        let mut m: Vec<(String, JsonValue)> = Vec::new();
        put(&mut m, "tools", JsonValue::Array(items));
        proof {
            lemma_object_view(m);
            assert(members_view(m@) =~= tools_list_json(s)->Object_0);
        }
        JsonValue::Object(m)
    }

    fn has_tool(&self, name: &str) -> (r: bool)
        requires
            self.well_formed(),
        ensures
            r == index_of_name(self.definitions(), name@) is Some,
    {
        let ghost s = self.definitions();
        let mut i: usize = 0;
        while i < self.tools.len()
            invariant
                i <= self.tools@.len(),
                s == definitions_view(self.tools@),
                forall|j: int| 0 <= j < i ==> (#[trigger] s[j]).name != name@,
            decreases self.tools.len() - i,
        {
            assert(s[i as int] == definition_view(self.tools@[i as int]));
            if str_eq(self.tools[i].name.as_str(), name) {
                assert(s[i as int].name == name@);
                return true;
            }
            i = i + 1;
        }
        false
    }

    /// The server's answer to a request:
    /// - `initialize`: the requested protocol version, the tool capability
    ///   and the server's name and version;
    /// - `notifications/initialized`: nothing;
    /// - `tools/list`: the tool definitions;
    /// - `tools/call`: an invalid-params error without a string `name`, a
    ///   method-not-found error for an unknown tool, else a call of the
    ///   tool's handler with the `arguments` member;
    /// - any other method: nothing for a notification, else a
    ///   method-not-found error.
    pub fn handle_request(&self, req: &JsonRpcRequest) -> (r: RequestOutcome)
        requires
            self.well_formed(),
        ensures
            req.method@ == "initialize"@ ==> (r matches RequestOutcome::Reply(resp) && opt_view(resp.id)
                == opt_view(req.id) && resp.error is None && resp.result is Some && resp.result->0@
                == initialize_json(requested_version(opt_view(req.params)), self.server_name(), self.server_version())),
            req.method@ == "notifications/initialized"@ ==> r is NoReply,
            req.method@ == "tools/list"@ ==> (r matches RequestOutcome::Reply(resp) && opt_view(resp.id)
                == opt_view(req.id) && resp.error is None && resp.result is Some && resp.result->0@
                == tools_list_json(self.definitions())),
            req.method@ == "tools/call"@ ==> {
                let p = call_params(opt_view(req.params));
                match p.str_at("name"@) {
                    None => r matches RequestOutcome::Reply(resp) && opt_view(resp.id) == opt_view(req.id)
                        && resp.result is None && resp.error is Some && resp.error->0.code == -32602
                        && resp.error->0.message@ == "Missing tool 'name' in parameters"@,
                    Some(n) => if index_of_name(self.definitions(), n) is Some {
                        r matches RequestOutcome::CallTool { id, name, arguments } && opt_view(id) == opt_view(
                            req.id,
                        ) && name@ == n && opt_view(arguments) == p.lookup("arguments"@)
                    } else {
                        r matches RequestOutcome::Reply(resp) && opt_view(resp.id) == opt_view(req.id)
                            && resp.result is None && resp.error is Some && resp.error->0.code == -32601
                            && resp.error->0.message@ == "Tool '"@ + n + "' not found"@
                    },
                }
            },
            req.method@ != "initialize"@ && req.method@ != "notifications/initialized"@ && req.method@
                != "tools/list"@ && req.method@ != "tools/call"@ ==> if req.id is None {
                r is NoReply
            } else {
                r matches RequestOutcome::Reply(resp) && opt_view(resp.id) == opt_view(req.id) && resp.result is None
                    && resp.error is Some && resp.error->0.code == -32601 && resp.error->0.message@
                    == "Method '"@ + req.method@ + "' not supported"@
            },
            r matches RequestOutcome::Reply(resp) ==> resp.jsonrpc@ == "2.0"@,
    {
        proof {
            reveal_strlit("initialize");
            reveal_strlit("notifications/initialized");
            reveal_strlit("tools/list");
            reveal_strlit("tools/call");
            assert("initialize"@.len() != "notifications/initialized"@.len());
            assert("initialize"@[0] != "tools/list"@[0]);
            assert("initialize"@[0] != "tools/call"@[0]);
            assert("notifications/initialized"@.len() != "tools/list"@.len());
            assert("notifications/initialized"@.len() != "tools/call"@.len());
            assert("tools/list"@[6] != "tools/call"@[6]);
        }
        let method = req.method.as_str();
        if str_eq(method, "initialize") {
            let res = self.initialize_result(&req.params);
            RequestOutcome::Reply(JsonRpcResponse::success(copy_opt(&req.id), res))
        } else if str_eq(method, "notifications/initialized") {
            RequestOutcome::NoReply
        } else if str_eq(method, "tools/list") {
            RequestOutcome::Reply(JsonRpcResponse::success(copy_opt(&req.id), self.tools_result()))
        } else if str_eq(method, "tools/call") {
            let null = JsonValue::Null;
            let params: &JsonValue = match &req.params {
                Some(p) => p,
                None => &null,
            };
            match params.str_field("name") {
                None => RequestOutcome::Reply(
                    JsonRpcResponse::error(
                        copy_opt(&req.id),
                        JsonRpcError::invalid_params("Missing tool 'name' in parameters"),
                    ),
                ),
                Some(n) => {
                    if self.has_tool(n) {
                        let arguments = match params.get("arguments") {
                            Some(a) => Some(a.duplicate()),
                            None => None,
                        };
                        RequestOutcome::CallTool { id: copy_opt(&req.id), name: string_of(n), arguments }
                    } else {
                        let mut m = string_of("Tool '");
                        push_str(&mut m, n);
                        push_str(&mut m, "' not found");
                        RequestOutcome::Reply(
                            JsonRpcResponse::error(copy_opt(&req.id), JsonRpcError::method_not_found(m.as_str())),
                        )
                    }
                },
            }
        } else {
            match &req.id {
                None => RequestOutcome::NoReply,
                Some(_) => {
                    let mut m = string_of("Method '");
                    push_str(&mut m, method);
                    push_str(&mut m, "' not supported");
                    RequestOutcome::Reply(
                        JsonRpcResponse::error(copy_opt(&req.id), JsonRpcError::method_not_found(m.as_str())),
                    )
                },
            }
        }
    }

    /// The response to a tool call once its handler finished: `outcome` is
    /// the JSON text of the handler's value, or of its error.
    pub fn tool_reply(id: Option<JsonValue>, outcome: Result<String, String>) -> (r: JsonRpcResponse)
        ensures
            r.jsonrpc@ == "2.0"@,
            opt_view(r.id) == opt_view(id),
            r.error is None,
            r.result is Some,
            r.result->0@ == tool_reply_json(
                match outcome {
                    Ok(t) => Ok(t@),
                    Err(t) => Err(t@),
                },
            ),
    {
        let mut m: Vec<(String, JsonValue)> = Vec::new();
        match &outcome {
            Ok(t) => {
                put(&mut m, "content", text_content(t.as_str()));
            },
            Err(t) => {
                put(&mut m, "isError", JsonValue::Bool(true));
                put(&mut m, "content", text_content(t.as_str()));
            },
        }
        proof {
            lemma_object_view(m);
            assert(members_view(m@) =~= tool_reply_json(
                match outcome {
                    Ok(t) => Ok(t@),
                    Err(t) => Err(t@),
                },
            )->Object_0);
        }
        JsonRpcResponse::success(id, JsonValue::Object(m))
    }
}

/// The definition under a name.
pub open spec fn definition_named(s: Seq<DefinitionView>, name: Seq<char>) -> Option<DefinitionView> {
    match index_of_name(s, name) {
        Some(i) => Some(s[i]),
        None => None,
    }
}

proof fn lemma_definition_at(s: Seq<DefinitionView>, i: int)
    requires
        unique_names(s),
        0 <= i < s.len(),
    ensures
        definition_named(s, s[i].name) == Some(s[i]),
{
    let name = s[i].name;
    assert(exists|k: int| 0 <= k < s.len() && #[trigger] s[k].name == name);
    let k = choose|k: int| 0 <= k < s.len() && #[trigger] s[k].name == name;
    if k != i {
        assert(s[k].name != s[i].name);
    }
}

/// Adding a tool to the builder keeps one definition per name, makes the
/// new definition the one under its name (the last one added wins), and
/// leaves every other name's definition as it was.
pub proof fn law_tool_then_definition(s: Seq<DefinitionView>, d: DefinitionView, other: Seq<char>)
    requires
        unique_names(s),
    ensures
        unique_names(with_definition(s, d)),
        definition_named(with_definition(s, d), d.name) == Some(d),
        other != d.name ==> definition_named(with_definition(s, d), other) == definition_named(s, other),
{
    let t = with_definition(s, d);
    let i: int = match index_of_name(s, d.name) {
        Some(i) => i,
        None => s.len() as int,
    };
    assert(t.len() == s.len() || t.len() == s.len() + 1);
    assert(forall|k: int| 0 <= k < t.len() && k != i ==> #[trigger] t[k] == s[k]);
    assert(t[i] == d);
    assert(forall|k: int| 0 <= k < s.len() && k != i ==> #[trigger] s[k].name != d.name) by {
        if index_of_name(s, d.name) is None {
        }
    }
    assert(unique_names(t)) by {
        assert forall|a: int, b: int| 0 <= a < t.len() && 0 <= b < t.len() && a != b implies #[trigger] t[a].name
            != #[trigger] t[b].name by {
            if a == i {
                assert(t[b] == s[b]);
            } else if b == i {
                assert(t[a] == s[a]);
            } else {
                assert(t[a] == s[a] && t[b] == s[b]);
            }
        }
    }
    lemma_definition_at(t, i);
    if other != d.name {
        if exists|k: int| 0 <= k < s.len() && #[trigger] s[k].name == other {
            let k = choose|k: int| 0 <= k < s.len() && #[trigger] s[k].name == other;
            lemma_definition_at(s, k);
            assert(k != i);
            lemma_definition_at(t, k);
        } else {
            assert forall|k: int| 0 <= k < t.len() implies #[trigger] t[k].name != other by {
                if k != i {
                    assert(t[k] == s[k]);
                }
            }
        }
    }
}

} // verus!
