//! The tool registry: which tools the server offers, their `tools/list`
//! listing, and how a tool call's outcome becomes the result the client sees.
use vstd::prelude::*;
use crate::json::{JsonValue, JsonView, lemma_array_view, lemma_object_view, members_view, put};
use crate::mcp::protocol::{McpError, ToolResult};
use crate::mcp::types::{DescriptorView, ToolAnnotations, ToolDescriptor};
use crate::text::{push_str, str_eq, string_of};

verus! {

broadcast use vstd::string::group_string_axioms;

/// The registered tools, at most one per name.
pub struct ToolRegistry {
    tools: Vec<ToolDescriptor>,
}

/// No two entries share a name.
pub open spec fn distinct_names(s: Seq<DescriptorView>) -> bool {
    forall|i: int, j: int| 0 <= i < s.len() && 0 <= j < s.len() && i != j ==> #[trigger] s[i].name != #[trigger] s[j].name
}

/// The position of the entry named `name`, if any.
pub open spec fn position_of(s: Seq<DescriptorView>, name: Seq<char>) -> Option<int> {
    if exists|i: int| 0 <= i < s.len() && #[trigger] s[i].name == name {
        Some(choose|i: int| 0 <= i < s.len() && #[trigger] s[i].name == name)
    } else {
        None
    }
}

/// The entry named `name`, if any.
pub open spec fn entry_named(s: Seq<DescriptorView>, name: Seq<char>) -> Option<DescriptorView> {
    match position_of(s, name) {
        Some(i) => Some(s[i]),
        None => None,
    }
}

/// The registry after registering `d`: an entry with the same name is
/// replaced in place, otherwise `d` is added at the end.
pub open spec fn registered(s: Seq<DescriptorView>, d: DescriptorView) -> Seq<DescriptorView> {
    match position_of(s, d.name) {
        Some(i) => s.update(i, d),
        None => s.push(d),
    }
}

/// The registry after registering each of `ds` in order.
pub open spec fn registered_all(s: Seq<DescriptorView>, ds: Seq<DescriptorView>) -> Seq<DescriptorView>
    decreases ds.len(),
{
    if ds.len() == 0 {
        s
    } else {
        registered(registered_all(s, ds.drop_last()), ds.last())
    }
}

impl View for ToolRegistry {
    type V = Seq<DescriptorView>;

    closed spec fn view(&self) -> Seq<DescriptorView> {
        self.tools@.map_values(|t: ToolDescriptor| t@)
    }
}

/// The `annotations` members of a listing: the hints that are set.
pub open spec fn annotation_members(a: ToolAnnotations) -> Seq<(Seq<char>, JsonView)> {
    let m0 = Seq::<(Seq<char>, JsonView)>::empty();
    let m1 = match a.read_only_hint {
        Some(v) => m0.push(("readOnlyHint"@, JsonView::Bool(v))),
        None => m0,
    };
    let m2 = match a.destructive_hint {
        Some(v) => m1.push(("destructiveHint"@, JsonView::Bool(v))),
        None => m1,
    };
    let m3 = match a.idempotent_hint {
        Some(v) => m2.push(("idempotentHint"@, JsonView::Bool(v))),
        None => m2,
    };
    match a.open_world_hint {
        Some(v) => m3.push(("openWorldHint"@, JsonView::Bool(v))),
        None => m3,
    }
}

/// One tool in a `tools/list` answer.
pub open spec fn tool_json(d: DescriptorView) -> JsonView {
    let base = seq![
        ("name"@, JsonView::Str(d.name)),
        ("description"@, JsonView::Str(d.description)),
        ("inputSchema"@, d.input_schema),
    ];
    let ann = annotation_members(d.annotations);
    JsonView::Object(
        if ann.len() > 0 {
            base.push(("annotations"@, JsonView::Object(ann)))
        } else {
            base
        },
    )
}

/// The `tools/list` answer.
pub open spec fn listing_json(s: Seq<DescriptorView>) -> JsonView {
    JsonView::Object(seq![("tools"@, JsonView::Array(s.map_values(|d: DescriptorView| tool_json(d))))])
}

pub open spec fn unknown_tool_text(name: Seq<char>) -> Seq<char> {
    "알 수 없는 고베일 MCP 도구입니다: "@ + name
}

pub open spec fn system_failure_text() -> Seq<char> {
    "[L3 시스템 에러] 내부 시스템 장애가 발생하여 요청 처리에 실패했습니다. 서버 로그를 참고하세요."@
}

/// What the client sees of a tool's outcome: results pass through;
/// parameter and business errors are shown with their layer; system errors
/// are replaced by one fixed message that reveals nothing of them.
pub open spec fn settled_text(e: McpError) -> Seq<char> {
    match e {
        McpError::Param(p) => "[L1 파라미터 에러] "@ + p.text(),
        McpError::Business(b) => "[L2 비즈니스 에러] "@ + b.text(),
        McpError::System(_) => system_failure_text(),
    }
}

fn annotations_json(a: &ToolAnnotations) -> (r: Vec<(String, JsonValue)>)
    ensures
        members_view(r@) == annotation_members(*a),
{
    let mut m: Vec<(String, JsonValue)> = Vec::new();
    match a.read_only_hint {
        Some(v) => put(&mut m, "readOnlyHint", JsonValue::Bool(v)),
        None => {},
    }
    match a.destructive_hint {
        Some(v) => put(&mut m, "destructiveHint", JsonValue::Bool(v)),
        None => {},
    }
    match a.idempotent_hint {
        Some(v) => put(&mut m, "idempotentHint", JsonValue::Bool(v)),
        None => {},
    }
    match a.open_world_hint {
        Some(v) => put(&mut m, "openWorldHint", JsonValue::Bool(v)),
        None => {},
    }
    assert(members_view(m@) =~= annotation_members(*a));
    m
}

fn descriptor_json(d: &ToolDescriptor) -> (r: JsonValue)
    ensures
        r@ == tool_json(d@),
{
    let mut m: Vec<(String, JsonValue)> = Vec::new();
    put(&mut m, "name", JsonValue::string(d.name.as_str()));
    put(&mut m, "description", JsonValue::string(d.description.as_str()));
    put(&mut m, "inputSchema", d.input_schema.duplicate());
    let ann = annotations_json(&d.annotations);
    let ghost ann_view = members_view(ann@);
    if ann.len() > 0 {
        proof {
            lemma_object_view(ann);
        }
        put(&mut m, "annotations", JsonValue::Object(ann));
    }
    proof {
        lemma_object_view(m);
        assert(members_view(m@) =~= tool_json(d@)->Object_0);
    }
    JsonValue::Object(m)
}

impl ToolRegistry {
    pub closed spec fn well_formed(&self) -> bool {
        distinct_names(self@)
    }

    /// An empty registry.
    pub fn new() -> (r: Self)
        ensures
            r@ == Seq::<DescriptorView>::empty(),
            r.well_formed(),
    {
        let r = ToolRegistry { tools: Vec::new() };
        assert(r@ =~= Seq::<DescriptorView>::empty());
        r
    }

    /// Registers a tool, replacing one of the same name.
    pub fn register(&mut self, tool: ToolDescriptor)
        requires
            old(self).well_formed(),
        ensures
            final(self).well_formed(),
            final(self)@ == registered(old(self)@, tool@),
    {
        let ghost s = self@;
        let ghost d = tool@;
        let mut i: usize = 0;
        while i < self.tools.len()
            invariant
                i <= self.tools@.len(),
                s == self@,
                s == self.tools@.map_values(|t: ToolDescriptor| t@),
                forall|j: int| 0 <= j < i ==> (#[trigger] s[j]).name != d.name,
                distinct_names(s),
                d == tool@,
                s == old(self)@,
            decreases self.tools.len() - i,
        {
            assert(s[i as int] == self.tools@[i as int]@);
            if str_eq(self.tools[i].name.as_str(), tool.name.as_str()) {
                assert(s[i as int].name == d.name);
                assert(position_of(s, d.name) == Some(i as int)) by {
                    let k = choose|k: int| 0 <= k < s.len() && #[trigger] s[k].name == d.name;
                    assert(k == i as int);
                }
                self.tools.set(i, tool);
                assert(self@ =~= s.update(i as int, d));
                assert(registered(s, d) == s.update(i as int, d));
                return;
            }
            i = i + 1;
        }
        assert(position_of(s, d.name) is None);
        self.tools.push(tool);
        assert(self@ =~= s.push(d));
    }

    /// The tool named `name`, if registered.
    pub fn lookup(&self, name: &str) -> (r: Option<&ToolDescriptor>)
        requires
            self.well_formed(),
        ensures
            match r {
                Some(d) => entry_named(self@, name@) == Some(d@),
                None => entry_named(self@, name@) is None,
            },
    {
        let ghost s = self@;
        let mut i: usize = 0;
        while i < self.tools.len()
            invariant
                i <= self.tools@.len(),
                s == self@,
                s == self.tools@.map_values(|t: ToolDescriptor| t@),
                distinct_names(s),
                forall|j: int| 0 <= j < i ==> (#[trigger] s[j]).name != name@,
            decreases self.tools.len() - i,
        {
            assert(s[i as int] == self.tools@[i as int]@);
            if str_eq(self.tools[i].name.as_str(), name) {
                assert(s[i as int].name == name@);
                assert(position_of(s, name@) == Some(i as int)) by {
                    let k = choose|k: int| 0 <= k < s.len() && #[trigger] s[k].name == name@;
                    assert(k == i as int);
                }
                return Some(&self.tools[i]);
            }
            i = i + 1;
        }
        None
    }

    /// The number of registered tools.
    pub fn len(&self) -> (r: usize)
        ensures
            r == self@.len(),
    {
        self.tools.len()
    }

    /// The `tools/list` answer: every registered tool, in registration
    /// order, with its hints when any is set.
    pub fn list_tools(&self) -> (r: JsonValue)
        ensures
            r@ == listing_json(self@),
    {
        let ghost s = self@;
        let mut items: Vec<JsonValue> = Vec::new();
        let mut i: usize = 0;
        while i < self.tools.len()
            invariant
                i <= self.tools@.len(),
                s == self.tools@.map_values(|t: ToolDescriptor| t@),
                items@.len() == i,
                forall|j: int| 0 <= j < i ==> (#[trigger] items@[j])@ == tool_json(s[j]),
            decreases self.tools.len() - i,
        {
            items.push(descriptor_json(&self.tools[i]));
            i = i + 1;
        }
        proof {
            lemma_array_view(items);
            assert(items@.map_values(|x: JsonValue| x@) =~= s.map_values(|d: DescriptorView| tool_json(d)));
        }
        let mut m: Vec<(String, JsonValue)> = Vec::new();
        put(&mut m, "tools", JsonValue::Array(items));
        proof {
            lemma_object_view(m);
            assert(members_view(m@) =~= listing_json(s)->Object_0);
        }
        JsonValue::Object(m)
    }

    /// The answer to a call of a tool that is not registered.
    pub fn unknown_tool(name: &str) -> (r: ToolResult)
        ensures
            r.is_error,
            r.single_text() == Some(unknown_tool_text(name@)),
    {
        let mut m = string_of("알 수 없는 고베일 MCP 도구입니다: ");
        push_str(&mut m, name);
        ToolResult::error(m)
    }

    /// The result the client sees for a tool's outcome (see
    /// `settled_text`).
    pub fn settle(outcome: Result<ToolResult, McpError>) -> (r: ToolResult)
        ensures
            match outcome {
                Ok(t) => r == t,
                Err(e) => r.is_error && r.single_text() == Some(settled_text(e)),
            },
    {
        match outcome {
            Ok(t) => t,
            Err(McpError::Param(e)) => {
                let mut m = string_of("[L1 파라미터 에러] ");
                push_str(&mut m, e.message().as_str());
                ToolResult::error(m)
            },
            Err(McpError::Business(e)) => {
                let mut m = string_of("[L2 비즈니스 에러] ");
                push_str(&mut m, e.message().as_str());
                ToolResult::error(m)
            },
            Err(McpError::System(_)) => ToolResult::error(
                string_of(
                    "[L3 시스템 에러] 내부 시스템 장애가 발생하여 요청 처리에 실패했습니다. 서버 로그를 참고하세요.",
                ),
            ),
        }
    }
}

impl Default for ToolRegistry {
    fn default() -> (r: Self)
        ensures
            r@ == Seq::<DescriptorView>::empty(),
            r.well_formed(),
    {
        Self::new()
    }
}

/// In a registry without duplicate names, the entry found under a name is
/// the one at any position holding that name.
proof fn lemma_entry_at(s: Seq<DescriptorView>, i: int)
    requires
        distinct_names(s),
        0 <= i < s.len(),
    ensures
        position_of(s, s[i].name) == Some(i),
        entry_named(s, s[i].name) == Some(s[i]),
{
    let name = s[i].name;
    assert(exists|k: int| 0 <= k < s.len() && #[trigger] s[k].name == name);
    let k = choose|k: int| 0 <= k < s.len() && #[trigger] s[k].name == name;
    if k != i {
        assert(s[k].name != s[i].name);
    }
}

/// Registering a tool keeps names unique, makes the new tool the one found
/// under its name, and leaves what every other name finds unchanged.
pub proof fn law_register_then_lookup(s: Seq<DescriptorView>, d: DescriptorView, other: Seq<char>)
    requires
        distinct_names(s),
    ensures
        distinct_names(registered(s, d)),
        entry_named(registered(s, d), d.name) == Some(d),
        other != d.name ==> entry_named(registered(s, d), other) == entry_named(s, other),
{
    let t = registered(s, d);
    match position_of(s, d.name) {
        Some(i) => {
            assert(0 <= i < s.len() && s[i].name == d.name);
            assert(t == s.update(i, d));
            assert(distinct_names(t)) by {
                assert forall|a: int, b: int| 0 <= a < t.len() && 0 <= b < t.len() && a != b implies #[trigger] t[a].name
                    != #[trigger] t[b].name by {
                    if a == i {
                        assert(t[b].name == s[b].name);
                        assert(s[b].name != s[i].name);
                    } else if b == i {
                        assert(t[a].name == s[a].name);
                        assert(s[a].name != s[i].name);
                    } else {
                        assert(t[a].name == s[a].name && t[b].name == s[b].name);
                    }
                }
            }
            lemma_entry_at(t, i);
            if other != d.name {
                if exists|k: int| 0 <= k < s.len() && #[trigger] s[k].name == other {
                    let k = choose|k: int| 0 <= k < s.len() && #[trigger] s[k].name == other;
                    lemma_entry_at(s, k);
                    assert(k != i);
                    assert(t[k] == s[k]);
                    lemma_entry_at(t, k);
                } else {
                    assert forall|k: int| 0 <= k < t.len() implies #[trigger] t[k].name != other by {
                        if k != i {
                            assert(t[k] == s[k]);
                        }
                    }
                }
            }
        },
        None => {
            assert(t == s.push(d));
            assert(forall|k: int| 0 <= k < s.len() ==> #[trigger] s[k].name != d.name);
            assert(distinct_names(t)) by {
                assert forall|a: int, b: int| 0 <= a < t.len() && 0 <= b < t.len() && a != b implies #[trigger] t[a].name
                    != #[trigger] t[b].name by {
                    if a == s.len() {
                        assert(t[b] == s[b]);
                    } else if b == s.len() {
                        assert(t[a] == s[a]);
                    } else {
                        assert(t[a] == s[a] && t[b] == s[b]);
                    }
                }
            }
            lemma_entry_at(t, s.len() as int);
            if other != d.name {
                if exists|k: int| 0 <= k < s.len() && #[trigger] s[k].name == other {
                    let k = choose|k: int| 0 <= k < s.len() && #[trigger] s[k].name == other;
                    lemma_entry_at(s, k);
                    assert(t[k] == s[k]);
                    lemma_entry_at(t, k);
                } else {
                    assert forall|k: int| 0 <= k < t.len() implies #[trigger] t[k].name != other by {
                        if k < s.len() {
                            assert(t[k] == s[k]);
                        }
                    }
                }
            }
        },
    }
}

/// Whatever a system error holds, the client sees the same fixed message:
/// nothing of the failure's detail leaves the server.
pub proof fn law_system_errors_are_opaque(a: crate::mcp::protocol::SystemError, b: crate::mcp::protocol::SystemError)
    ensures
        settled_text(McpError::System(a)) == settled_text(McpError::System(b)),
        settled_text(McpError::System(a)) == system_failure_text(),
{
}

} // verus!
