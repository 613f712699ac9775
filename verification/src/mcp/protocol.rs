//! JSON-RPC 2.0 messages as the SSE server exchanges them, MCP tool results,
//! and the three layers of tool errors: parameter errors, business errors
//! and system errors.
use vstd::prelude::*;
use crate::json::{JsonValue, JsonView, lemma_array_view, lemma_object_view, members_view, put};
use crate::text::{decimal, push_decimal, push_str, string_of};

verus! {

broadcast use vstd::string::group_string_axioms;

/// A JSON-RPC 2.0 request.
#[derive(Debug)]
pub struct JsonRpcRequest {
    pub jsonrpc: String,
    pub id: Option<JsonValue>,
    pub method: String,
    pub params: Option<JsonValue>,
}

/// A JSON-RPC 2.0 error object.
#[derive(Debug)]
pub struct JsonRpcError {
    pub code: i32,
    pub message: String,
    pub data: Option<JsonValue>,
}

/// A JSON-RPC 2.0 response: exactly one of `result` and `error` is set by
/// the constructors below.
#[derive(Debug)]
pub struct JsonRpcResponse {
    pub jsonrpc: String,
    pub id: JsonValue,
    pub result: Option<JsonValue>,
    pub error: Option<JsonRpcError>,
}
impl JsonRpcResponse {
    /// A success response carrying `result`.
    pub fn success(id: JsonValue, result: JsonValue) -> (r: Self)
        ensures
            r.jsonrpc@ == "2.0"@,
            r.id@ == id@,
            r.result is Some && r.result->0@ == result@,
            r.error is None,
    {
        JsonRpcResponse { jsonrpc: string_of("2.0"), id, result: Some(result), error: None }
    }

    /// An error response with the given code and message.
    pub fn error(id: JsonValue, code: i32, message: &str) -> (r: Self)
        ensures
            r.jsonrpc@ == "2.0"@,
            r.id@ == id@,
            r.result is None,
            r.error is Some,
            r.error->0.code == code,
            r.error->0.message@ == message@,
            r.error->0.data is None,
    {
        JsonRpcResponse {
            jsonrpc: string_of("2.0"),
            id,
            result: None,
            error: Some(JsonRpcError { code, message: string_of(message), data: None }),
        }
    }

    /// A parse error (-32700), which has no request id to answer.
    pub fn parse_error(message: &str) -> (r: Self)
        ensures
            r.jsonrpc@ == "2.0"@,
            r.id@ == JsonView::Null,
            r.result is None,
            r.error is Some,
            r.error->0.code == -32700,
            r.error->0.message@ == message@,
            r.error->0.data is None,
    {
        Self::error(JsonValue::Null, -32700, message)
    }

    /// A method-not-found error (-32601) that names the method.
    pub fn method_not_found(id: JsonValue, method: &str) -> (r: Self)
        ensures
            r.jsonrpc@ == "2.0"@,
            r.id@ == id@,
            r.result is None,
            r.error is Some,
            r.error->0.code == -32601,
            r.error->0.message@ == "존재하지 않는 메소드입니다: "@ + method@,
            r.error->0.data is None,
    {
        let mut m = string_of("존재하지 않는 메소드입니다: ");
        push_str(&mut m, method);
        Self::error(id, -32601, m.as_str())
    }
}

/// One block of tool output; only text blocks are produced.
#[derive(Debug, Clone)]
pub enum ContentBlock {
    Text { text: String },
}

/// The result of a tool call.
#[derive(Debug, Clone)]
pub struct ToolResult {
    pub content: Vec<ContentBlock>,
    pub is_error: bool,
}

impl ToolResult {
    /// The single text of the result, when it holds exactly one block.
    pub open spec fn single_text(self) -> Option<Seq<char>> {
        if self.content@.len() == 1 {
            match self.content@[0] {
                ContentBlock::Text { text } => Some(text@),
            }
        } else {
            None
        }
    }

    /// A successful result holding one text block.
    pub fn text(content: String) -> (r: Self)
        ensures
            r.single_text() == Some(content@),
            !r.is_error,
    {
        ToolResult { content: vec![ContentBlock::Text { text: content }], is_error: false }
    }

    /// A failed result holding one text block with the message.
    pub fn error(message: String) -> (r: Self)
        ensures
            r.single_text() == Some(message@),
            r.is_error,
    {
        ToolResult { content: vec![ContentBlock::Text { text: message }], is_error: true }
    }
}

pub open spec fn block_json(b: ContentBlock) -> JsonView {
    match b {
        ContentBlock::Text { text } => JsonView::Object(
            seq![("type"@, JsonView::Str("text"@)), ("text"@, JsonView::Str(text@))],
        ),
    }
}

impl ToolResult {
    /// The result as MCP writes it: `{"content": [...], "isError": ..}`,
    /// each block tagged with its `type`.
    pub open spec fn json_view(self) -> JsonView {
        JsonView::Object(
            seq![
                ("content"@, JsonView::Array(self.content@.map_values(|b: ContentBlock| block_json(b)))),
                ("isError"@, JsonView::Bool(self.is_error)),
            ],
        )
    }

    pub fn to_json(&self) -> (r: JsonValue)
        ensures
            r@ == self.json_view(),
    {
        let mut items: Vec<JsonValue> = Vec::new();
        let mut i: usize = 0;
        while i < self.content.len()
            invariant
                i <= self.content@.len(),
                items@.len() == i,
                forall|j: int| 0 <= j < i ==> (#[trigger] items@[j])@ == block_json(self.content@[j]),
            decreases self.content.len() - i,
        {
            match &self.content[i] {
                ContentBlock::Text { text } => {
                    let mut m: Vec<(String, JsonValue)> = Vec::new();
                    put(&mut m, "type", JsonValue::string("text"));
                    put(&mut m, "text", JsonValue::string(text.as_str()));
                    proof {
                        lemma_object_view(m);
                        assert(members_view(m@) =~= block_json(self.content@[i as int])->Object_0);
                    }
                    items.push(JsonValue::Object(m));
                },
            }
            i = i + 1;
        }
        proof {
            lemma_array_view(items);
            assert(items@.map_values(|x: JsonValue| x@) =~= self.content@.map_values(|b: ContentBlock| block_json(b)));
        }
        let mut m: Vec<(String, JsonValue)> = Vec::new();
        put(&mut m, "content", JsonValue::Array(items));
        put(&mut m, "isError", JsonValue::Bool(self.is_error));
        proof {
            lemma_object_view(m);
            assert(members_view(m@) =~= self.json_view()->Object_0);
        }
        JsonValue::Object(m)
    }
}

/// Layer 1: the caller's parameters are wrong.
#[derive(Debug)]
pub enum ParamError {
    Missing { field: String },
    TypeMismatch { field: String, expected: String, actual: String },
    /// A JSON document could not be read or written; the text is the
    /// parser's own message.
    JsonParse(String),
}

/// Layer 2: the target service refused or the target does not exist.
#[derive(Debug)]
pub enum BusinessError {
    ApiFailure { status: u16, body: String },
    NotFound { detail: String },
}

/// Layer 3: infrastructure failures; the texts are the underlying errors'
/// own messages.
#[derive(Debug)]
pub enum SystemError {
    Io(String),
    Http(String),
    Internal(String),
}

/// Any tool error.
#[derive(Debug)]
pub enum McpError {
    Param(ParamError),
    Business(BusinessError),
    System(SystemError),
}

impl ParamError {
    pub open spec fn text(self) -> Seq<char> {
        match self {
            ParamError::Missing { field } => "필수 파라미터 누락: "@ + field@,
            ParamError::TypeMismatch { field, expected, actual } => "파라미터 타입 불일치: "@ + field@
                + " (기대: "@ + expected@ + ", 실제: "@ + actual@ + ")"@,
            ParamError::JsonParse(m) => "JSON 파싱 실패: "@ + m@,
        }
    }

    /// The error's message.
    pub fn message(&self) -> (r: String)
        ensures
            r@ == self.text(),
    {
        match self {
            ParamError::Missing { field } => {
                let mut s = string_of("필수 파라미터 누락: ");
                push_str(&mut s, field.as_str());
                s
            },
            ParamError::TypeMismatch { field, expected, actual } => {
                let mut s = string_of("파라미터 타입 불일치: ");
                push_str(&mut s, field.as_str());
                push_str(&mut s, " (기대: ");
                push_str(&mut s, expected.as_str());
                push_str(&mut s, ", 실제: ");
                push_str(&mut s, actual.as_str());
                push_str(&mut s, ")");
                s
            },
            ParamError::JsonParse(m) => {
                let mut s = string_of("JSON 파싱 실패: ");
                push_str(&mut s, m.as_str());
                s
            },
        }
    }
}

impl BusinessError {
    pub open spec fn text(self) -> Seq<char> {
        match self {
            BusinessError::ApiFailure { status, body } => "API 호출 실패 (상태 코드: "@ + decimal(
                status as nat,
            ) + ", 바디: "@ + body@ + ")"@,
            BusinessError::NotFound { detail } => "원하는 대상을 찾을 수 없습니다: "@ + detail@,
        }
    }

    /// The error's message.
    pub fn message(&self) -> (r: String)
        ensures
            r@ == self.text(),
    {
        match self {
            BusinessError::ApiFailure { status, body } => {
                let mut s = string_of("API 호출 실패 (상태 코드: ");
                push_decimal(&mut s, *status as u64);
                push_str(&mut s, ", 바디: ");
                push_str(&mut s, body.as_str());
                push_str(&mut s, ")");
                s
            },
            BusinessError::NotFound { detail } => {
                let mut s = string_of("원하는 대상을 찾을 수 없습니다: ");
                push_str(&mut s, detail.as_str());
                s
            },
        }
    }
}

impl SystemError {
    pub open spec fn text(self) -> Seq<char> {
        match self {
            SystemError::Io(m) => "IO 오류: "@ + m@,
            SystemError::Http(m) => "HTTP 클라이언트 통신 오류: "@ + m@,
            SystemError::Internal(m) => "기타 내부 시스템 오류: "@ + m@,
        }
    }

    /// The error's message.
    pub fn message(&self) -> (r: String)
        ensures
            r@ == self.text(),
    {
        let (prefix, m) = match self {
            SystemError::Io(m) => ("IO 오류: ", m),
            SystemError::Http(m) => ("HTTP 클라이언트 통신 오류: ", m),
            SystemError::Internal(m) => ("기타 내부 시스템 오류: ", m),
        };
        let mut s = string_of(prefix);
        push_str(&mut s, m.as_str());
        s
    }
}

impl McpError {
    /// The message of the wrapped error: each layer passes its error's
    /// message through unchanged.
    pub open spec fn text(self) -> Seq<char> {
        match self {
            McpError::Param(e) => e.text(),
            McpError::Business(e) => e.text(),
            McpError::System(e) => e.text(),
        }
    }

    pub fn message(&self) -> (r: String)
        ensures
            r@ == self.text(),
    {
        match self {
            McpError::Param(e) => e.message(),
            McpError::Business(e) => e.message(),
            McpError::System(e) => e.message(),
        }
    }

    /// A missing-parameter error for `field`.
    pub fn missing(field: &str) -> (r: Self)
        ensures
            r matches McpError::Param(ParamError::Missing { field: f }) && f@ == field@,
    {
        McpError::Param(ParamError::Missing { field: string_of(field) })
    }
}

} // verus!
