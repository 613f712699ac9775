//! `search_govail_context`: searches the project memory (RAG) for design
//! documents, architecture guidelines and security principles, and renders
//! the chunks it finds as Markdown.
use vstd::prelude::*;
use crate::json::{JsonNumber, JsonValue, JsonView, NumberView, members_view, put};
use crate::mcp::protocol::{McpError, ParamError};
use crate::mcp::types::{DescriptorView, ToolAnnotations, ToolDescriptor};
use crate::tools::schema::{names1, object_schema, object_schema_json, prop, prop_json, prop_with};
use crate::text::{decimal, push_decimal, push_str, string_of};

verus! {

broadcast use vstd::string::group_string_axioms;

/// `search_govail_context`.
pub struct SearchGovailContextTool;

/// What the tool asks the memory service.
#[derive(Debug, Clone)]
pub struct SearchRequest {
    pub project_id: String,
    pub query: String,
    pub limit: u32,
}

/// The requested number of chunks: the `limit` parameter (5 when absent),
/// cut to 32 bits as the service's parameter is.
pub open spec fn limit_of(params: JsonView) -> u32 {
    match params.u64_at("limit"@) {
        Some(n) => n as u32,
        None => 5u32,
    }
}

pub open spec fn search_head(project_id: Seq<char>, query: Seq<char>) -> Seq<char> {
    "# 🔍 GoVail RAG 검색 결과\n\n- **프로젝트 ID**: `"@ + project_id + "`\n- **질의어**: \""@ + query + "\"\n"@
}

pub open spec fn hit_section(response: JsonView, hit_text: Seq<char>) -> Seq<char> {
    if response.lookup("memory_hit"@) is Some {
        "- **메모리 히트**: `"@ + hit_text + "`\n\n"@
    } else {
        Seq::empty()
    }
}

pub open spec fn chunk_block(i: nat, chunk: JsonView, score_text: Seq<char>) -> Seq<char> {
    "### ["@ + decimal(i + 1) + "] 문서 소스 ID: `"@ + chunk.str_or("source_id"@, "unknown"@)
        + "` (유사도 점수: "@ + score_text + ")\n"@ + "```text\n"@ + chunk.str_or("text"@, ""@)
        + "\n```\n\n"@
}

pub open spec fn chunk_blocks(cs: Seq<JsonView>, scores: Seq<Seq<char>>, n: int) -> Seq<char>
    decreases n,
{
    if n <= 0 || n > cs.len() {
        Seq::empty()
    } else {
        chunk_blocks(cs, scores, n - 1) + chunk_block((n - 1) as nat, cs[n - 1], scores[n - 1])
    }
}

pub open spec fn chunks_section(response: JsonView, scores: Seq<Seq<char>>) -> Seq<char> {
    match response.array_at("chunks"@) {
        Some(cs) => if cs.len() == 0 {
            "> ⚠️ 검색어와 관련된 문서 조각(Chunk)을 찾지 못했습니다.\n"@
        } else {
            "## 📄 관련 문서 조각 목록\n\n"@ + chunk_blocks(cs, scores, cs.len() as int)
        },
        None => Seq::empty(),
    }
}

pub open spec fn search_report(
    project_id: Seq<char>,
    query: Seq<char>,
    response: JsonView,
    hit_text: Seq<char>,
    scores: Seq<Seq<char>>,
) -> Seq<char> {
    search_head(project_id, query) + hit_section(response, hit_text) + chunks_section(response, scores)
}

impl SearchGovailContextTool {
    pub fn new() -> (r: Self) {
        SearchGovailContextTool
    }

    pub fn name(&self) -> (r: &'static str)
        ensures
            r@ == "search_govail_context"@,
    {
        "search_govail_context"
    }

    pub fn description(&self) -> (r: &'static str)
        ensures
            r@ == "GoVail Memory RAG 엔진에서 프로젝트 설계 문서, 아키텍처 가이드라인, 보안 원칙을 검색하여 반환합니다."@,
    {
        "GoVail Memory RAG 엔진에서 프로젝트 설계 문서, 아키텍처 가이드라인, 보안 원칙을 검색하여 반환합니다."
    }

    pub fn annotations(&self) -> (r: ToolAnnotations)
        ensures
            r.read_only_hint == Some(true) && r.idempotent_hint == Some(true),
            r.destructive_hint is None && r.open_world_hint is None,
    {
        ToolAnnotations::read_only()
    }

    /// The search to run: `query` is required, `project_id` defaults to
    /// `govail` and `limit` to 5.
    pub fn search_request(&self, params: &JsonValue) -> (r: Result<SearchRequest, McpError>)
        ensures
            match r {
                Ok(q) => params@.str_at("query"@) == Some(q.query@) && q.project_id@ == params@.str_or(
                    "project_id"@,
                    "govail"@,
                ) && q.limit == limit_of(params@),
                Err(McpError::Param(ParamError::Missing { field })) => params@.str_at("query"@) is None
                    && field@ == "query"@,
                _ => false,
            },
    {
        let query = match params.str_field("query") {
            Some(q) => string_of(q),
            None => {
                return Err(McpError::missing("query"));
            },
        };
        let project_id = params.str_field_or("project_id", "govail");
        let limit: u32 = match params.u64_field("limit") {
            Some(n) => n as u32,
            None => 5,
        };
        Ok(SearchRequest { project_id, query, limit })
    }

    /// The Markdown report of a search response. `hit_text` is the JSON text
    /// of the `memory_hit` member and `scores[i]` the similarity score of
    /// chunk `i` with four decimals, both as rendered by the caller.
    pub fn report(request: &SearchRequest, response: &JsonValue, hit_text: &str, scores: &Vec<String>) -> (r: String)
        requires
            response@.array_at("chunks"@) matches Some(cs) ==> scores@.len() == cs.len(),
        ensures
            r@ == search_report(
                request.project_id@,
                request.query@,
                response@,
                hit_text@,
                scores@.map_values(|s: String| s@),
            ),
    {
        let ghost sv = scores@.map_values(|s: String| s@);
        let mut report = string_of("# 🔍 GoVail RAG 검색 결과\n\n- **프로젝트 ID**: `");
        push_str(&mut report, request.project_id.as_str());
        push_str(&mut report, "`\n- **질의어**: \"");
        push_str(&mut report, request.query.as_str());
        push_str(&mut report, "\"\n");
        if response.get("memory_hit").is_some() {
            push_str(&mut report, "- **메모리 히트**: `");
            push_str(&mut report, hit_text);
            push_str(&mut report, "`\n\n");
        }
        let ghost after_hit = report@;
        assert(after_hit =~= search_head(request.project_id@, request.query@) + hit_section(response@, hit_text@));
        match response.array_field("chunks") {
            Some(cs) => {
                if cs.len() == 0 {
                    push_str(&mut report, "> ⚠️ 검색어와 관련된 문서 조각(Chunk)을 찾지 못했습니다.\n");
                } else {
                    push_str(&mut report, "## 📄 관련 문서 조각 목록\n\n");
                    let ghost views = cs@.map_values(|x: JsonValue| x@);
                    let ghost base = report@;
                    let mut i: usize = 0;
                    while i < cs.len()
                        invariant
                            i <= cs@.len(),
                            cs@.len() == scores@.len(),
                            views == cs@.map_values(|x: JsonValue| x@),
                            sv == scores@.map_values(|s: String| s@),
                            report@ == base + chunk_blocks(views, sv, i as int),
                        decreases cs.len() - i,
                    {
                        let chunk = &cs[i];
                        push_str(&mut report, "### [");
                        push_decimal(&mut report, i as u64 + 1);
                        push_str(&mut report, "] 문서 소스 ID: `");
                        push_str(&mut report, chunk.str_field_or("source_id", "unknown").as_str());
                        push_str(&mut report, "` (유사도 점수: ");
                        push_str(&mut report, scores[i].as_str());
                        push_str(&mut report, ")\n");
                        push_str(&mut report, "```text\n");
                        push_str(&mut report, chunk.str_field_or("text", "").as_str());
                        push_str(&mut report, "\n```\n\n");
                        i = i + 1;
                        assert(report@ =~= base + chunk_blocks(views, sv, i as int));
                    }
                }
            },
            None => {},
        }
        assert(report@ =~= after_hit + chunks_section(response@, sv));
        report
    }
}

pub open spec fn search_context_descriptor() -> DescriptorView {
    DescriptorView {
        name: "search_govail_context"@,
        description: "GoVail Memory RAG 엔진에서 프로젝트 설계 문서, 아키텍처 가이드라인, 보안 원칙을 검색하여 반환합니다."@,
        input_schema: search_context_schema(),
        annotations: ToolAnnotations { read_only_hint: Some(true), destructive_hint: None, idempotent_hint: Some(true), open_world_hint: None },
    }
}

pub open spec fn search_context_schema() -> JsonView {
    object_schema_json(seq![("query"@, prop_json("string"@, "RAG 지식 검색을 위한 질문 또는 핵심 키워드"@, Seq::empty())), ("project_id"@, prop_json("string"@, "검색할 네임스페이스 프로젝트 ID (기본값: 'govail')"@, Seq::empty())), ("limit"@, prop_json("integer"@, "조회할 문서 청크 수 (기본값: 5, 최대: 20)"@, seq![("minimum"@, JsonView::Number(NumberView::Unsigned(1u64))), ("maximum"@, JsonView::Number(NumberView::Unsigned(20u64)))]))], seq!["query"@])
}

impl SearchGovailContextTool {
    /// The JSON Schema of the tool's parameters.
    pub fn input_schema(&self) -> (r: JsonValue)
        ensures
            r@ == search_context_schema(),
    {
        let mut props: Vec<(String, JsonValue)> = Vec::new();
        put(&mut props, "query", prop("string", "RAG 지식 검색을 위한 질문 또는 핵심 키워드"));
        put(&mut props, "project_id", prop("string", "검색할 네임스페이스 프로젝트 ID (기본값: 'govail')"));
        let mut extra2: Vec<(String, JsonValue)> = Vec::new();
        put(&mut extra2, "minimum", JsonValue::Number(JsonNumber::Unsigned(1)));
        put(&mut extra2, "maximum", JsonValue::Number(JsonNumber::Unsigned(20)));
        proof { assert(members_view(extra2@) =~= seq![("minimum"@, JsonView::Number(NumberView::Unsigned(1u64))), ("maximum"@, JsonView::Number(NumberView::Unsigned(20u64)))]); }
        put(&mut props, "limit", prop_with("integer", "조회할 문서 청크 수 (기본값: 5, 최대: 20)", extra2));
        let ghost pv = members_view(props@);
        proof { assert(pv =~= seq![("query"@, prop_json("string"@, "RAG 지식 검색을 위한 질문 또는 핵심 키워드"@, Seq::empty())), ("project_id"@, prop_json("string"@, "검색할 네임스페이스 프로젝트 ID (기본값: 'govail')"@, Seq::empty())), ("limit"@, prop_json("integer"@, "조회할 문서 청크 수 (기본값: 5, 최대: 20)"@, seq![("minimum"@, JsonView::Number(NumberView::Unsigned(1u64))), ("maximum"@, JsonView::Number(NumberView::Unsigned(20u64)))]))]); }
        let required = names1("query");
        object_schema(props, &required)
    }

    /// What the registry lists for this tool.
    pub fn descriptor(&self) -> (r: ToolDescriptor)
        ensures
            r@ == search_context_descriptor(),
    {
        ToolDescriptor {
            name: string_of(self.name()),
            description: string_of(self.description()),
            input_schema: self.input_schema(),
            annotations: self.annotations(),
        }
    }
}

} // verus!
