//! `trigger_govail_job` and `get_govail_job_status`: start an asynchronous
//! agent workflow on the runtime service and report on it.
use vstd::prelude::*;
use crate::json::{JsonValue, JsonView, members_view, put};
use crate::mcp::protocol::{McpError, ParamError};
use crate::mcp::types::{DescriptorView, ToolAnnotations, ToolDescriptor};
use crate::tools::schema::{names1, object_schema, object_schema_json, prop, prop_json, prop_with};
use crate::text::{push_str, string_of};

verus! {

broadcast use vstd::string::group_string_axioms;

/// `trigger_govail_job`.
pub struct TriggerGovailJobTool;

/// `get_govail_job_status`.
pub struct GetGovailJobStatusTool;

/// The job to create.
#[derive(Debug)]
pub struct TriggerRequest {
    pub workflow_type: String,
    pub params: JsonValue,
    pub issue_ref: String,
}

/// The workflow parameters: the `params` member, or an empty object.
pub open spec fn workflow_params(params: JsonView) -> JsonView {
    match params.lookup("params"@) {
        Some(v) => v,
        None => JsonView::Object(Seq::empty()),
    }
}

pub open spec fn job_started_text(workflow_type: Seq<char>, response: JsonView) -> Seq<char> {
    "## 🚀 GoVail 비동기 Job 기동 성공\n\n- **워크플로우**: `"@ + workflow_type
        + "`\n- **작업 ID (Job ID)**: `"@ + response.str_or("job_id"@, ""@) + "`\n- **메시지**: "@
        + response.str_or("message"@, ""@)
        + "\n\n> 💡 이 Job ID를 사용하여 `get_govail_job_status` 도구로 진행 및 최종 결과 리포트를 받아올 수 있습니다."@
}

pub open spec fn report_unavailable() -> Seq<char> {
    "*[리포트 본문을 다운로드하지 못했습니다. 작업이 진행 중이거나 실패했을 수 있습니다]*"@
}

pub open spec fn job_status_text(job_id: Seq<char>, status: JsonView, report: Option<Seq<char>>) -> Seq<char> {
    "# 📊 GoVail Job 상세 및 결과 보고서\n\n- **작업 ID (Job ID)**: `"@ + job_id + "`\n- **워크플로우**: `"@
        + status.str_or("workflow_type"@, "UNKNOWN"@) + "`\n- **현재 상태**: `"@ + status.str_or(
        "status"@,
        "UNKNOWN"@,
    ) + "`\n- **마지막 업데이트**: `"@ + status.str_or("updated_at"@, "-"@)
        + "`\n\n---\n\n## 📝 작업 결과 리포트 (report.md)\n\n"@ + match report {
        Some(r) => r,
        None => report_unavailable(),
    } + "\n"@
}

impl TriggerGovailJobTool {
    pub fn new() -> (r: Self) {
        TriggerGovailJobTool
    }

    pub fn name(&self) -> (r: &'static str)
        ensures
            r@ == "trigger_govail_job"@,
    {
        "trigger_govail_job"
    }

    pub fn description(&self) -> (r: &'static str)
        ensures
            r@ == "GoVail Runtime에서 비동기 에이전트 작업(PR 생성, 코드리뷰, 버그 트레이스 등)을 실행시키고 Job ID를 반환받습니다."@,
    {
        "GoVail Runtime에서 비동기 에이전트 작업(PR 생성, 코드리뷰, 버그 트레이스 등)을 실행시키고 Job ID를 반환받습니다."
    }

    pub fn annotations(&self) -> (r: ToolAnnotations)
        ensures
            r.read_only_hint == Some(false) && r.destructive_hint == Some(false),
            r.idempotent_hint == Some(false) && r.open_world_hint is None,
    {
        ToolAnnotations::state_changing()
    }

    /// The job to create: `workflow_type` is required, `params` defaults to
    /// an empty object and `issue_ref` to `GOVAIL-MCP`.
    pub fn trigger_request(&self, params: &JsonValue) -> (r: Result<TriggerRequest, McpError>)
        ensures
            match r {
                Ok(q) => params@.str_at("workflow_type"@) == Some(q.workflow_type@) && q.params@
                    == workflow_params(params@) && q.issue_ref@ == params@.str_or("issue_ref"@, "GOVAIL-MCP"@),
                Err(McpError::Param(ParamError::Missing { field })) => params@.str_at("workflow_type"@)
                    is None && field@ == "workflow_type"@,
                _ => false,
            },
    {
        let workflow_type = match params.str_field("workflow_type") {
            Some(w) => string_of(w),
            None => {
                return Err(McpError::missing("workflow_type"));
            },
        };
        let sub_params = match params.get("params") {
            Some(p) => p.duplicate(),
            None => {
                let empty: Vec<(String, JsonValue)> = Vec::new();
                let v = JsonValue::Object(empty);
                assert(v@->Object_0 =~= Seq::<(Seq<char>, JsonView)>::empty());
                v
            },
        };
        let issue_ref = params.str_field_or("issue_ref", "GOVAIL-MCP");
        Ok(TriggerRequest { workflow_type, params: sub_params, issue_ref })
    }

    /// The answer once the runtime accepted the job.
    pub fn started_text(workflow_type: &str, response: &JsonValue) -> (r: String)
        ensures
            r@ == job_started_text(workflow_type@, response@),
    {
        let mut s = string_of("## 🚀 GoVail 비동기 Job 기동 성공\n\n- **워크플로우**: `");
        push_str(&mut s, workflow_type);
        push_str(&mut s, "`\n- **작업 ID (Job ID)**: `");
        push_str(&mut s, response.str_field_or("job_id", "").as_str());
        push_str(&mut s, "`\n- **메시지**: ");
        push_str(&mut s, response.str_field_or("message", "").as_str());
        push_str(
            &mut s,
            "\n\n> 💡 이 Job ID를 사용하여 `get_govail_job_status` 도구로 진행 및 최종 결과 리포트를 받아올 수 있습니다.",
        );
        assert(s@ =~= job_started_text(workflow_type@, response@));
        s
    }
}

impl GetGovailJobStatusTool {
    pub fn new() -> (r: Self) {
        GetGovailJobStatusTool
    }

    pub fn name(&self) -> (r: &'static str)
        ensures
            r@ == "get_govail_job_status"@,
    {
        "get_govail_job_status"
    }

    pub fn description(&self) -> (r: &'static str)
        ensures
            r@ == "제시된 Job ID를 기반으로 GoVail 비동기 작업의 최신 진행 상태와 완료된 마크다운 결과 보고서(report.md)를 받아옵니다."@,
    {
        "제시된 Job ID를 기반으로 GoVail 비동기 작업의 최신 진행 상태와 완료된 마크다운 결과 보고서(report.md)를 받아옵니다."
    }

    pub fn annotations(&self) -> (r: ToolAnnotations)
        ensures
            r.read_only_hint == Some(true) && r.idempotent_hint == Some(true),
            r.destructive_hint is None && r.open_world_hint is None,
    {
        ToolAnnotations::read_only()
    }

    /// The job to look up: `job_id` is required.
    pub fn job_id(&self, params: &JsonValue) -> (r: Result<String, McpError>)
        ensures
            match r {
                Ok(id) => params@.str_at("job_id"@) == Some(id@),
                Err(McpError::Param(ParamError::Missing { field })) => params@.str_at("job_id"@) is None
                    && field@ == "job_id"@,
                _ => false,
            },
    {
        match params.str_field("job_id") {
            Some(id) => Ok(string_of(id)),
            None => Err(McpError::missing("job_id")),
        }
    }

    /// The answer for a job's status and its report; `report` is `None`
    /// when the report could not be downloaded.
    pub fn status_text(job_id: &str, status: &JsonValue, report: Option<&str>) -> (r: String)
        ensures
            r@ == job_status_text(
                job_id@,
                status@,
                match report {
                    Some(t) => Some(t@),
                    None => None,
                },
            ),
    {
        let mut s = string_of("# 📊 GoVail Job 상세 및 결과 보고서\n\n- **작업 ID (Job ID)**: `");
        push_str(&mut s, job_id);
        push_str(&mut s, "`\n- **워크플로우**: `");
        push_str(&mut s, status.str_field_or("workflow_type", "UNKNOWN").as_str());
        push_str(&mut s, "`\n- **현재 상태**: `");
        push_str(&mut s, status.str_field_or("status", "UNKNOWN").as_str());
        push_str(&mut s, "`\n- **마지막 업데이트**: `");
        push_str(&mut s, status.str_field_or("updated_at", "-").as_str());
        push_str(&mut s, "`\n\n---\n\n## 📝 작업 결과 리포트 (report.md)\n\n");
        match report {
            Some(t) => push_str(&mut s, t),
            None => push_str(
                &mut s,
                "*[리포트 본문을 다운로드하지 못했습니다. 작업이 진행 중이거나 실패했을 수 있습니다]*",
            ),
        }
        push_str(&mut s, "\n");
        assert(s@ =~= job_status_text(
            job_id@,
            status@,
            match report {
                Some(t) => Some(t@),
                None => None,
            },
        ));
        s
    }
}

pub open spec fn trigger_job_descriptor() -> DescriptorView {
    DescriptorView {
        name: "trigger_govail_job"@,
        description: "GoVail Runtime에서 비동기 에이전트 작업(PR 생성, 코드리뷰, 버그 트레이스 등)을 실행시키고 Job ID를 반환받습니다."@,
        input_schema: trigger_job_schema(),
        annotations: ToolAnnotations { read_only_hint: Some(false), destructive_hint: Some(false), idempotent_hint: Some(false), open_world_hint: None },
    }
}

pub open spec fn trigger_job_schema() -> JsonView {
    object_schema_json(seq![("workflow_type"@, prop_json("string"@, "기동할 워크플로우 이름"@, seq![("enum"@, JsonView::Array(seq![JsonView::Str("bug_trace"@), JsonView::Str("pr_create"@), JsonView::Str("code_review"@), JsonView::Str("design_reviewer"@), JsonView::Str("action_approval"@)]))])), ("params"@, prop_json("object"@, "워크플로우 입력 파라미터 (예: {'bug_description': '...'} 등)"@, Seq::empty())), ("issue_ref"@, prop_json("string"@, "작업의 연관 이슈 코드/태스크 ID (기본값: 'GOVAIL-MCP')"@, Seq::empty()))], seq!["workflow_type"@])
}

impl TriggerGovailJobTool {
    /// The JSON Schema of the tool's parameters.
    pub fn input_schema(&self) -> (r: JsonValue)
        ensures
            r@ == trigger_job_schema(),
    {
        let mut props: Vec<(String, JsonValue)> = Vec::new();
        let mut extra0: Vec<(String, JsonValue)> = Vec::new();
        let mut names: Vec<String> = Vec::new();
        names.push(string_of("bug_trace"));
        names.push(string_of("pr_create"));
        names.push(string_of("code_review"));
        names.push(string_of("design_reviewer"));
        names.push(string_of("action_approval"));
        let choices = JsonValue::strings(&names);
        proof { assert(choices@->Array_0 =~= seq![JsonView::Str("bug_trace"@), JsonView::Str("pr_create"@), JsonView::Str("code_review"@), JsonView::Str("design_reviewer"@), JsonView::Str("action_approval"@)]); }
        put(&mut extra0, "enum", choices);
        proof { assert(members_view(extra0@) =~= seq![("enum"@, JsonView::Array(seq![JsonView::Str("bug_trace"@), JsonView::Str("pr_create"@), JsonView::Str("code_review"@), JsonView::Str("design_reviewer"@), JsonView::Str("action_approval"@)]))]); }
        put(&mut props, "workflow_type", prop_with("string", "기동할 워크플로우 이름", extra0));
        put(&mut props, "params", prop("object", "워크플로우 입력 파라미터 (예: {'bug_description': '...'} 등)"));
        put(&mut props, "issue_ref", prop("string", "작업의 연관 이슈 코드/태스크 ID (기본값: 'GOVAIL-MCP')"));
        let ghost pv = members_view(props@);
        proof { assert(pv =~= seq![("workflow_type"@, prop_json("string"@, "기동할 워크플로우 이름"@, seq![("enum"@, JsonView::Array(seq![JsonView::Str("bug_trace"@), JsonView::Str("pr_create"@), JsonView::Str("code_review"@), JsonView::Str("design_reviewer"@), JsonView::Str("action_approval"@)]))])), ("params"@, prop_json("object"@, "워크플로우 입력 파라미터 (예: {'bug_description': '...'} 등)"@, Seq::empty())), ("issue_ref"@, prop_json("string"@, "작업의 연관 이슈 코드/태스크 ID (기본값: 'GOVAIL-MCP')"@, Seq::empty()))]); }
        let required = names1("workflow_type");
        object_schema(props, &required)
    }

    /// What the registry lists for this tool.
    pub fn descriptor(&self) -> (r: ToolDescriptor)
        ensures
            r@ == trigger_job_descriptor(),
    {
        ToolDescriptor {
            name: string_of(self.name()),
            description: string_of(self.description()),
            input_schema: self.input_schema(),
            annotations: self.annotations(),
        }
    }
}

pub open spec fn job_status_descriptor() -> DescriptorView {
    DescriptorView {
        name: "get_govail_job_status"@,
        description: "제시된 Job ID를 기반으로 GoVail 비동기 작업의 최신 진행 상태와 완료된 마크다운 결과 보고서(report.md)를 받아옵니다."@,
        input_schema: job_status_schema(),
        annotations: ToolAnnotations { read_only_hint: Some(true), destructive_hint: None, idempotent_hint: Some(true), open_world_hint: None },
    }
}

pub open spec fn job_status_schema() -> JsonView {
    object_schema_json(seq![("job_id"@, prop_json("string"@, "조회할 대상 작업 고유 ID"@, Seq::empty()))], seq!["job_id"@])
}

impl GetGovailJobStatusTool {
    /// The JSON Schema of the tool's parameters.
    pub fn input_schema(&self) -> (r: JsonValue)
        ensures
            r@ == job_status_schema(),
    {
        let mut props: Vec<(String, JsonValue)> = Vec::new();
        put(&mut props, "job_id", prop("string", "조회할 대상 작업 고유 ID"));
        let ghost pv = members_view(props@);
        proof { assert(pv =~= seq![("job_id"@, prop_json("string"@, "조회할 대상 작업 고유 ID"@, Seq::empty()))]); }
        let required = names1("job_id");
        object_schema(props, &required)
    }

    /// What the registry lists for this tool.
    pub fn descriptor(&self) -> (r: ToolDescriptor)
        ensures
            r@ == job_status_descriptor(),
    {
        ToolDescriptor {
            name: string_of(self.name()),
            description: string_of(self.description()),
            input_schema: self.input_schema(),
            annotations: self.annotations(),
        }
    }
}

} // verus!
