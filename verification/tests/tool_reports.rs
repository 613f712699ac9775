use govail_mcp::json::{JsonNumber, JsonValue};
use govail_mcp::tools::memory::{SearchGovailContextTool, SearchRequest};
use govail_mcp::tools::runtime::{GetGovailJobStatusTool, TriggerGovailJobTool};
use govail_mcp::tools::sentinel::VerifyDlpPolicyTool;

fn s(v: &str) -> JsonValue {
    JsonValue::Str(v.to_string())
}

fn n(v: u64) -> JsonValue {
    JsonValue::Number(JsonNumber::Unsigned(v))
}

fn obj(members: Vec<(&str, JsonValue)>) -> JsonValue {
    JsonValue::Object(members.into_iter().map(|(k, v)| (k.to_string(), v)).collect())
}

#[test]
fn scan_request_defaults() {
    let tool = VerifyDlpPolicyTool::new();
    let q = tool.scan_request(&obj(vec![("code", s("diff"))])).unwrap();
    assert_eq!(q.code, "diff");
    assert_eq!(q.mode, "full");
    assert!(q.auto_fix);
    let q = tool
        .scan_request(&obj(vec![("code", s("x")), ("mode", s("static")), ("auto_fix", JsonValue::Bool(false))]))
        .unwrap();
    assert_eq!(q.mode, "static");
    assert!(!q.auto_fix);
    let e = tool.scan_request(&obj(vec![])).err().unwrap();
    assert_eq!(e.message(), "필수 파라미터 누락: code");
}

#[test]
fn dlp_report_renders_every_section() {
    let response = obj(vec![
        ("verdict", s("Block")),
        ("stats", obj(vec![("violations_found", n(2)), ("critical_count", n(1)), ("warning_count", n(1))])),
        (
            "violations",
            JsonValue::Array(vec![
                obj(vec![
                    ("rule", s("no-secrets")),
                    ("severity", s("critical")),
                    ("file", s("a.rs")),
                    ("line", n(3)),
                    ("description", s("secret")),
                    ("suggestion", s("use env")),
                ]),
                obj(vec![]),
            ]),
        ),
        (
            "fixes",
            JsonValue::Array(vec![
                obj(vec![
                    ("file", s("a.rs")),
                    ("original", s("  let k = \"x\";  ")),
                    ("replacement", s(" let k = env(); ")),
                    ("reason", s("leak")),
                ]),
                obj(vec![("replacement", s("rotate keys"))]),
            ]),
        ),
    ]);
    let report = VerifyDlpPolicyTool::report(&response, "12.50");
    let expected = String::new()
        + "# 🛡️ GoVail Sentinel DLP 검증 결과\n\n- **최종 보안 판정**: `🚫 BLOCK (정책 위반으로 제출 차단)`\n"
        + "- **발견된 위반 건수**: `2`건 (Critical: `1`, Warning: `1`)\n- **검사 소요 시간**: `12.50 ms`\n\n"
        + "## 🚨 검출된 보안/설계 규칙 위반 목록\n\n"
        + "### 1. `no-secrets` [CRITICAL]\n- **대상**: 파일 `a.rs` (라인 `3`)\n- **내용**: secret\n- **해결 방안 가이드**: use env\n\n"
        + "### 2. `unknown-rule` [INFO]\n- **대상**: 파일 `N/A` (라인 `N/A`)\n- **내용**: \n- **해결 방안 가이드**: -\n\n"
        + "## 💡 권장 수정 제안 (Auto-Fix Suggestions)\n\n"
        + "### 📂 파일: `a.rs` (라인: `N/A`)\n- **원인**: leak\n```diff\n- let k = \"x\";\n+ let k = env();\n```\n\n"
        + "### 📂 파일: `unknown` (라인: `N/A`)\n- **원인**: \n```text\n(가이드라인 및 추가 제안):\nrotate keys\n```\n\n";
    assert_eq!(report, expected);
}

#[test]
fn dlp_report_without_details() {
    let report = VerifyDlpPolicyTool::report(&obj(vec![("verdict", s("safe")), ("violations", JsonValue::Array(vec![]))]), "0.00");
    assert_eq!(report, "# 🛡️ GoVail Sentinel DLP 검증 결과\n\n- **최종 보안 판정**: `✅ SAFE (보안 통과)`\n");
    let unknown = VerifyDlpPolicyTool::report(&obj(vec![]), "0.00");
    assert!(unknown.contains("❓ UNKNOWN (판정 알 수 없음)"));
    let warn = VerifyDlpPolicyTool::report(&obj(vec![("verdict", s("WARN"))]), "0.00");
    assert!(warn.contains("⚠️ WARN (주의/수정 권고)"));
}

#[test]
fn search_request_defaults_and_limit() {
    let tool = SearchGovailContextTool::new();
    let q = tool.search_request(&obj(vec![("query", s("auth"))])).unwrap();
    assert_eq!(q.project_id, "govail");
    assert_eq!(q.limit, 5);
    let q = tool
        .search_request(&obj(vec![("query", s("auth")), ("project_id", s("p")), ("limit", n((1u64 << 32) + 3))]))
        .unwrap();
    assert_eq!(q.project_id, "p");
    assert_eq!(q.limit, 3);
    assert!(tool.search_request(&obj(vec![("query", n(1))])).is_err());
}

#[test]
fn search_report_lists_chunks() {
    let request = SearchRequest { project_id: "govail".to_string(), query: "auth".to_string(), limit: 5 };
    let response = obj(vec![
        ("memory_hit", JsonValue::Bool(true)),
        ("chunks", JsonValue::Array(vec![obj(vec![("text", s("t1")), ("source_id", s("doc-1"))]), obj(vec![])])),
    ]);
    let scores = vec!["0.5000".to_string(), "0.0000".to_string()];
    let report = SearchGovailContextTool::report(&request, &response, "true", &scores);
    let expected = String::new()
        + "# 🔍 GoVail RAG 검색 결과\n\n- **프로젝트 ID**: `govail`\n- **질의어**: \"auth\"\n"
        + "- **메모리 히트**: `true`\n\n"
        + "## 📄 관련 문서 조각 목록\n\n"
        + "### [1] 문서 소스 ID: `doc-1` (유사도 점수: 0.5000)\n```text\nt1\n```\n\n"
        + "### [2] 문서 소스 ID: `unknown` (유사도 점수: 0.0000)\n```text\n\n```\n\n";
    assert_eq!(report, expected);
}

#[test]
fn search_report_without_chunks() {
    let request = SearchRequest { project_id: "p".to_string(), query: "q".to_string(), limit: 5 };
    let response = obj(vec![("chunks", JsonValue::Array(vec![]))]);
    let report = SearchGovailContextTool::report(&request, &response, "", &vec![]);
    assert_eq!(
        report,
        "# 🔍 GoVail RAG 검색 결과\n\n- **프로젝트 ID**: `p`\n- **질의어**: \"q\"\n> ⚠️ 검색어와 관련된 문서 조각(Chunk)을 찾지 못했습니다.\n"
    );
}

#[test]
fn trigger_request_defaults() {
    let tool = TriggerGovailJobTool::new();
    let q = tool.trigger_request(&obj(vec![("workflow_type", s("bug_trace"))])).unwrap();
    assert_eq!(q.workflow_type, "bug_trace");
    assert_eq!(q.issue_ref, "GOVAIL-MCP");
    match q.params {
        JsonValue::Object(m) => assert!(m.is_empty()),
        other => panic!("unexpected {:?}", other),
    }
    let e = tool.trigger_request(&obj(vec![])).err().unwrap();
    assert_eq!(e.message(), "필수 파라미터 누락: workflow_type");
}

#[test]
fn job_started_text() {
    let text = TriggerGovailJobTool::started_text("pr_create", &obj(vec![("job_id", s("j-9")), ("message", s("queued"))]));
    assert_eq!(
        text,
        "## 🚀 GoVail 비동기 Job 기동 성공\n\n- **워크플로우**: `pr_create`\n- **작업 ID (Job ID)**: `j-9`\n- **메시지**: queued\n\n> 💡 이 Job ID를 사용하여 `get_govail_job_status` 도구로 진행 및 최종 결과 리포트를 받아올 수 있습니다."
    );
}

#[test]
fn job_status_text_with_and_without_report() {
    let status = obj(vec![("status", s("DONE")), ("workflow_type", s("code_review")), ("updated_at", s("t1"))]);
    let with = GetGovailJobStatusTool::status_text("j-1", &status, Some("# Report"));
    assert_eq!(
        with,
        "# 📊 GoVail Job 상세 및 결과 보고서\n\n- **작업 ID (Job ID)**: `j-1`\n- **워크플로우**: `code_review`\n- **현재 상태**: `DONE`\n- **마지막 업데이트**: `t1`\n\n---\n\n## 📝 작업 결과 리포트 (report.md)\n\n# Report\n"
    );
    let without = GetGovailJobStatusTool::status_text("j-1", &obj(vec![]), None);
    assert!(without.contains("- **현재 상태**: `UNKNOWN`"));
    assert!(without.contains("- **마지막 업데이트**: `-`"));
    assert!(without.ends_with("*[리포트 본문을 다운로드하지 못했습니다. 작업이 진행 중이거나 실패했을 수 있습니다]*\n"));
    let tool = GetGovailJobStatusTool::new();
    assert_eq!(tool.job_id(&obj(vec![("job_id", s("x"))])).unwrap(), "x");
}
