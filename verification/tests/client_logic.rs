use govail_mcp::client::{
    accept_response, brief_content, evidence_rows, sanitize_path_segment, scan_body, search_body,
    system_prompt, trim_end_slashes, unreadable_response, user_prompt, ClientSettings,
};
use govail_mcp::json::{JsonNumber, JsonValue};
use govail_mcp::mcp::protocol::{BusinessError, McpError};

fn s(v: &str) -> JsonValue {
    JsonValue::Str(v.to_string())
}

fn obj(members: Vec<(&str, JsonValue)>) -> JsonValue {
    JsonValue::Object(members.into_iter().map(|(k, v)| (k.to_string(), v)).collect())
}

fn settings() -> ClientSettings {
    ClientSettings {
        memory_url: "http://mem:8095//".to_string(),
        runtime_url: "http://rt:8080".to_string(),
        sentinel_url: "http://sentinel:8300/".to_string(),
        sentinel_api_token: String::new(),
        llm_api_url: "http://llm/v1/".to_string(),
        llm_api_key: "none".to_string(),
        llm_model: "auto".to_string(),
        llm_max_tokens: 1024,
        llm_enable_thinking: false,
        grc_database_url: String::new(),
        grc_evidence_store_dir: "/tmp/evidence/".to_string(),
    }
}

#[test]
fn endpoints_drop_trailing_slashes_of_the_base() {
    let c = settings();
    assert_eq!(c.search_url("govail"), "http://mem:8095/internal/projects/govail/search");
    assert_eq!(c.jobs_url(), "http://rt:8080/api/jobs");
    assert_eq!(c.job_url("j1"), "http://rt:8080/api/jobs/j1");
    assert_eq!(c.job_report_url("j1"), "http://rt:8080/api/jobs/j1/report");
    assert_eq!(c.scan_url(), "http://sentinel:8300/api/v1/scan");
    assert_eq!(c.completions_url(), "http://llm/v1/chat/completions");
    assert_eq!(trim_end_slashes("///"), "");
}

#[test]
fn tokens_only_when_configured() {
    let mut c = settings();
    assert_eq!(c.scan_token(), None);
    assert_eq!(c.llm_token(), None);
    c.sentinel_api_token = "t".to_string();
    c.llm_api_key = "k".to_string();
    assert_eq!(c.scan_token(), Some("t"));
    assert_eq!(c.llm_token(), Some("k"));
    assert!(!c.uses_database());
}

#[test]
fn path_segments_are_sanitized() {
    assert_eq!(sanitize_path_segment("a/b c"), "a_b_c");
    assert_eq!(sanitize_path_segment(""), "unknown");
    assert_eq!(sanitize_path_segment("ok-1_2.json"), "ok-1_2.json");
    assert_eq!(sanitize_path_segment("한"), "_");
    let once = sanitize_path_segment("../x y");
    assert_eq!(sanitize_path_segment(&once), once);
    let (dir, path) = settings().evidence_location("proj/1", "b 2");
    assert_eq!(dir, "/tmp/evidence/proj_1");
    assert_eq!(path, "/tmp/evidence/proj_1/b_2.json");
}

#[test]
fn dot_names_never_leave_the_evidence_store() {
    assert_eq!(sanitize_path_segment("."), "_");
    assert_eq!(sanitize_path_segment(".."), "__");
    assert_eq!(sanitize_path_segment("..."), "...");
    assert_eq!(sanitize_path_segment(".hidden"), ".hidden");
    assert_eq!(sanitize_path_segment("__"), "__");
    let (dir, path) = settings().evidence_location("..", ".");
    assert_eq!(dir, "/tmp/evidence/__");
    assert_eq!(path, "/tmp/evidence/__/_.json");
}

#[test]
fn responses_outside_2xx_are_business_errors() {
    assert_eq!(accept_response(200, "ok".to_string()).unwrap(), "ok");
    match accept_response(404, "missing".to_string()) {
        Err(McpError::Business(BusinessError::ApiFailure { status, body })) => {
            assert_eq!(status, 404);
            assert_eq!(body, "missing");
        }
        other => panic!("unexpected {:?}", other),
    }
    assert!(accept_response(199, String::new()).is_err());
    assert!(accept_response(300, String::new()).is_err());
    assert_eq!(unreadable_response("Memory 검색 결과", "eof").message(), "기타 내부 시스템 오류: Memory 검색 결과 JSON 파싱 실패: eof");
}

#[test]
fn request_bodies() {
    let b = search_body("q", 5);
    assert_eq!(b.str_field("query"), Some("q"));
    assert_eq!(b.u64_field("limit"), Some(5));
    let b = scan_body("d", "full", true);
    assert_eq!(b.str_field("diff"), Some("d"));
    assert_eq!(b.bool_field("auto_fix"), Some(true));
}

#[test]
fn completion_request_and_reply() {
    let c = settings();
    let prompt = user_prompt("ko", "{}");
    assert_eq!(prompt, "언어: ko\n\n다음 evidence bundle을 기반으로 리스크 브리프를 작성하세요.\n\n{}");
    let body = c.completion_body(&prompt);
    assert_eq!(body.str_field("model"), Some("auto"));
    assert_eq!(body.u64_field("max_tokens"), Some(1024));
    let messages = body.array_field("messages").unwrap();
    assert_eq!(messages[0].str_field("content"), Some(system_prompt()));
    assert_eq!(messages[1].str_field("role"), Some("user"));
    match body.get("temperature") {
        Some(JsonValue::Number(JsonNumber::Fraction(t))) => assert_eq!(t, "0.1"),
        other => panic!("unexpected {:?}", other),
    }
    let reply = obj(vec![(
        "choices",
        JsonValue::Array(vec![obj(vec![("message", obj(vec![("content", s("brief"))]))])]),
    )]);
    assert_eq!(brief_content(&reply).unwrap(), "brief");
    assert_eq!(
        brief_content(&obj(vec![("choices", JsonValue::Array(vec![]))])).err().unwrap().message(),
        "기타 내부 시스템 오류: LLM 응답에서 message.content를 찾지 못했습니다."
    );
}

#[test]
fn recorded_rows_follow_the_control_mapping() {
    let doc = obj(vec![
        ("source", s("repo-guard-sentinel")),
        ("validation", obj(vec![("valid", JsonValue::Bool(true))])),
        (
            "bundle",
            obj(vec![
                ("asset_type", s("repository")),
                ("findings", JsonValue::Array(vec![obj(vec![("category", s("SECRET")), ("severity", s("High"))])])),
            ]),
        ),
    ]);
    let rows = evidence_rows("p", "123e4567-e89b-12d3-a456-426614174000", &doc);
    assert_eq!(rows.bundle_id, 0x123e4567_e89b_12d3_a456_426614174000u128);
    assert_eq!(rows.source, "repo-guard-sentinel");
    assert_eq!(rows.asset_type.as_deref(), Some("repository"));
    assert!(rows.asset_name.is_none());
    assert_eq!(rows.findings.len(), 1);
    let f = &rows.findings[0];
    assert_eq!(f.severity, "high");
    assert_eq!(f.category, "secret");
    assert_eq!(f.title, "제목 없음");
    let ids: Vec<&str> = f.controls.iter().map(|c| c.candidate.control_id.as_str()).collect();
    assert_eq!(ids, vec!["PR.DS-5", "A.8.12", "CIS-3.3"]);
}

#[test]
fn ids_that_are_not_uuids_get_fresh_version_four_uuids() {
    let doc = obj(vec![(
        "findings",
        JsonValue::Array(vec![obj(vec![("category", s("SECRET"))])]),
    )]);
    let is_v4 = |u: u128| (u >> 76) & 0xf == 4 && (u >> 62) & 0x3 == 2;
    let rows = evidence_rows("p", "bundle-7", &doc);
    assert!(is_v4(rows.bundle_id));
    assert!(is_v4(rows.findings[0].id));
    assert!(rows.findings[0].controls.iter().all(|c| is_v4(c.id)));
    let again = evidence_rows("p", "bundle-7", &doc);
    assert_ne!(again.bundle_id, rows.bundle_id);
}
