use govail_mcp::json::{JsonNumber, JsonValue};
use govail_mcp::mcp::protocol::{McpError, ParamError};
use govail_mcp::tools::grc::{
    find_raw_source_fields, map_single_finding, required_object, validate_bundle, BriefPlan,
    GenerateRiskBriefTool, MapFindingsToControlsTool, SubmitEvidenceBundleTool, Submission,
    ValidateEvidenceBundleTool,
};

fn s(v: &str) -> JsonValue {
    JsonValue::Str(v.to_string())
}

fn obj(members: Vec<(&str, JsonValue)>) -> JsonValue {
    JsonValue::Object(members.into_iter().map(|(k, v)| (k.to_string(), v)).collect())
}

#[test]
fn raw_source_paths_are_reported_in_document_order() {
    let bundle = obj(vec![
        ("source_code", s("fn main() {}")),
        ("findings", JsonValue::Array(vec![obj(vec![("private_key", s("k")), ("title", s("t"))])])),
        ("meta", obj(vec![("raw_code", obj(vec![("secret_value", s("v"))]))])),
    ]);
    let hits = find_raw_source_fields(&bundle, "$");
    assert_eq!(
        hits,
        vec![
            "$.source_code".to_string(),
            "$.findings[0].private_key".to_string(),
            "$.meta.raw_code".to_string(),
            "$.meta.raw_code.secret_value".to_string(),
        ]
    );
}

#[test]
fn bundle_without_findings_or_project_is_reported() {
    let report = validate_bundle(&obj(vec![("raw_source", s("x"))]));
    assert!(!report.valid);
    assert_eq!(report.warnings, vec!["project_id가 없어 제출 시 기본 프로젝트로 분류됩니다.".to_string()]);
    assert_eq!(
        report.errors,
        vec![
            "findings 배열이 필요합니다.".to_string(),
            "원본 소스코드로 오해될 수 있는 필드가 포함되어 있습니다: $.raw_source".to_string(),
        ]
    );
}

#[test]
fn clean_bundle_is_valid() {
    let report = validate_bundle(&obj(vec![("project_id", s("p")), ("findings", JsonValue::Array(vec![]))]));
    assert!(report.valid);
    assert!(report.errors.is_empty());
    assert!(report.warnings.is_empty());
    assert!(!report.checked_at.is_empty());
}

#[test]
fn required_object_reports_missing_and_mismatched_types() {
    let params = obj(vec![("bundle", JsonValue::Array(vec![]))]);
    match required_object(&params, "bundle") {
        Err(McpError::Param(e @ ParamError::TypeMismatch { .. })) => {
            assert_eq!(e.message(), "파라미터 타입 불일치: bundle (기대: object, 실제: array)")
        }
        other => panic!("unexpected {:?}", other),
    }
    match required_object(&params, "other") {
        Err(McpError::Param(e @ ParamError::Missing { .. })) => {
            assert_eq!(e.message(), "필수 파라미터 누락: other")
        }
        other => panic!("unexpected {:?}", other),
    }
}

#[test]
fn secret_finding_maps_to_data_protection_controls() {
    let finding = obj(vec![("category", s("Hardcoded-SECRET")), ("severity", s("HIGH")), ("title", s("key"))]);
    let m = map_single_finding(3, &finding);
    assert_eq!(m.finding_id, "finding-3");
    assert_eq!(m.category, "hardcoded-secret");
    assert_eq!(m.severity, "high");
    assert_eq!(m.title, "key");
    let ids: Vec<&str> = m.controls.iter().map(|c| c.control_id.as_str()).collect();
    assert_eq!(ids, vec!["PR.DS-5", "A.8.12", "CIS-3.3"]);
    assert_eq!(m.controls[0].confidence_percent, 82);
}

#[test]
fn unknown_category_maps_to_general_controls() {
    let m = map_single_finding(0, &obj(vec![("finding_id", s("F-1"))]));
    assert_eq!(m.finding_id, "F-1");
    assert_eq!(m.category, "unknown");
    assert_eq!(m.title, "제목 없음");
    let ids: Vec<&str> = m.controls.iter().map(|c| c.control_id.as_str()).collect();
    assert_eq!(ids, vec!["ID.RA-5", "A.5.7", "CIS-17.1"]);
}

#[test]
fn network_and_vulnerability_categories() {
    let net = map_single_finding(0, &obj(vec![("category", s("internal-ip"))]));
    assert_eq!(net.controls[1].control_id, "A.8.20");
    assert_eq!(net.controls[1].confidence_percent, 70);
    let vuln = map_single_finding(0, &obj(vec![("category", s("CVE-2024-1"))]));
    assert_eq!(vuln.controls[0].control_id, "ID.RA-1");
}

#[test]
fn mapping_report_counts_and_renders_confidence() {
    let tool = MapFindingsToControlsTool::new();
    let params = obj(vec![("findings", JsonValue::Array(vec![obj(vec![("category", s("network"))])]))]);
    let ms = tool.map(&params).unwrap();
    let report = MapFindingsToControlsTool::report(&ms);
    assert_eq!(report.u64_field("mapping_count"), Some(1));
    let mappings = report.array_field("mappings").unwrap();
    let controls = mappings[0].array_field("controls").unwrap();
    match controls[1].get("confidence") {
        Some(JsonValue::Number(JsonNumber::Fraction(t))) => assert_eq!(t, "0.7"),
        other => panic!("unexpected {:?}", other),
    }
    match controls[0].get("confidence") {
        Some(JsonValue::Number(JsonNumber::Fraction(t))) => assert_eq!(t, "0.74"),
        other => panic!("unexpected {:?}", other),
    }
}

#[test]
fn mapping_without_findings_is_a_missing_parameter() {
    let tool = MapFindingsToControlsTool::new();
    match tool.map(&obj(vec![("findings", s("nope"))])) {
        Err(e) => assert_eq!(e.message(), "필수 파라미터 누락: findings"),
        Ok(_) => panic!("accepted"),
    }
}

#[test]
fn validate_tool_reports_for_the_bundle_parameter() {
    let tool = ValidateEvidenceBundleTool::new();
    let out = tool.run(&obj(vec![("bundle", obj(vec![("findings", JsonValue::Array(vec![]))]))])).unwrap();
    assert_eq!(out.bool_field("valid"), Some(true));
    assert!(tool.run(&obj(vec![])).is_err());
}

#[test]
fn submission_names_come_from_params_then_bundle() {
    let tool = SubmitEvidenceBundleTool::new();
    let params = obj(vec![
        ("bundle", obj(vec![
            ("findings", JsonValue::Array(vec![])),
            ("project_id", s("from-bundle")),
            ("bundle_id", s("b-1")),
            ("source", s("repo-snapshot")),
        ])),
        ("project_id", s("from-params")),
    ]);
    match tool.prepare(&params).unwrap() {
        Submission::Store(plan) => {
            assert_eq!(plan.project_id, "from-params");
            assert_eq!(plan.source, "repo-snapshot");
            assert_eq!(plan.bundle_id, "b-1");
            let doc = SubmitEvidenceBundleTool::stored_document(&plan);
            assert_eq!(doc.str_field("bundle_id"), Some("b-1"));
            assert_eq!(doc.get("bundle").and_then(|b| b.str_field("source")), Some("repo-snapshot"));
            let answer = SubmitEvidenceBundleTool::accepted(&plan, "/store/p/b-1.json");
            assert_eq!(answer.str_field("status"), Some("accepted"));
            assert_eq!(answer.str_field("stored_path"), Some("/store/p/b-1.json"));
            assert_eq!(answer.array_field("next_tools").map(|v| v.len()), Some(2));
        }
        Submission::Rejected(_) => panic!("rejected"),
    }
}

#[test]
fn submission_defaults_and_fresh_bundle_id() {
    let tool = SubmitEvidenceBundleTool::new();
    let params = obj(vec![("bundle", obj(vec![("findings", JsonValue::Array(vec![]))]))]);
    match tool.prepare(&params).unwrap() {
        Submission::Store(plan) => {
            assert_eq!(plan.project_id, "govail");
            assert_eq!(plan.source, "unknown");
            assert_eq!(plan.bundle_id.len(), 36);
        }
        Submission::Rejected(_) => panic!("rejected"),
    }
}

#[test]
fn invalid_bundle_is_not_submitted() {
    let tool = SubmitEvidenceBundleTool::new();
    let params = obj(vec![("bundle", obj(vec![("findings", JsonValue::Array(vec![])), ("file_contents", s("x"))]))]);
    match tool.prepare(&params).unwrap() {
        Submission::Rejected(v) => assert!(!v.valid),
        Submission::Store(_) => panic!("stored"),
    }
}

#[test]
fn risk_brief_language_defaults_to_korean() {
    let tool = GenerateRiskBriefTool::new();
    let params = obj(vec![("bundle", obj(vec![("findings", JsonValue::Array(vec![])), ("project_id", s("p"))]))]);
    match tool.prepare(&params).unwrap() {
        BriefPlan::Generate { language, bundle } => {
            assert_eq!(language, "ko");
            assert_eq!(bundle.str_field("project_id"), Some("p"));
        }
        BriefPlan::Rejected(_) => panic!("rejected"),
    }
}

#[test]
fn tool_schemas_require_their_main_parameter() {
    let schema = SubmitEvidenceBundleTool::new().input_schema();
    assert_eq!(schema.str_field("type"), Some("object"));
    let required = schema.array_field("required").unwrap();
    assert_eq!(required[0].as_str(), Some("bundle"));
    let frameworks = MapFindingsToControlsTool::new().input_schema();
    let props = frameworks.get("properties").unwrap();
    assert_eq!(props.get("frameworks").and_then(|f| f.get("items")).and_then(|i| i.str_field("type")), Some("string"));
}
