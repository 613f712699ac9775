use govail_mcp::contracts::{
    CapabilityMetadata, CapabilityType, ContextEnvelope, ErrorCode, ResourceIdentity, RiskLevel, ToolError,
};

#[test]
fn capabilities() {
    let read = CapabilityMetadata::read("get_story_context");
    assert_eq!(read.capability_type, CapabilityType::Read);
    assert_eq!(read.risk_level, RiskLevel::Low);
    assert!(!read.requires_approval);
    let act = CapabilityMetadata::action("delete_story", RiskLevel::High, true);
    assert_eq!(act.capability_type, CapabilityType::Action);
    assert_eq!(act.risk_level, RiskLevel::High);
    assert!(act.requires_approval);
}

#[test]
fn envelopes_wrap_fresh_read_context() {
    let env = ContextEnvelope::new(101u32, "promptia", "story:101", "get_story_context");
    assert_eq!(env.data, 101);
    assert_eq!(env.provenance.source, "promptia");
    assert_eq!(env.provenance.resource, "story:101");
    assert!(!env.freshness.stale);
    assert!(env.provenance.retrieved_at.ends_with('Z'));
    assert_eq!(env.metadata.name, "get_story_context");
    let id = ResourceIdentity::new("promptia", "story", "101");
    assert_eq!((id.source.as_str(), id.resource_type.as_str(), id.id.as_str()), ("promptia", "story", "101"));
}

#[test]
fn tool_errors() {
    let e = ToolError::not_found("Story ID 999 does not exist");
    assert_eq!(e.code, ErrorCode::ResourceNotFound);
    assert!(!e.retryable);
    assert!(e.details.is_none());
    assert!(!ToolError::invalid_args("x").retryable);
    let i = ToolError::internal("x");
    assert_eq!(i.code, ErrorCode::InternalError);
    assert!(i.retryable);
    assert_eq!(ErrorCode::Unauthorized.message(), "Unauthorized");
    assert_eq!(ErrorCode::InvalidArguments.message(), "Invalid arguments");
}

fn text<'a>(v: &'a govail_mcp::json::JsonValue, path: &[&str]) -> Option<&'a str> {
    let mut cur = v;
    for k in path {
        cur = cur.get(k)?;
    }
    cur.as_str()
}

#[test]
fn wire_forms_follow_the_contract_document() {
    let meta = CapabilityMetadata::read("get_story_context").to_json();
    assert_eq!(text(&meta, &["name"]), Some("get_story_context"));
    assert_eq!(text(&meta, &["capability_type"]), Some("READ"));
    assert_eq!(text(&meta, &["risk_level"]), Some("LOW"));
    assert_eq!(meta.get("requires_approval").unwrap().as_bool(), Some(false));
    let act = CapabilityMetadata::action("delete_story", RiskLevel::Critical, true).to_json();
    assert_eq!(text(&act, &["capability_type"]), Some("ACTION"));
    assert_eq!(text(&act, &["risk_level"]), Some("CRITICAL"));

    let env = ContextEnvelope::new(
        govail_mcp::json::JsonValue::string("story"),
        "promptia",
        "story:101",
        "get_story_context",
    );
    let v = env.to_json();
    assert_eq!(text(&v, &["data"]), Some("story"));
    assert_eq!(text(&v, &["provenance", "source"]), Some("promptia"));
    assert_eq!(text(&v, &["provenance", "resource"]), Some("story:101"));
    assert!(text(&v, &["provenance", "retrieved_at"]).unwrap().ends_with('Z'));
    assert!(text(&v, &["freshness", "observed_at"]).unwrap().ends_with('Z'));
    assert_eq!(v.get("freshness").unwrap().get("stale").unwrap().as_bool(), Some(false));
    assert_eq!(text(&v, &["metadata", "capability_type"]), Some("READ"));
    assert_eq!(text(&v, &["metadata", "risk_level"]), Some("LOW"));

    let e = ToolError::not_found("Story ID 999 does not exist").to_json();
    assert_eq!(text(&e, &["code"]), Some("RESOURCE_NOT_FOUND"));
    assert_eq!(text(&e, &["message"]), Some("Story ID 999 does not exist"));
    assert!(matches!(e.get("details"), Some(govail_mcp::json::JsonValue::Null)));
    assert_eq!(e.get("retryable").unwrap().as_bool(), Some(false));

    let id = ResourceIdentity::new("promptia", "story", "101").to_json();
    assert_eq!(text(&id, &["resource_type"]), Some("story"));
}
