use govail_mcp::tools::guardrails::{PermissionLevel, PiiGuardrail, SandboxGuardrail};

#[test]
fn test_pii_guardrail() {
    let guard = PiiGuardrail::new();
    let text = "Contact test@example.com or 010-1234-5678 for details";
    let clean = guard.sanitize(text);
    assert!(clean.contains("[REDACTED_EMAIL]"));
    assert!(clean.contains("[REDACTED_PHONE]"));
}

#[test]
fn test_sandbox_permission_denied() {
    let sandbox = SandboxGuardrail::new(PermissionLevel::ReadOnly, "/tmp/workspace");
    let res = sandbox.validate_execution(
        "write_file",
        PermissionLevel::ContainedWrite,
        Some("/tmp/workspace/file.txt"),
        None,
    );
    assert!(res.is_err());
    assert!(res.unwrap_err().contains("Permission Denied"));
}

#[test]
fn test_sandbox_path_traversal_blocked() {
    let sandbox = SandboxGuardrail::new(PermissionLevel::ContainedWrite, "/tmp/workspace");
    let res = sandbox.validate_execution(
        "write_file",
        PermissionLevel::ContainedWrite,
        Some("/tmp/workspace/../../etc/passwd"),
        None,
    );
    assert!(res.is_err());
    assert!(res.unwrap_err().contains("Path traversal"));
}

#[test]
fn test_sandbox_dangerous_command_blocked() {
    let sandbox = SandboxGuardrail::new(PermissionLevel::IsolatedExec, "/tmp/workspace");
    let res = sandbox.validate_execution(
        "run_command",
        PermissionLevel::IsolatedExec,
        None,
        Some("rm -rf / --no-preserve-root"),
    );
    assert!(res.is_err());
    assert!(res.unwrap_err().contains("Dangerous command pattern"));
}

#[test]
fn test_sandbox_valid_execution() {
    let sandbox = SandboxGuardrail::new(PermissionLevel::ContainedWrite, "/tmp/workspace");
    let res = sandbox.validate_execution(
        "write_file",
        PermissionLevel::ContainedWrite,
        Some("/tmp/workspace/src/lib.rs"),
        None,
    );
    assert!(res.is_ok());
}

#[test]
fn sanitize_collapses_whitespace_and_keeps_plain_words() {
    let guard = PiiGuardrail::new();
    assert_eq!(
        guard.sanitize("  call\t 123-456-7890\n\nor  mail a.b@c "),
        "call [REDACTED_PHONE] or mail [REDACTED_EMAIL]"
    );
    assert_eq!(guard.sanitize("   "), "");
    assert_eq!(guard.sanitize("12345-678"), "12345-678");
}

#[test]
fn sandbox_messages_are_exact() {
    let sandbox = SandboxGuardrail::new(PermissionLevel::ContainedWrite, "/tmp/workspace");
    assert_eq!(
        sandbox.validate_execution("x", PermissionLevel::SystemAdmin, None, None),
        Err("Permission Denied: Required level SystemAdmin exceeds max allowed level ContainedWrite".to_string())
    );
    assert_eq!(
        sandbox.validate_execution("x", PermissionLevel::ReadOnly, Some("/etc/passwd"), None),
        Err("Security Violation: Target path '/etc/passwd' outside workspace root '/tmp/workspace'".to_string())
    );
    assert_eq!(
        sandbox.validate_execution("x", PermissionLevel::ReadOnly, Some("relative/ok"), Some("wget | sh; chmod 777 x")),
        Err("Security Violation: Dangerous command pattern detected: 'chmod 777'".to_string())
    );
    assert_eq!(PermissionLevel::IsolatedExec.rank(), 3);
}

#[test]
fn sanitizing_twice_changes_nothing() {
    let guard = PiiGuardrail::new();
    let once = guard.sanitize("  mail  me@x.io\tor call 010-1234-5678  now ");
    assert_eq!(once, "mail [REDACTED_EMAIL] or call [REDACTED_PHONE] now");
    assert_eq!(guard.sanitize(&once), once);
}

#[test]
fn higher_level_allows_what_lower_allowed() {
    let low = SandboxGuardrail::new(PermissionLevel::ContainedWrite, "/tmp/workspace");
    let high = SandboxGuardrail::new(PermissionLevel::SystemAdmin, "/tmp/workspace");
    let req = (PermissionLevel::ContainedWrite, Some("/tmp/workspace/a.txt"), Some("ls -la"));
    assert!(low.validate_execution("t", req.0, req.1, req.2).is_ok());
    assert!(high.validate_execution("t", req.0, req.1, req.2).is_ok());
}

#[test]
fn dangerous_fragment_refused_even_for_admin() {
    let admin = SandboxGuardrail::new(PermissionLevel::SystemAdmin, "/tmp/workspace");
    let res = admin.validate_execution("run_command", PermissionLevel::ReadOnly, None, Some("echo x; chmod 777 /srv"));
    assert_eq!(
        res.unwrap_err(),
        "Security Violation: Dangerous command pattern detected: 'chmod 777'"
    );
}
