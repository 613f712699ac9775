use govail_mcp::cli::{
    option, parse_i64, parse_invocation, repeated_option, required_option, usage, CliCommand, IntError,
};

fn args(v: &[&str]) -> Vec<String> {
    v.iter().map(|s| s.to_string()).collect()
}

#[test]
fn options_take_the_value_after_the_first_flag() {
    let a = args(&["--file", "a", "--message", "m", "--file", "b", "--file"]);
    assert_eq!(option(&a, "--message"), Some("m".to_string()));
    assert_eq!(option(&a, "--missing"), None);
    assert_eq!(required_option(&a, "--repo").unwrap_err(), "missing required option --repo");
    assert_eq!(repeated_option(&a, "--file"), args(&["a", "b"]));
}

#[test]
fn integers_parse_like_std() {
    assert_eq!(parse_i64("600"), Ok(600));
    assert_eq!(parse_i64("+42"), Ok(42));
    assert_eq!(parse_i64("-9223372036854775808"), Ok(i64::MIN));
    assert_eq!(parse_i64(""), Err(IntError::Empty));
    assert_eq!(parse_i64("-"), Err(IntError::InvalidDigit));
    assert_eq!(parse_i64("12a"), Err(IntError::InvalidDigit));
    assert_eq!(parse_i64("9223372036854775808"), Err(IntError::PosOverflow));
    assert_eq!(parse_i64("-9223372036854775809"), Err(IntError::NegOverflow));
    for text in ["0", "17", "9223372036854775807", "+5", "x", " 1", "99999999999999999999x"] {
        let ours = parse_i64(text).map_err(|e| e.message().to_string());
        let std = text.parse::<i64>().map_err(|e| e.to_string());
        assert_eq!(ours, std, "{text}");
    }
}

#[test]
fn commands_outside_developer_are_usage_errors() {
    assert_eq!(parse_invocation(&args(&[])).unwrap_err(), usage());
    assert_eq!(parse_invocation(&args(&["other"])).unwrap_err(), usage());
    assert_eq!(parse_invocation(&args(&["developer"])).unwrap_err(), usage());
    let inv = parse_invocation(&args(&["developer", "frobnicate"])).unwrap();
    assert_eq!(inv.repo, ".");
    assert_eq!(inv.command.unwrap_err(), usage());
}

#[test]
fn verify_needs_a_separator_and_a_program() {
    assert_eq!(
        parse_invocation(&args(&["developer", "verify", "--name", "unit"])).unwrap_err(),
        "verify requires '-- <program> [args...]' after its options"
    );
    let inv = parse_invocation(&args(&["developer", "verify", "--name", "unit", "--repo", "/r", "--"])).unwrap();
    assert_eq!(inv.repo, "/r");
    assert_eq!(inv.command.unwrap_err(), "verification program is required");
    let inv = parse_invocation(&args(&["developer", "verify", "--name", "unit", "--", "cargo", "test", "--repo", "x"])).unwrap();
    assert_eq!(inv.repo, ".");
    match inv.command.unwrap() {
        CliCommand::Verify { name, program, args: rest } => {
            assert_eq!(name, "unit");
            assert_eq!(program, "cargo");
            assert_eq!(rest, args(&["test", "--repo", "x"]));
        }
        other => panic!("unexpected {:?}", other),
    }
}

#[test]
fn approve_needs_yes_and_a_valid_ttl() {
    let inv = parse_invocation(&args(&["developer", "approve", "--proposal", "p1"])).unwrap();
    assert_eq!(inv.command.unwrap_err(), "approve requires the explicit --yes flag");
    let inv = parse_invocation(&args(&["developer", "approve", "--yes", "--proposal", "p1"])).unwrap();
    match inv.command.unwrap() {
        CliCommand::Approve { proposal, ttl_seconds } => {
            assert_eq!(proposal, "p1");
            assert_eq!(ttl_seconds, 600);
        }
        other => panic!("unexpected {:?}", other),
    }
    let inv = parse_invocation(&args(&["developer", "approve", "--yes", "--proposal", "p1", "--ttl-seconds", "ten"])).unwrap();
    assert_eq!(inv.command.unwrap_err(), "invalid digit found in string");
}

#[test]
fn commit_push_and_propose() {
    let inv = parse_invocation(&args(&["developer", "commit", "--message", "feat", "--file", "a", "--file", "b"])).unwrap();
    match inv.command.unwrap() {
        CliCommand::Commit { message, files } => {
            assert_eq!(message, "feat");
            assert_eq!(files, args(&["a", "b"]));
        }
        other => panic!("unexpected {:?}", other),
    }
    let inv = parse_invocation(&args(&["developer", "propose-push", "--branch", "main"])).unwrap();
    assert_eq!(inv.command.unwrap_err(), "missing required option --verification");
    let inv = parse_invocation(&args(&["developer", "propose-push", "--branch", "f", "--verification", "v"])).unwrap();
    match inv.command.unwrap() {
        CliCommand::ProposePush { remote, branch, verification } => {
            assert_eq!((remote.as_str(), branch.as_str(), verification.as_str()), ("origin", "f", "v"));
        }
        other => panic!("unexpected {:?}", other),
    }
    let inv = parse_invocation(&args(&["developer", "push", "--approval", "a1", "--repo", "/x"])).unwrap();
    assert_eq!(inv.repo, "/x");
    assert!(matches!(inv.command.unwrap(), CliCommand::Push { approval } if approval == "a1"));
    assert!(matches!(parse_invocation(&args(&["developer", "inspect"])).unwrap().command.unwrap(), CliCommand::Inspect));
}
