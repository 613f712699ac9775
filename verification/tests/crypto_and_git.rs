use govail_mcp::developer::crypto::{decode_hex, decode_hex_would_panic, hex, sha256_hex};
use govail_mcp::developer::git::{
    ancestry_from_exit, branch_from_output, changed_paths_from, output_text, push_exact_args,
    remote_head_from, staged_changes_from_exit,
};
use govail_mcp::developer::service::{deny_protected_branch, validate_relative_path, validate_remote};
use govail_mcp::developer::store::{validate_id, DeliveryStore};

#[test]
fn digests_match_known_vectors() {
    assert_eq!(sha256_hex(b"abc"), "ba7816bf8f01cfea414140de5dae2223b00361a396177a9cb410ff61f20015ad");
    assert_eq!(sha256_hex(b""), "e3b0c44298fc1c149afbf4c8996fb92427ae41e4649b934ca495991b7852b855");
}

#[test]
fn hex_text_reads_back() {
    let bytes = vec![0u8, 1, 0xab, 0xff];
    let text = hex(&bytes);
    assert_eq!(text, "0001abff");
    assert_eq!(decode_hex(&text).unwrap(), bytes);
    assert_eq!(decode_hex("0A").unwrap(), vec![10]);
    assert!(decode_hex("abc").is_err());
    assert!(decode_hex("zz").is_err());
    assert!(!decode_hex_would_panic(&text));
    assert!(decode_hex_would_panic("a한"));
}

#[test]
fn git_outputs_are_read_as_git_writes_them() {
    assert_eq!(output_text(b"  abc\n".to_vec()).unwrap(), "abc");
    assert!(output_text(vec![0xff]).is_err());
    assert_eq!(branch_from_output(String::new()), None);
    assert_eq!(branch_from_output("main".to_string()), Some("main".to_string()));
    assert_eq!(changed_paths_from(b"?? .hidden file\0 M src/lib.rs\0".to_vec()).unwrap(), vec![".hidden file", "src/lib.rs"]);
    assert_eq!(remote_head_from("abc123\trefs/heads/f\n"), Some("abc123".to_string()));
    assert_eq!(remote_head_from(""), None);
    assert_eq!(staged_changes_from_exit(Some(1)).unwrap(), true);
    assert_eq!(staged_changes_from_exit(Some(0)).unwrap(), false);
    assert!(staged_changes_from_exit(None).is_err());
    assert_eq!(ancestry_from_exit(Some(0)).unwrap(), true);
    assert_eq!(
        push_exact_args("origin", "feature/x", "c0ffee", None),
        vec!["push", "--porcelain", "--force-with-lease=refs/heads/feature/x:", "origin", "c0ffee:refs/heads/feature/x"]
    );
}

#[test]
fn inspection_preserves_dotfiles_and_whitespace_in_paths() {
    let paths = changed_paths_from(b"?? .hidden file\0".to_vec()).unwrap();
    assert_eq!(paths, vec![".hidden file"]);
}

#[test]
fn policies_on_names_and_paths() {
    assert!(validate_relative_path("src/lib.rs").is_ok());
    assert!(validate_relative_path("../x").unwrap_err().message().contains("without traversal"));
    assert!(validate_relative_path("/etc/passwd").is_err());
    assert!(validate_remote("origin").is_ok());
    assert_eq!(validate_remote("a b").unwrap_err().message(), "policy denied operation: invalid remote name");
    assert!(deny_protected_branch("release/1.0").unwrap_err().message().contains("protected branch 'release/1.0'"));
    assert!(deny_protected_branch("feature/x").is_ok());
    assert!(validate_id("abc-123").is_ok());
    assert!(validate_id("").is_err());
    assert!(validate_id("../x").is_err());
    let store = DeliveryStore::new("/r/.git");
    assert_eq!(store.approval_path("a1").unwrap(), "/r/.git/govail/developer-delivery/approvals/a1.json");
}
