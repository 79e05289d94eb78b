use sysguard::errors::{ErrorKind, SystemError};
use sysguard::policy::is_command_allowed;
use sysguard::text::{str_eq, str_starts_with, trim_matching, trim_space};

#[test]
fn exactly_the_eight_names_are_allowed() {
    for name in ["killall", "ps", "ls", "cat", "mkdir", "rm", "pgrep", "open"] {
        assert!(is_command_allowed(name), "{name} belongs to the allow-list");
    }
    for name in ["curl", "wget", "sh", "Killall", "LS", "rm ", " rm", "/bin/ls", "open2", ""] {
        assert!(!is_command_allowed(name), "{name} must be refused");
    }
}

#[test]
fn policy_violation_message_is_exact() {
    let e = SystemError::policy_violation("curl");
    assert_eq!(e.kind, ErrorKind::PolicyViolation);
    assert_eq!(e.message, "Command 'curl' is not allowed");
}

#[test]
fn detailed_errors_join_context_and_detail() {
    let e = SystemError::with_detail(ErrorKind::SpawnError, "Failed to execute command", "boom");
    assert_eq!(e.kind, ErrorKind::SpawnError);
    assert_eq!(e.message, "Failed to execute command: boom");
}

#[test]
fn string_equality_is_exact() {
    assert!(str_eq("", ""));
    assert!(str_eq("abc", "abc"));
    assert!(!str_eq("abc", "abd"));
    assert!(!str_eq("abc", "ab"));
    assert!(str_eq("na\u{ef}ve", "na\u{ef}ve"));
}

#[test]
fn prefix_test_is_exact() {
    assert!(str_starts_with("PRETTY_NAME=x", "PRETTY_NAME="));
    assert!(str_starts_with("anything", ""));
    assert!(!str_starts_with("PRETTY", "PRETTY_NAME="));
    assert!(!str_starts_with("XPRETTY_NAME=", "PRETTY_NAME="));
}

#[test]
fn trimming_removes_only_the_ends() {
    assert_eq!(trim_matching("\"\"quoted\"\"", '"'), "quoted");
    assert_eq!(trim_matching("no quotes", '"'), "no quotes");
    assert_eq!(trim_matching("\"\"\"", '"'), "");
    assert_eq!(trim_matching("a\"b", '"'), "a\"b");
    assert_eq!(trim_space("  a b \n"), "a b");
    assert_eq!(trim_space(" \t\r\n "), "");
    assert_eq!(trim_space(""), "");
}
