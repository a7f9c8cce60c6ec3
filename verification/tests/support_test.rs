use task_tracker::api::TaskFilterQuery;
use task_tracker::domain::TaskStatus;
use task_tracker::error::TaskError;
use task_tracker::text::{parse_u16, parse_u64, str_eq, trim_str, u64_to_decimal};

#[test]
fn trimming_removes_unicode_white_space() {
    assert_eq!(trim_str("  a b  "), "a b");
    assert_eq!(trim_str("\u{3000}\u{85}x\u{2029}"), "x");
    assert_eq!(trim_str(" \t\n "), "");
    assert_eq!(trim_str("x"), "x");
    let s = "\u{a0} mixed \u{200a}";
    assert_eq!(trim_str(s), s.trim());
}

#[test]
fn decimal_rendering_and_reading_agree() {
    for n in [0u64, 7, 10, 99, 1000, 123456789, u64::MAX] {
        let s = u64_to_decimal(n);
        assert_eq!(s, n.to_string());
        assert_eq!(parse_u64(&s), Some(n));
    }
    assert_eq!(parse_u64("007"), Some(7));
    assert_eq!(parse_u16("70000"), None);
    assert_eq!(parse_u16("+80"), Some(80));
    assert!(str_eq("abc", "abc"));
    assert!(!str_eq("abc", "abd"));
    assert!(!str_eq("abc", "ab"));
}

#[test]
fn error_messages() {
    assert_eq!(TaskError::TaskNotFound(999).message(), "Task not found with ID: 999");
    assert_eq!(TaskError::EmptyDescription.message(), "Task description cannot be empty");
    assert_eq!(
        TaskError::InvalidStatus("x".into()).message(),
        "Invalid status 'x'. Allowed values are: 'todo', 'in-progress', 'done'"
    );
    assert_eq!(
        TaskError::InvalidCommand("go".into()).message(),
        "Unknown command 'go'. Run with 'help' for usage instructions."
    );
    assert_eq!(TaskError::InvalidArgument("m".into()).message(), "Invalid argument: m");
    assert_eq!(TaskError::Storage("disk".into()).message(), "Storage error: disk");
    assert_eq!(
        TaskError::Serialization("bad".into()).message(),
        "Serialization error: bad"
    );
}

#[test]
fn error_status_codes() {
    assert_eq!(TaskError::TaskNotFound(1).status_code(), 404);
    assert_eq!(TaskError::InvalidCommand("x".into()).status_code(), 404);
    assert_eq!(TaskError::EmptyDescription.status_code(), 400);
    assert_eq!(TaskError::InvalidStatus("x".into()).status_code(), 400);
    assert_eq!(TaskError::InvalidArgument("x".into()).status_code(), 400);
    assert_eq!(TaskError::Storage("x".into()).status_code(), 500);
    assert_eq!(TaskError::Serialization("x".into()).status_code(), 500);
}

#[test]
fn query_status_filter() {
    let q = |s: Option<&str>| TaskFilterQuery { status: s.map(|x| x.to_string()) };
    assert_eq!(q(None).status_filter().unwrap(), None);
    assert_eq!(TaskFilterQuery::default().status_filter().unwrap(), None);
    assert_eq!(q(Some("  ")).status_filter().unwrap(), None);
    assert_eq!(q(Some("todo")).status_filter().unwrap(), Some(TaskStatus::Todo));
    assert_eq!(q(Some("in-progress")).status_filter().unwrap(), Some(TaskStatus::InProgress));
    let err = q(Some("invalid_status")).status_filter().unwrap_err();
    assert_eq!(err.status_code(), 400);
}

#[test]
fn trimming_twice_changes_nothing() {
    for s in ["  a  ", "\u{2003}b\u{2003}c\u{2003}", "", " ", "x"] {
        let once = trim_str(s).to_string();
        assert_eq!(trim_str(&once), once);
    }
}
