//! The message formatter and the decimal rendering.

use pigeon::format::format_message;
use pigeon::numfmt::u64_to_string;

#[test]
fn test_format_message_basic() {
    let msg = format_message(
        "src/main.rs",
        Some(10),
        Some(20),
        None,
        "fn main() {}",
        "Explain",
    );
    assert!(msg.contains("src/main.rs:10-20"));
    assert!(msg.contains("fn main() {}"));
    assert!(msg.contains("Explain"));
}

#[test]
fn test_format_message_deleted_lines() {
    let msg = format_message("old.rs", Some(5), None, Some("old"), "deleted code", "Why?");
    assert!(msg.contains("old.rs:5 (deleted lines)"));
}

#[test]
fn test_format_message_empty_question() {
    let msg = format_message("file.rs", None, None, None, "code", "");
    assert!(msg.contains("Explain this code"));
}

#[test]
fn test_format_message_exact_shape() {
    let msg = format_message("a.rs", Some(5), Some(9), None, "fn f(){}", "why?");
    assert_eq!(msg, "a.rs:5-9\n```\nfn f(){}\n```\nwhy?");
}

#[test]
fn test_format_message_equal_lines_single_suffix() {
    let msg = format_message("a.rs", Some(7), Some(7), None, "x", "q");
    assert_eq!(msg, "a.rs:7\n```\nx\n```\nq");
}

#[test]
fn test_format_message_no_lines_no_suffix() {
    let msg = format_message("file.rs", None, None, None, "code", "");
    assert_eq!(msg, "file.rs\n```\ncode\n```\nExplain this code");
}

#[test]
fn test_format_message_end_line_alone_ignored() {
    let msg = format_message("file.rs", None, Some(9), None, "code", "q");
    assert_eq!(msg, "file.rs\n```\ncode\n```\nq");
}

#[test]
fn test_format_message_marker_once_after_location() {
    let msg = format_message("old.rs", Some(5), None, Some("old"), "code", "Why?");
    assert_eq!(msg, "old.rs:5 (deleted lines)\n```\ncode\n```\nWhy?");
    assert_eq!(msg.find(" (deleted lines)"), msg.rfind(" (deleted lines)"));
}

#[test]
fn test_format_message_other_side_no_marker() {
    let msg = format_message("a.rs", Some(5), None, Some("new"), "code", "Why?");
    assert!(!msg.contains(" (deleted lines)"));
}

#[test]
fn test_format_message_short_code_unmodified() {
    let code = "x".repeat(2000);
    let msg = format_message("a.rs", None, None, None, &code, "q");
    assert!(msg.contains(&format!("```\n{}\n```", code)));
    assert!(!msg.contains("...(truncated)"));
}

#[test]
fn test_format_message_truncates_long_code() {
    let code = "x".repeat(2001);
    let msg = format_message("a.rs", None, None, None, &code, "q");
    let expected = format!("```\n{}...(truncated)\n```", "x".repeat(2000));
    assert!(msg.contains(&expected));
}

#[test]
fn test_format_message_truncation_keeps_char_boundary() {
    // One ASCII byte then 1500 two-byte characters: byte 2000 falls inside
    // a character, so the cut happens at 1999.
    let code = format!("a{}", "\u{e9}".repeat(1500));
    assert!(code.len() > 2000);
    let msg = format_message("a.rs", None, None, None, &code, "q");
    let expected_excerpt = format!("a{}", "\u{e9}".repeat(999));
    assert!(msg.contains(&format!("```\n{}...(truncated)\n```", expected_excerpt)));
}

#[test]
fn test_u64_to_string_renders_decimal() {
    assert_eq!(u64_to_string(0), "0");
    assert_eq!(u64_to_string(10), "10");
    assert_eq!(u64_to_string(12345), "12345");
    assert_eq!(u64_to_string(u64::MAX), "18446744073709551615");
}
