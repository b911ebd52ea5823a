use tenx_mcp::text::{
    contains_text, decimal, ends_with, first_line, is_blank, join_with, split_whitespace,
    starts_with, trim,
};

#[test]
fn decimal_digits() {
    assert_eq!(decimal(0), "0");
    assert_eq!(decimal(7), "7");
    assert_eq!(decimal(8765), "8765");
    assert_eq!(decimal(u64::MAX), u64::MAX.to_string());
}

#[test]
fn whitespace_splitting_matches_std() {
    for s in ["", "  ", "read write", " a\tb\n c ", "one", "x\u{3000}y"] {
        let expected: Vec<String> = s.split_whitespace().map(String::from).collect();
        assert_eq!(split_whitespace(s), expected);
    }
}

#[test]
fn joining_and_splitting_round_trip() {
    let scopes = vec!["read".to_string(), "write".to_string(), "admin".to_string()];
    let joined = join_with(&scopes, " ");
    assert_eq!(joined, "read write admin");
    assert_eq!(split_whitespace(&joined), scopes);
    assert_eq!(join_with(&vec![], ","), "");
}

#[test]
fn first_lines_match_std_lines() {
    for s in ["", "\n", "GET / HTTP/1.1\r\nHost: x\r\n", "single", "a\rb", "line\r"] {
        let expected = s.lines().next().map(String::from);
        assert_eq!(first_line(s), expected, "input {s:?}");
    }
}

#[test]
fn trimming_matches_std() {
    for s in ["", "  ", " a b ", "\tx\n", "y"] {
        assert_eq!(trim(s), s.trim());
        assert_eq!(is_blank(s), s.trim().is_empty());
    }
}

#[test]
fn prefix_suffix_and_search() {
    assert!(starts_with("/callback?x", "/callback"));
    assert!(!starts_with("/call", "/callback"));
    assert!(ends_with("https://a/", "/"));
    assert!(!ends_with("", "/"));
    assert!(contains_text("application/json, text/event-stream", "text/event-stream"));
    assert!(!contains_text("text/event", "text/event-stream"));
    assert!(contains_text("abc", ""));
}
