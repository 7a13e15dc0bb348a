use xsync_config::get_ignore_file;

#[test]
fn missing_ignore_file_yields_no_lines() {
    let lines = get_ignore_file(None);
    assert!(lines.is_empty());
}

#[test]
fn lines_come_back_in_file_order() {
    let lines = get_ignore_file(Some("a/b\n*.tmp\n\n"));
    assert_eq!(lines, vec!["a/b".to_string(), "*.tmp".to_string(), "".to_string()]);
}

#[test]
fn empty_text_yields_no_lines() {
    let lines = get_ignore_file(Some(""));
    assert!(lines.is_empty());
}

#[test]
fn last_line_needs_no_trailing_newline() {
    let lines = get_ignore_file(Some("target\n*.log"));
    assert_eq!(lines, vec!["target".to_string(), "*.log".to_string()]);
}

#[test]
fn carriage_returns_are_dropped_with_their_newline() {
    let lines = get_ignore_file(Some("a\r\nb\r"));
    assert_eq!(lines, vec!["a".to_string(), "b\r".to_string()]);
}
