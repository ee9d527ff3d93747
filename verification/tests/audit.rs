use apeclaw::audit::{audit_line, audit_line_from_parts, split_detail, AUDIT_LOG_FILE};

#[test]
fn audit_line_has_the_documented_fields() {
    let line = audit_line(
        "2026-04-05T10:00:00+00:00",
        "tool_exec",
        "web_fetch https://example.com",
        "pi",
    );
    assert_eq!(
        line,
        "{\"ts\":\"2026-04-05T10:00:00+00:00\",\"event\":\"tool_exec\",\
         \"tool\":\"web_fetch\",\"args\":\"https://example.com\",\"host\":\"pi\"}\n"
    );
}

#[test]
fn audit_line_escapes_every_field() {
    let line = audit_line("t\"", "a\nb", "run \"x\"\n\ttab\\ \u{1}", "h\r");
    assert_eq!(
        line,
        "{\"ts\":\"t\\\"\",\"event\":\"a\\nb\",\"tool\":\"run\",\
         \"args\":\"\\\"x\\\"\\n\\ttab\\\\ \\u0001\",\"host\":\"h\\r\"}\n"
    );
}

#[test]
fn audit_line_is_a_single_line() {
    let line = audit_line("t\n", "e\n", "a\nb\r\nc", "h\n");
    assert_eq!(line.matches('\n').count(), 1);
    assert!(line.ends_with('\n'));
}

#[test]
fn audit_line_keeps_unicode_detail() {
    let line = audit_line("t", "e", "note ශ්‍රී ලංකා", "h");
    assert!(line.contains("\"args\":\"ශ්‍රී ලංකා\""));
}

#[test]
fn detail_split_at_first_space() {
    assert_eq!(split_detail("web_fetch https://a b"), ("web_fetch", "https://a b"));
    assert_eq!(split_detail("shell"), ("shell", ""));
    assert_eq!(split_detail(" x"), ("", "x"));
    assert_eq!(split_detail(""), ("", ""));
}

#[test]
fn audit_line_from_parts_layout() {
    assert_eq!(
        audit_line_from_parts("\"t\"", "\"e\"", "\"\"", "\"\"", "\"h\""),
        "{\"ts\":\"t\",\"event\":\"e\",\"tool\":\"\",\"args\":\"\",\"host\":\"h\"}\n"
    );
    assert_eq!(AUDIT_LOG_FILE, "logs/apeclaw_audit.log");
}
