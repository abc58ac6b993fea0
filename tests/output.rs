use nvim_cargo::output::{classify_added, failure_report};
use nvim_cargo::text::{escape_quotes, join_spaced, split_lines, trim, trim_end, trim_start};

#[test]
fn summary_joins_lines_from_adding_on() {
    let c = classify_added("Updating index\nAdding foo v1.0\n  Features: default");
    assert_eq!(c.summary, "Adding foo v1.0   Features: default");
    assert_eq!(c.warnings, "");
}

#[test]
fn warnings_are_split_from_summary() {
    let c = classify_added("Warning: foo is deprecated\nAdding foo v1.0");
    assert_eq!(c.warnings, "\nWarning: foo is deprecated");
    assert_eq!(c.summary, "Adding foo v1.0");
}

#[test]
fn summary_classified_again_has_no_warnings() {
    let c = classify_added("Warning: a\n  Adding foo v1.0\nWarning: b\n\n");
    assert_eq!(c.warnings, "\nWarning: a\nWarning: b");
    assert_eq!(c.summary, "  Adding foo v1.0 Warning: b");
    let again = classify_added(&c.summary);
    assert_eq!(again.warnings, "");
    assert_eq!(again.summary, c.summary);
}

#[test]
fn output_without_adding_has_empty_summary() {
    let c = classify_added("Updating index\n   Locking 3 packages");
    assert_eq!(c.summary, "");
    assert_eq!(c.warnings, "");
    let c = classify_added("");
    assert_eq!(c.summary, "");
    assert_eq!(c.warnings, "");
}

#[test]
fn carriage_returns_end_lines() {
    let c = classify_added("Adding a v1\r\nx\r\n");
    assert_eq!(c.summary, "Adding a v1 x");
}

#[test]
fn failure_reports_last_line_trimmed() {
    assert_eq!(failure_report("line1\nline2\nActual cause"), "Actual cause");
    assert_eq!(failure_report("first\n  error: no such crate  \n"), "error: no such crate");
    assert_eq!(failure_report(""), "");
}

#[test]
fn lines_follow_str_lines() {
    assert_eq!(split_lines("a\nb\r\nc"), vec!["a", "b", "c"]);
    assert_eq!(split_lines("a\n\nb\n"), vec!["a", "", "b"]);
    assert_eq!(split_lines("a\r"), vec!["a\r"]);
    assert!(split_lines("").is_empty());
    for s in ["x\ny\n", "\n\n", "p\r\n\r\nq", " a \n b"] {
        let expected: Vec<String> = s.lines().map(|l| l.to_string()).collect();
        assert_eq!(split_lines(s), expected);
    }
}

#[test]
fn trimming_follows_unicode_whitespace() {
    assert_eq!(trim("\u{3000} x y\t\n"), "x y");
    assert_eq!(trim_start("  a b  "), "a b  ");
    assert_eq!(trim_end("  a b \u{a0}"), "  a b");
    assert_eq!(trim("   "), "");
    for s in ["\u{2028}q\u{85}", "\u{200b}z", " \u{1680}w\u{202f}"] {
        assert_eq!(trim(s), s.trim());
    }
}

#[test]
fn joining_and_quoting() {
    let ws: Vec<String> = vec!["build".to_string(), "--release".to_string()];
    assert_eq!(join_spaced(&ws), "build --release");
    assert_eq!(join_spaced(&Vec::new()), "");
    assert_eq!(escape_quotes("it's a\\b"), "it\\'s a\\b");
}
