use cx_proxy::truncate::{dedup_lines, filter_and_truncate, truncate, truncate_with};

#[test]
fn test_truncate_short_input() {
    let raw = "line1\nline2\nline3";
    let result = truncate(raw);
    assert_eq!(result, "line1\nline2\nline3");
}

#[test]
fn test_truncate_respects_max_lines() {
    let raw = (0..200).map(|i| format!("line {i}")).collect::<Vec<_>>().join("\n");
    let result = truncate(&raw);
    let lines: Vec<&str> = result.lines().collect();
    // 150 lines + 1 blank + 1 footer
    assert!(lines.len() <= 153);
    assert!(result.contains("200 lines total, showing first 150"));
}

#[test]
fn test_truncate_caps_long_lines() {
    let long = "x".repeat(500);
    let result = truncate(&long);
    assert!(result.contains("…"));
    assert!(result.len() < 500);
}

#[test]
fn test_truncate_with_custom_limits() {
    let raw = "aaa\nbbb\nccc\nddd\neee";
    let result = truncate_with(raw, 3, 100);
    assert!(result.contains("aaa"));
    assert!(result.contains("bbb"));
    assert!(result.contains("ccc"));
    assert!(result.contains("5 lines total, showing first 3"));
    assert!(!result.contains("ddd"));
}

#[test]
fn test_truncate_with_line_len_cap() {
    let raw = "short\nthis_line_is_way_too_long_for_the_cap";
    let result = truncate_with(raw, 100, 10);
    assert!(result.contains("short"));
    assert!(result.contains("this_line_ …"));
}

#[test]
fn test_truncate_exact_limit_no_footer() {
    let raw = (0..150).map(|i| format!("L{i}")).collect::<Vec<_>>().join("\n");
    let result = truncate(&raw);
    assert!(!result.contains("lines total"));
}

#[test]
fn test_filter_and_truncate() {
    let raw = "error: bad\ninfo: ok\nerror: worse\ninfo: fine";
    let result = filter_and_truncate(raw, |l| l.starts_with("error"));
    assert!(result.contains("error: bad"));
    assert!(result.contains("error: worse"));
    assert!(!result.contains("info:"));
}

#[test]
fn test_filter_and_truncate_nothing_kept() {
    let raw = "info: ok\ninfo: fine";
    let result = filter_and_truncate(raw, |l| l.starts_with("error"));
    assert_eq!(result, "");
}

#[test]
fn test_dedup_lines_no_dupes() {
    let raw = "a\nb\nc";
    let result = dedup_lines(raw);
    assert!(result.contains("a"));
    assert!(result.contains("b"));
    assert!(result.contains("c"));
    assert!(!result.contains("×"));
}

#[test]
fn test_dedup_lines_consecutive_dupes() {
    let raw = "log entry\nlog entry\nlog entry\nother\nother";
    let result = dedup_lines(raw);
    assert!(result.contains("log entry  (×3)"));
    assert!(result.contains("other  (×2)"));
}

#[test]
fn test_dedup_lines_single_line() {
    let raw = "only line";
    let result = dedup_lines(raw);
    assert_eq!(result, "only line");
}

#[test]
fn test_dedup_lines_empty() {
    let result = dedup_lines("");
    assert_eq!(result, "");
}

#[test]
fn test_dedup_lines_non_consecutive_not_merged() {
    let raw = "a\nb\na";
    let result = dedup_lines(raw);
    assert!(!result.contains("×"));
}

#[test]
fn truncate_exact_overflow_text() {
    let result = truncate_with("a\nb\nc\n", 2, 10);
    assert_eq!(result, "a\nb\n\n[cx] … 3 lines total, showing first 2");
}

#[test]
fn truncate_drops_final_line_feed_and_carriage_returns() {
    assert_eq!(truncate("a\r\nb\n"), "a\nb");
    assert_eq!(truncate("a\r"), "a\r");
    assert_eq!(truncate("\n"), "");
    assert_eq!(truncate("\n\n"), "\n");
}

#[test]
fn truncate_counts_characters_not_bytes() {
    assert_eq!(truncate_with("ééééé", 5, 3), "ééé …");
    assert_eq!(truncate_with("ééé", 5, 3), "ééé");
}

#[test]
fn dedup_exact_output() {
    assert_eq!(dedup_lines("a\na\nb\na\na\na\n"), "a  (×2)\nb\na  (×3)");
    let twelve = "x\n".repeat(12);
    assert_eq!(dedup_lines(&twelve), "x  (×12)");
}
