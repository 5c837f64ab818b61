use cx_proxy::compress::cargo::CargoCompressor;
use cx_proxy::compress::docker::DockerCompressor;
use cx_proxy::compress::generic::GenericCompressor;
use cx_proxy::compress::git::{compress_diff, compress_status, GitCompressor};
use cx_proxy::compress::grep::{compress_grep, GrepCompressor};
use cx_proxy::compress::python::{compress_uv_sync, PythonCompressor};
use cx_proxy::compress::Compressor;
use cx_proxy::truncate::{dedup_lines, truncate, truncate_with};

fn numbered(n: usize) -> String {
    (0..n).map(|i| format!("line {i}")).collect::<Vec<_>>().join("\n")
}

#[test]
fn truncation_below_the_caps_is_the_identity() {
    for raw in ["", "a", "a\nb", "a\n\nb", " lead\ttabs \nx\r", "é\nü"] {
        assert_eq!(truncate(raw), raw);
    }
    let full = numbered(150);
    assert_eq!(truncate(&full), full);
    let wide = "x".repeat(300);
    assert_eq!(truncate(&wide), wide);
    assert_eq!(truncate_with("ab\ncd", 2, 2), "ab\ncd");
}

#[test]
fn truncation_below_the_caps_joins_the_lines() {
    assert_eq!(truncate("a\n"), "a");
    assert_eq!(truncate("a\r\nb"), "a\nb");
    assert_eq!(truncate("a\r\r\nb\n"), "a\r\nb");
}

#[test]
fn truncation_keeps_within_the_caps() {
    let raw = (0..200)
        .map(|i| format!("{i} {}", "y".repeat(400)))
        .collect::<Vec<_>>()
        .join("\n");
    let out = truncate(&raw);
    let lines: Vec<&str> = out.lines().collect();
    assert_eq!(lines.len(), 152);
    for line in &lines[..150] {
        assert_eq!(line.chars().count(), 302);
        assert!(line.ends_with(" …"));
    }
    assert_eq!(lines[150], "");
    assert_eq!(lines[151], "[cx] … 200 lines total, showing first 150");

    let small = truncate(&numbered(150));
    assert_eq!(small.lines().count(), 150);
}

#[test]
fn truncation_with_no_room_leaves_the_note() {
    assert_eq!(
        truncate_with("a\nb", 0, 0),
        "\n[cx] … 2 lines total, showing first 0"
    );
    assert_eq!(truncate_with("abc", 1, 0), " …");
}

#[test]
fn dedup_gives_one_entry_for_each_run() {
    assert_eq!(dedup_lines("x"), "x");
    assert_eq!(dedup_lines("x\nx"), "x  (×2)");
    assert_eq!(dedup_lines("a\nx\nx\nx\nb"), "a\nx  (×3)\nb");
    assert_eq!(dedup_lines("x\ny\nx\ny"), "x\ny\nx\ny");
    assert_eq!(dedup_lines("\n\n\nz\n"), "  (×3)\nz");
    let ten = vec!["r"; 10].join("\n");
    assert_eq!(dedup_lines(&ten), "r  (×10)");
}

#[test]
fn dedup_without_runs_is_truncation() {
    let raw = numbered(200);
    assert_eq!(dedup_lines(&raw), truncate(&raw));
}

#[test]
fn compressors_fall_back_to_truncation() {
    let raw = numbered(170);
    let expected = truncate(&raw);
    for sub in [
        "test", "nextest", "build", "check", "clippy", "fmt", "bench", "doc", "update", "install",
        "publish", "tree", "",
    ] {
        assert_eq!(CargoCompressor.compress(&raw, Some(sub)), expected, "cargo {sub}");
    }
    assert_eq!(CargoCompressor.compress(&raw, None), expected);
    for sub in ["remote", "clean", "log", "show", "bisect", ""] {
        assert_eq!(GitCompressor.compress(&raw, Some(sub)), expected, "git {sub}");
    }
    assert_eq!(GitCompressor.compress(&raw, None), expected);
    for sub in ["pytest", "test", "mypy", "pip", "install", "uninstall", "lock", "run", "venv"] {
        assert_eq!(PythonCompressor.compress(&raw, Some(sub)), expected, "python {sub}");
    }
    assert_eq!(PythonCompressor.compress(&raw, None), expected);
    for sub in ["inspect", "build", ""] {
        assert_eq!(DockerCompressor.compress(&raw, Some(sub)), expected, "docker {sub}");
    }
    assert_eq!(DockerCompressor.compress(&raw, None), expected);
    assert_eq!(GenericCompressor.compress(&raw, Some("anything")), expected);
}

#[test]
fn summaries_of_output_that_is_not_blank_are_not_empty() {
    let raws = ["x", " \n y \n", "no markers here\nat all\n", "\n\n.\n"];
    let subs = [
        "status", "diff", "push", "add", "branch", "tag", "stash", "merge", "checkout", "remote",
        "blame", "clean", "log", "test", "build", "clippy", "fmt", "run", "bench", "doc",
        "update", "install", "publish", "pytest", "ruff", "mypy", "pip", "list", "outdated",
        "sync", "lock", "remove", "ps", "images", "logs", "other",
    ];
    for raw in raws {
        for sub in subs {
            assert!(!GitCompressor.compress(raw, Some(sub)).is_empty(), "git {sub}");
            assert!(!CargoCompressor.compress(raw, Some(sub)).is_empty(), "cargo {sub}");
            assert!(!PythonCompressor.compress(raw, Some(sub)).is_empty(), "python {sub}");
            assert!(!DockerCompressor.compress(raw, Some(sub)).is_empty(), "docker {sub}");
        }
        assert!(!GrepCompressor.compress(raw, None).is_empty());
        assert!(!GenericCompressor.compress(raw, None).is_empty());
    }
}

#[test]
fn blank_output_can_give_an_empty_summary() {
    assert_eq!(GenericCompressor.compress("\n", None), "");
    assert_eq!(CargoCompressor.compress("Compiling x\n\n", Some("run")), "");
}

#[test]
fn scenario_clean_status() {
    let out = compress_status("On branch main\nnothing to commit, working tree clean\n");
    assert!(out.contains("[branch] main"));
    assert!(out.contains("[clean]"));
    assert!(!out.contains(" | "));
    assert!(!out.contains("Your branch"));
    assert_eq!(out, "[branch] main\n[clean]\n");
}

#[test]
fn scenario_diff_with_hunks_and_no_stat_block() {
    let raw = "diff --git a/src/lib.rs b/src/lib.rs\n--- a/src/lib.rs\n+++ b/src/lib.rs\n@@ -1,2 +1,3 @@\n+one\n+two\n-gone\n same\n";
    assert_eq!(compress_diff(raw), "[diff]\n  src/lib.rs: +2 -1\n");
}

#[test]
fn scenario_grep_grouping() {
    let out = compress_grep("a:1:first\na:2:second\nb:9:third\n");
    assert_eq!(
        out,
        "[grep] 3 matches in 2 files\n\n── a (2 hits)\n  1:first\n  2:second\n\n── b (1 hits)\n  9:third\n"
    );
    assert!(out.find("── a").unwrap() < out.find("── b").unwrap());
}

#[test]
fn scenario_dependency_sync() {
    let out = compress_uv_sync("Resolved 12 packages in 3ms\n + requests==2.31\n + idna==3.6\n - six==1.16\n");
    assert!(out.contains("Resolved 12 packages in 3ms"));
    assert!(out.contains("+2 -1"));
    assert_eq!(out, "[uv sync] Resolved 12 packages in 3ms | +2 -1\n");
}

#[test]
fn scenario_empty_log_stream() {
    assert_eq!(DockerCompressor.compress("", Some("logs")), "");
}
