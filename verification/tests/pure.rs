//! Tests for the pure components: time formatting, the civil
//! calendar, path exclusion, reference validation, patch rendering,
//! range stacking, and the clipboard sequence.

use vcs_core::calendar::days_to_ymd;
use vcs_core::clipboard::osc52_sequence;
use vcs_core::exclude::should_exclude_path;
use vcs_core::files::{dedup_paths, present_paths};
use vcs_core::patch::{render_patch, PatchLine};
use vcs_core::refname::{is_flag_like, trim_str};
use vcs_core::stack::{build_stack, StackEntry};
use vcs_core::strnum::{i64_pad4, u64_pad2, u64_to_dec};
use vcs_core::strutil::strip_trailing_newlines;
use vcs_core::timefmt::{format_git_time, format_relative_time};

#[test]
fn test_relative_time_seconds() {
    assert_eq!(format_relative_time(0), "0 seconds ago");
    assert_eq!(format_relative_time(1), "1 second ago");
    assert_eq!(format_relative_time(59), "59 seconds ago");
}

#[test]
fn test_relative_time_minutes_hours() {
    assert_eq!(format_relative_time(60), "1 minute ago");
    assert_eq!(format_relative_time(90), "1 minute ago");
    assert_eq!(format_relative_time(3599), "59 minutes ago");
    assert_eq!(format_relative_time(3600), "1 hour ago");
    assert_eq!(format_relative_time(3700), "1 hour ago");
    assert_eq!(format_relative_time(7200), "2 hours ago");
}

#[test]
fn test_relative_time_days_weeks_months_years() {
    assert_eq!(format_relative_time(86400), "1 day ago");
    assert_eq!(format_relative_time(2 * 86400), "2 days ago");
    assert_eq!(format_relative_time(7 * 86400), "1 week ago");
    assert_eq!(format_relative_time(3 * 7 * 86400), "3 weeks ago");
    assert_eq!(format_relative_time(30 * 86400), "1 month ago");
    assert_eq!(format_relative_time(11 * 30 * 86400), "11 months ago");
    assert_eq!(format_relative_time(365 * 86400), "1 year ago");
    assert_eq!(format_relative_time(3 * 365 * 86400), "3 years ago");
}

#[test]
fn test_relative_time_future() {
    assert_eq!(format_relative_time(-1), "in the future");
    assert_eq!(format_relative_time(-1000000), "in the future");
}

#[test]
fn test_absolute_time_epoch() {
    assert_eq!(format_git_time(0, 0), "1970-01-01 00:00:00");
}

#[test]
fn test_absolute_time_known_instants() {
    // 2000-02-29 is a leap day; 951782400 is its midnight UTC.
    assert_eq!(format_git_time(951782400, 0), "2000-02-29 00:00:00");
    // 2024-01-01 midnight UTC.
    assert_eq!(format_git_time(1704067200, 0), "2024-01-01 00:00:00");
    assert_eq!(format_git_time(1704067200, 90), "2024-01-01 01:30:00");
}

#[test]
fn test_absolute_time_offset_applies() {
    assert_eq!(format_git_time(0, 60), "1970-01-01 01:00:00");
    assert_eq!(format_git_time(3600, -60), "1970-01-01 00:00:00");
}

#[test]
fn test_absolute_time_shape() {
    let samples: [(i64, i32); 4] = [(0, 0), (951782400, 0), (1704067200, 330), (123456789, -420)];
    for (secs, off) in samples {
        let s = format_git_time(secs, off);
        assert_eq!(s.len(), 19, "length for {}: {}", secs, s);
        let bytes = s.as_bytes();
        assert_eq!(bytes[4], b'-');
        assert_eq!(bytes[7], b'-');
        assert_eq!(bytes[10], b' ');
        assert_eq!(bytes[13], b':');
        assert_eq!(bytes[16], b':');
    }
}

#[test]
fn test_days_to_ymd_epoch_and_leap() {
    assert_eq!(days_to_ymd(0), (1970, 1, 1));
    assert_eq!(days_to_ymd(-1), (1969, 12, 31));
    assert_eq!(days_to_ymd(11016), (2000, 2, 29));
    assert_eq!(days_to_ymd(19723), (2024, 1, 1));
    assert_eq!(days_to_ymd(59), (1970, 3, 1));
}

#[test]
fn test_exclusion_lock_files() {
    assert!(should_exclude_path("package-lock.json"));
    assert!(should_exclude_path("yarn.lock"));
    assert!(should_exclude_path("pnpm-lock.yaml"));
    assert!(should_exclude_path("Cargo.lock"));
    assert!(should_exclude_path("deep/dir/package-lock.json"));
    assert!(should_exclude_path("sub/Cargo.lock"));
}

#[test]
fn test_exclusion_vendor_dir() {
    assert!(should_exclude_path("node_modules/left-pad/index.js"));
    assert!(should_exclude_path("web/node_modules/x.js"));
    assert!(!should_exclude_path("node_modules2/x.js"));
}

#[test]
fn test_exclusion_negative_cases() {
    assert!(!should_exclude_path("src/main.rs"));
    assert!(!should_exclude_path("package-lock.json.bak"));
    assert!(!should_exclude_path("cargo.lock"));
    assert!(!should_exclude_path("a/b/yarn.lock.old"));
    assert!(!should_exclude_path(""));
}

#[test]
fn test_flag_like_detection() {
    assert!(is_flag_like("-n"));
    assert!(is_flag_like("  --upload-pack=evil "));
    assert!(is_flag_like("-"));
    assert!(!is_flag_like("main"));
    assert!(!is_flag_like("a-b"));
    assert!(!is_flag_like(""));
    assert!(!is_flag_like("   "));
}

#[test]
fn test_trim_str_matches_std() {
    for s in ["  a b  ", "\t\nx\r\n", "", "   ", "no-trim", " -n "] {
        assert_eq!(trim_str(s), s.trim());
    }
}

#[test]
fn test_strip_trailing_newlines() {
    assert_eq!(strip_trailing_newlines("msg\n"), "msg");
    assert_eq!(strip_trailing_newlines("msg\n\n\n"), "msg");
    assert_eq!(strip_trailing_newlines("msg"), "msg");
    assert_eq!(strip_trailing_newlines("\n\n"), "");
    assert_eq!(strip_trailing_newlines("a\nb\n"), "a\nb");
}

fn line(
    old_path: Option<&str>,
    new_path: Option<&str>,
    origin: char,
    content: Option<&str>,
) -> PatchLine {
    PatchLine {
        old_path: old_path.map(|s| s.to_string()),
        new_path: new_path.map(|s| s.to_string()),
        origin,
        content: content.map(|s| s.to_string()),
    }
}

#[test]
fn test_render_patch_prefixes() {
    let lines = vec![
        line(Some("a.txt"), Some("a.txt"), 'F', Some("diff --git a/a.txt b/a.txt\n")),
        line(Some("a.txt"), Some("a.txt"), 'H', Some("@@ -1 +1 @@\n")),
        line(Some("a.txt"), Some("a.txt"), '-', Some("old\n")),
        line(Some("a.txt"), Some("a.txt"), '+', Some("new\n")),
        line(Some("a.txt"), Some("a.txt"), ' ', Some("ctx\n")),
    ];
    let out = render_patch(&lines);
    assert_eq!(out, "diff --git a/a.txt b/a.txt\n@@ -1 +1 @@\n-old\n+new\n ctx\n");
}

#[test]
fn test_render_patch_drops_excluded_paths() {
    let lines = vec![
        line(Some("a.txt"), Some("a.txt"), '+', Some("keep\n")),
        line(Some("Cargo.lock"), Some("Cargo.lock"), '+', Some("drop\n")),
        line(None, Some("node_modules/x.js"), '+', Some("drop too\n")),
        line(Some("package-lock.json"), None, '-', Some("gone\n")),
    ];
    let out = render_patch(&lines);
    assert_eq!(out, "+keep\n");
}

#[test]
fn test_render_patch_empty() {
    let lines: Vec<PatchLine> = vec![];
    assert_eq!(render_patch(&lines), "");
}

fn entry(id: &str, summary: &str, has_changes: bool) -> StackEntry {
    StackEntry {
        commit_id: id.to_string(),
        short_id: id.chars().take(7).collect(),
        summary: summary.to_string(),
        has_changes,
    }
}

#[test]
fn test_build_stack_reverses_to_oldest_first() {
    // Newest first on the way in, oldest first on the way out.
    let cands = vec![entry("c3", "third", true), entry("c2", "second", true), entry(
        "c1", "first", true,
    )];
    let out = build_stack(&cands);
    assert_eq!(out.len(), 3);
    assert_eq!(out[0].summary, "first");
    assert_eq!(out[1].summary, "second");
    assert_eq!(out[2].summary, "third");
    assert!(out.iter().all(|e| e.change_id.is_none()));
}

#[test]
fn test_build_stack_drops_empty_keeps_order() {
    let cands = vec![
        entry("c4", "newest", true),
        entry("c3", "empty one", false),
        entry("c2", "middle", true),
        entry("c1", "oldest", true),
    ];
    let out = build_stack(&cands);
    assert_eq!(out.len(), 3);
    assert_eq!(out[0].summary, "oldest");
    assert_eq!(out[1].summary, "middle");
    assert_eq!(out[2].summary, "newest");
}

#[test]
fn test_build_stack_empty() {
    let cands: Vec<StackEntry> = vec![];
    assert!(build_stack(&cands).is_empty());
}

#[test]
fn test_present_paths_keeps_order() {
    let v = vec![Some("a".to_string()), None, Some("b".to_string()), None];
    let out = present_paths(&v);
    assert_eq!(out, vec!["a".to_string(), "b".to_string()]);
}

#[test]
fn test_dedup_paths() {
    let v = vec![
        "a".to_string(),
        "b".to_string(),
        "a".to_string(),
        "c".to_string(),
        "b".to_string(),
    ];
    let out = dedup_paths(&v);
    assert_eq!(out, vec!["a".to_string(), "b".to_string(), "c".to_string()]);
}

#[test]
fn test_osc52_sequence() {
    // "hello" is aGVsbG8= in standard base64.
    assert_eq!(osc52_sequence("hello"), "\x1b]52;c;aGVsbG8=\x07");
    assert_eq!(osc52_sequence(""), "\x1b]52;c;\x07");
}

#[test]
fn test_decimal_rendering() {
    assert_eq!(u64_to_dec(0), "0");
    assert_eq!(u64_to_dec(7), "7");
    assert_eq!(u64_to_dec(12045), "12045");
    assert_eq!(u64_pad2(3), "03");
    assert_eq!(u64_pad2(42), "42");
    assert_eq!(i64_pad4(7), "0007");
    assert_eq!(i64_pad4(1970), "1970");
    assert_eq!(i64_pad4(-5), "-005");
    assert_eq!(i64_pad4(12345), "12345");
}
