use ever_living::listing::parse_pid_listing;
use ever_living::paths::{grandparent_dir, join_path};
use ever_living::sidecar::{pid_file_text, pid_from_file_text};
use ever_living::text::{
    decimal_string, parse_trimmed_u32, str_equals, str_starts_with, trim_str,
};

#[test]
fn trim_removes_unicode_whitespace_at_both_ends() {
    assert_eq!(trim_str("  12 \t\n"), "12");
    assert_eq!(trim_str("\u{3000}x y\u{a0}\u{2028}"), "x y");
    assert_eq!(trim_str(" \r\n\t "), "");
    assert_eq!(trim_str(""), "");
    assert_eq!(trim_str("a"), "a");
}

#[test]
fn trim_agrees_with_std() {
    for s in ["\u{85}abc\u{205f}", "  mid dle  ", "\u{1680}\u{2000}\u{200a}z\u{202f}", "x\u{200b}"] {
        assert_eq!(trim_str(s), s.trim());
    }
}

#[test]
fn parse_reads_u32_as_std_does() {
    let cases = [
        "42", "+7", "-1", "", "+", "-", "4294967295", "4294967296", "0012", "12a", " 5", "\u{661}\u{662}",
        "99999999999999999999999",
    ];
    for c in cases {
        assert_eq!(parse_trimmed_u32(c), c.trim().parse::<u32>().ok(), "case {:?}", c);
    }
    assert_eq!(parse_trimmed_u32("  4294967295\n"), Some(u32::MAX));
    assert_eq!(parse_trimmed_u32("+0"), Some(0));
    assert_eq!(parse_trimmed_u32("-0"), None);
}

#[test]
fn decimal_matches_to_string() {
    for n in [0u64, 7, 10, 99, 100, 7070, 1234567890123, u64::MAX] {
        assert_eq!(decimal_string(n), n.to_string());
    }
}

#[test]
fn pid_file_text_reads_back() {
    for pid in [0u32, 1, 9, 10, 4242, u32::MAX] {
        let text = pid_file_text(pid);
        assert_eq!(text, pid.to_string());
        assert_eq!(pid_from_file_text(&text), Some(pid));
    }
    assert_eq!(pid_from_file_text("123\n"), Some(123));
    assert_eq!(pid_from_file_text("garbage"), None);
    assert_eq!(pid_from_file_text(""), None);
}

#[test]
fn prefix_and_equality() {
    assert!(str_starts_with("zh-CN", "zh"));
    assert!(str_starts_with("zh", "zh"));
    assert!(!str_starts_with("z", "zh"));
    assert!(!str_starts_with("ZH-CN", "zh"));
    assert!(str_starts_with("anything", ""));
    assert!(str_equals("quit", "quit"));
    assert!(!str_equals("quit", "quit "));
    assert!(!str_equals("", "x"));
}

#[test]
fn listing_takes_each_id_once_in_order() {
    let out = "101\n202\n101\n\n  303  \r\nnot-a-pid\n-5\n";
    assert_eq!(parse_pid_listing(out), vec![101, 202, 303]);
    assert_eq!(parse_pid_listing(""), Vec::<u32>::new());
    assert_eq!(parse_pid_listing("7"), vec![7]);
    assert_eq!(parse_pid_listing("\n\n"), Vec::<u32>::new());
    assert_eq!(parse_pid_listing("8\r"), vec![8]);
    assert_eq!(parse_pid_listing("5\n5\n5"), vec![5]);
}

#[test]
fn listing_agrees_with_lines_trim_parse() {
    let out = "  12\n34\r\n\t56 \n12\nx\n+78\n4294967296\n";
    let mut expected: Vec<u32> = Vec::new();
    for pid in out.lines().filter_map(|l| l.trim().parse::<u32>().ok()) {
        if !expected.contains(&pid) {
            expected.push(pid);
        }
    }
    assert_eq!(parse_pid_listing(out), expected);
}

#[test]
fn join_matches_std_path() {
    let cases = [("/a", "b"), ("/a/", "b"), ("", "b"), ("/a", "/etc"), ("rel", "x/y"), ("/", "z")];
    for (base, rel) in cases {
        let expected = std::path::Path::new(base).join(rel).to_string_lossy().into_owned();
        assert_eq!(join_path(base, rel), expected, "case {:?}", (base, rel));
    }
}

#[test]
fn grandparent_of_bundle_executable() {
    assert_eq!(
        grandparent_dir("/Applications/Ever-Living.app/Contents/MacOS/ever-living"),
        Some("/Applications/Ever-Living.app/Contents".to_string())
    );
    assert_eq!(grandparent_dir("/"), None);
    assert_eq!(grandparent_dir("/x"), None);
    assert_eq!(grandparent_dir("a/b"), Some(String::new()));
}
