use giggles::shell::status_label;
use giggles::text::{contains_str, decimal, ends_with_str, right_align, str_eq, trim};

#[test]
fn trim_removes_unicode_whitespace() {
    assert_eq!(trim("  funny \n"), "funny");
    assert_eq!(trim("\u{3000}cat\u{a0}"), "cat");
    assert_eq!(trim("   "), "");
    assert_eq!(trim("a b"), "a b");
}

#[test]
fn decimal_matches_to_string() {
    for n in [0u64, 7, 10, 59, 60, 12345, u64::MAX] {
        assert_eq!(decimal(n), n.to_string());
    }
}

#[test]
fn right_align_pads_to_width() {
    assert_eq!(right_align("Uploaded", 12), "    Uploaded");
    assert_eq!(right_align("verylonglabel!", 12), "verylonglabel!");
    assert_eq!(status_label("Finished"), format!("{:>12}", "Finished"));
    assert_eq!(status_label("Résumé"), format!("{:>12}", "Résumé"));
}

#[test]
fn substring_helpers() {
    assert!(contains_str("video/webm", "webm"));
    assert!(!contains_str("video", "webm"));
    assert!(contains_str("abc", ""));
    assert!(ends_with_str("a.x.com", ".x.com"));
    assert!(!ends_with_str("com", ".x.com"));
    assert!(str_eq("a", "a"));
    assert!(!str_eq("a", "b"));
}

#[test]
fn trim_twice_is_trim_once() {
    for s in ["  a  ", "\t\nb c\u{2003}", "", "   "] {
        let once = trim(s);
        assert_eq!(trim(&once), once);
    }
}

#[test]
fn is_whitespace_matches_std() {
    for n in 0u32..0x3100 {
        if let Some(c) = char::from_u32(n) {
            assert_eq!(giggles::text::is_whitespace(c), c.is_whitespace(), "U+{n:04X}");
        }
    }
    assert!(!giggles::text::is_whitespace('\u{feff}'));
}
