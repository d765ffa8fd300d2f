use nexus::text::{chars_of, is_blank, is_whitespace, same_text, starts_with, text_less_than, trim_end};

#[test]
fn trim_end_removes_trailing_whitespace_only() {
    assert_eq!(trim_end("  ab c \t\n"), "  ab c");
    assert_eq!(trim_end("\u{3000}x\u{a0}"), "\u{3000}x");
    assert_eq!(trim_end("   "), "");
}

#[test]
fn whitespace_agrees_with_std() {
    for c in ['\t', '\n', ' ', '\u{85}', '\u{a0}', '\u{2000}', '\u{200a}', '\u{3000}', 'a', '\u{200b}', '_'] {
        assert_eq!(is_whitespace(c), c.is_whitespace());
    }
}

#[test]
fn blank_and_prefix_tests() {
    assert!(is_blank(" \t "));
    assert!(is_blank(""));
    assert!(!is_blank(" x "));
    assert!(starts_with(":vars", ":"));
    assert!(!starts_with("", ":"));
    assert!(same_text("héllo", "héllo"));
    assert!(!same_text("hello", "hell"));
    assert_eq!(chars_of("aé"), vec!['a', 'é']);
}

#[test]
fn text_order_matches_string_order() {
    let words = ["", "a", "ab", "b", "Z", "é", "aa"];
    for x in words {
        for y in words {
            assert_eq!(text_less_than(x, y), x < y, "{} {}", x, y);
        }
    }
}
