use cmd_engine::text::{contains_text, is_blank_text, is_whitespace_char, same_text, trimmed};

#[test]
fn whitespace_matches_char_is_whitespace() {
    for code in 0u32..=0x10FFFF {
        if let Some(c) = char::from_u32(code) {
            assert_eq!(is_whitespace_char(c), c.is_whitespace(), "U+{:04X}", code);
        }
    }
}

#[test]
fn trimming_matches_str_trim() {
    for s in ["", "  ", " a ", "\u{2028}x y\u{85}", "é\t", "\u{feff}z"] {
        assert_eq!(trimmed(s), s.trim());
        assert_eq!(is_blank_text(s), s.trim().is_empty());
    }
}

#[test]
fn containment_and_equality() {
    assert!(contains_text("/usr/bin/zsh", "zsh"));
    assert!(!contains_text("/bin/sh", "zsh"));
    assert!(contains_text("aaab", "ab"));
    assert!(same_text("abc", "abc"));
    assert!(!same_text("abc", "abd"));
}

