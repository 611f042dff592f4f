use rusty_tunes::text::{
    ascii_lowered, char_is_control, char_is_space, chars_of, decimal_of, joined, lines_of, parsed_u64, string_of,
    trimmed, trimmed_both, trimmed_end, trimmed_start, CharClass,
};

fn lines(s: &str) -> Vec<String> {
    lines_of(&chars_of(s)).iter().map(string_of).collect()
}

#[test]
fn character_classes_agree_with_the_standard_library() {
    for n in 0..=0x10ffffu32 {
        if let Some(c) = char::from_u32(n) {
            assert_eq!(char_is_space(c), c.is_whitespace());
            assert_eq!(char_is_control(c), c.is_control());
        }
    }
}

#[test]
fn lines_agree_with_the_standard_library() {
    for s in ["", "a", "a\n", "a\nb", "a\r\nb\r\n", "\n", "\n\n", "\r", "a\r", "a\r\r\nb", "\r\n", "x\n\r"] {
        assert_eq!(lines(s), s.lines().map(str::to_string).collect::<Vec<_>>());
    }
}

#[test]
fn trimming_agrees_with_the_standard_library() {
    for s in ["", " ", " a ", "\u{2003}é\n", "a b", "\t\r\n x\u{85}"] {
        assert_eq!(string_of(&trimmed(&chars_of(s))), s.trim());
    }
    assert_eq!(string_of(&trimmed_both(&chars_of("\"\"a\"b\""), CharClass::Quote)), "a\"b");
    assert_eq!(string_of(&trimmed_end(&chars_of("a,,"), CharClass::Comma)), "a");
    assert_eq!(string_of(&trimmed_start(&chars_of("..a."), CharClass::DotOrWhitespace)), "a.");
}

#[test]
fn trimming_twice_changes_nothing() {
    let once = trimmed(&chars_of("  a b\t"));
    assert_eq!(trimmed(&once), once);
}

#[test]
fn numbers_agree_with_the_standard_library() {
    for n in [0u64, 7, 10, 99, 100, 1234567890, u64::MAX] {
        assert_eq!(decimal_of(n), n.to_string());
        assert_eq!(parsed_u64(&chars_of(&decimal_of(n))), Some(n));
    }
    for s in ["", "+", "-", "+5", "05", "18446744073709551615", "18446744073709551616", "1 ", "٣", "99999999999999999999999"] {
        assert_eq!(parsed_u64(&chars_of(s)), s.parse::<u64>().ok());
    }
}

#[test]
fn lowering_touches_ascii_letters_only() {
    for s in ["", "ABZaz09", "ÉÀ", "@[`{"] {
        assert_eq!(string_of(&ascii_lowered(&chars_of(s))), s.to_ascii_lowercase());
    }
}

#[test]
fn joining_puts_the_separator_between() {
    let parts = |v: &[&str]| v.iter().map(|s| s.to_string()).collect::<Vec<_>>();
    assert_eq!(joined(&parts(&[]), ", "), "");
    assert_eq!(joined(&parts(&["a"]), ", "), "a");
    assert_eq!(joined(&parts(&["a", "", "c"]), ", "), "a, , c");
}
