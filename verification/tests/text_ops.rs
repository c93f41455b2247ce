use rss_forge::text::{
    has_prefix, i64_text, is_whitespace, join_strings, remove_char, split_words, take_chars,
    text_eq, trim_str, u64_text,
};

#[test]
fn trim_removes_surrounding_whitespace() {
    assert_eq!(trim_str(" \t ab c \n"), "ab c");
    assert_eq!(trim_str("\u{3000}\u{a0}x\u{2028}"), "x");
    assert_eq!(trim_str("   "), "");
    assert_eq!(trim_str(""), "");
}

#[test]
fn trim_twice_is_trim_once() {
    let once = trim_str("  a b  ");
    assert_eq!(trim_str(&once), once);
}

#[test]
fn whitespace_is_unicode_white_space() {
    assert!(is_whitespace(' '));
    assert!(is_whitespace('\n'));
    assert!(is_whitespace('\u{85}'));
    assert!(is_whitespace('\u{202f}'));
    assert!(!is_whitespace('x'));
    assert!(!is_whitespace('\u{200b}'));
}

#[test]
fn words_are_maximal_runs() {
    assert_eq!(split_words("a  b\tc"), vec!["a", "b", "c"]);
    assert_eq!(split_words("  lead and trail  "), vec!["lead", "and", "trail"]);
    assert!(split_words(" \n ").is_empty());
}

#[test]
fn join_puts_separator_between_parts() {
    let parts = vec!["a".to_string(), "b".to_string(), "c".to_string()];
    assert_eq!(join_strings(&parts, " | "), "a | b | c");
    assert_eq!(join_strings(&vec!["solo".to_string()], "/"), "solo");
    assert_eq!(join_strings(&Vec::new(), "/"), "");
}

#[test]
fn remove_char_drops_every_occurrence() {
    assert_eq!(remove_char("a\nb\n\nc", '\n'), "abc");
    assert_eq!(remove_char("abc", '\n'), "abc");
}

#[test]
fn take_chars_counts_characters() {
    assert_eq!(take_chars("héllo", 2), "hé");
    assert_eq!(take_chars("abc", 10), "abc");
    assert_eq!(take_chars("abc", 0), "");
}

#[test]
fn prefix_and_equality() {
    assert!(has_prefix("https://x", "http"));
    assert!(!has_prefix("ftp://x", "http"));
    assert!(!has_prefix("ht", "http"));
    assert!(text_eq("hot", "hot"));
    assert!(!text_eq("hot", "hotter"));
}

#[test]
fn decimal_numbers() {
    assert_eq!(u64_text(0), "0");
    assert_eq!(u64_text(1234), "1234");
    assert_eq!(u64_text(u64::MAX), "18446744073709551615");
    assert_eq!(i64_text(-5), "-5");
    assert_eq!(i64_text(i64::MIN), "-9223372036854775808");
    assert_eq!(i64_text(i64::MAX), "9223372036854775807");
}
