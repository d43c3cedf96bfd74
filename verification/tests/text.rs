use unica_coder::guards::{joined, opt_str_is};
use unica_coder::text::{
    chars_of, contains, owned, parse_i32_text, push_decimal_i64, push_decimal_u64,
    rsplit_once_char, starts_with, str_eq, strip_prefix_of, string_from_chars, tail_of,
    to_ascii_lowercase, trim_chars, whitespace,
};

#[test]
fn trim_removes_unicode_whitespace_at_both_ends() {
    assert_eq!(trim_chars("  exit status: 1\n"), "exit status: 1");
    assert_eq!(trim_chars("\u{3000}\u{a0}x y\u{2029}"), "x y");
    assert_eq!(trim_chars("   "), "");
    assert_eq!(trim_chars(""), "");
    assert!(whitespace('\u{85}'));
    assert!(!whitespace('x'));
}

#[test]
fn parsing_follows_the_i32_grammar() {
    assert_eq!(parse_i32_text("0"), Some(0));
    assert_eq!(parse_i32_text("+5"), Some(5));
    assert_eq!(parse_i32_text("-2147483648"), Some(i32::MIN));
    assert_eq!(parse_i32_text("2147483647"), Some(i32::MAX));
    assert_eq!(parse_i32_text("2147483648"), None);
    assert_eq!(parse_i32_text("-"), None);
    assert_eq!(parse_i32_text(""), None);
    assert_eq!(parse_i32_text(" 1"), None);
    assert_eq!(parse_i32_text("1x"), None);
}

#[test]
fn decimal_text_matches_display() {
    let mut out = owned("n=");
    push_decimal_u64(&mut out, 0);
    assert_eq!(out, "n=0");
    let mut out = String::new();
    push_decimal_u64(&mut out, u64::MAX);
    assert_eq!(out, u64::MAX.to_string());
    let mut out = String::new();
    push_decimal_i64(&mut out, i64::MIN);
    assert_eq!(out, i64::MIN.to_string());
    let mut out = String::new();
    push_decimal_i64(&mut out, -7);
    assert_eq!(out, "-7");
}

#[test]
fn splitting_and_prefixes() {
    assert_eq!(
        rsplit_once_char("exit status: 1", ':'),
        Some(("exit status".to_string(), " 1".to_string()))
    );
    assert_eq!(
        rsplit_once_char("a:b:c", ':'),
        Some(("a:b".to_string(), "c".to_string()))
    );
    assert_eq!(rsplit_once_char("abc", ':'), None);
    assert_eq!(strip_prefix_of("mode=full", "mode="), Some("full".to_string()));
    assert_eq!(strip_prefix_of("mode", "mode="), None);
    assert!(starts_with("form-edit", "form-"));
    assert!(!starts_with("form", "form-"));
    assert!(contains("/DumpConfigToFiles", "Config"));
    assert!(!contains("abc", "abd"));
    assert!(str_eq("a", "a") && !str_eq("a", "b"));
}

#[test]
fn lowercase_and_tails() {
    assert_eq!(to_ascii_lowercase("/DumpConfigToFiles Ä"), "/dumpconfigtofiles Ä");
    assert_eq!(tail_of("abcdef", 3), "def");
    assert_eq!(tail_of("ab", 3), "ab");
    assert_eq!(tail_of("żółw", 2), "łw");
    let chars = chars_of("héllo");
    assert_eq!(chars.len(), 5);
    assert_eq!(string_from_chars(&chars, 1, 3), "él");
}

#[test]
fn joining_and_comparing_texts() {
    assert_eq!(joined("unica.cf.edit", " blocked"), "unica.cf.edit blocked");
    let mode = "full".to_string();
    assert!(opt_str_is(Some(&mode), "full"));
    assert!(!opt_str_is(Some(&mode), "partial"));
    assert!(!opt_str_is(None, "full"));
}
