use edge_api::text::{chars_of, contains_char, parse_u32, same_str, split_text, trim};
use edge_api::validate::{is_non_empty_after_trim, looks_like_email};

#[test]
fn test_email_validation() {
    assert!(looks_like_email("test@example.com"));
    assert!(!looks_like_email("invalid"));
}

#[test]
fn email_needs_only_an_at_sign() {
    assert!(looks_like_email("@"));
    assert!(looks_like_email("a@"));
    assert!(looks_like_email("no domain@"));
    assert!(!looks_like_email(""));
    assert!(!looks_like_email("no-at-sign"));
    assert!(!looks_like_email("full\u{ff20}width"));
}

#[test]
fn looks_like_email_agrees_with_contains() {
    let samples = ["", "@", "a@b", "ab", "a b@c d", "x\u{0}@", "\u{e9}t\u{e9}", "a@b@c"];
    for s in samples {
        assert_eq!(looks_like_email(s), s.contains('@'));
    }
}

#[test]
fn contains_char_finds_any_position() {
    assert!(contains_char("abc", 'a'));
    assert!(contains_char("abc", 'b'));
    assert!(contains_char("abc", 'c'));
    assert!(!contains_char("abc", 'd'));
    assert!(!contains_char("", 'a'));
    assert!(contains_char("na\u{ef}ve", '\u{ef}'));
}

#[test]
fn chars_of_keeps_order() {
    assert_eq!(chars_of("a\u{e9}z"), vec!['a', '\u{e9}', 'z']);
    assert_eq!(chars_of(""), Vec::<char>::new());
}

#[test]
fn trim_removes_whitespace_at_both_ends() {
    assert_eq!(trim("  Ada Lovelace \t\n"), "Ada Lovelace");
    assert_eq!(trim("x"), "x");
    assert_eq!(trim(""), "");
    assert_eq!(trim(" "), "");
    assert_eq!(trim("\u{3000}x y\u{a0}"), "x y");
}

#[test]
fn trim_agrees_with_the_standard_library() {
    let samples = [
        "",
        " ",
        "a",
        " a",
        "a ",
        " a b ",
        "\t\n\r a \u{b}\u{c}",
        "\u{85}a\u{2028}",
        "\u{2003}\u{2003}",
        "\u{200b}a\u{200b}",
        "\u{1680}\u{e9}\u{202f}",
        "a\u{3000}b",
    ];
    for s in samples {
        assert_eq!(trim(s), s.trim());
    }
}

#[test]
fn blank_names_are_empty_after_trim() {
    assert!(!is_non_empty_after_trim(""));
    assert!(!is_non_empty_after_trim(" "));
    assert!(!is_non_empty_after_trim(" \t\r\n"));
    assert!(!is_non_empty_after_trim("\u{2003}"));
    assert!(is_non_empty_after_trim("a"));
    assert!(is_non_empty_after_trim("  a  "));
    assert!(is_non_empty_after_trim("\u{200b}"));
}

#[test]
fn parse_u32_reads_decimal_numbers() {
    assert_eq!(parse_u32("0"), Some(0));
    assert_eq!(parse_u32("7"), Some(7));
    assert_eq!(parse_u32("+7"), Some(7));
    assert_eq!(parse_u32("007"), Some(7));
    assert_eq!(parse_u32("100"), Some(100));
    assert_eq!(parse_u32("4294967295"), Some(4294967295));
}

#[test]
fn parse_u32_refuses_everything_else() {
    assert_eq!(parse_u32(""), None);
    assert_eq!(parse_u32("+"), None);
    assert_eq!(parse_u32("-1"), None);
    assert_eq!(parse_u32("++1"), None);
    assert_eq!(parse_u32("1+"), None);
    assert_eq!(parse_u32(" 1"), None);
    assert_eq!(parse_u32("1 "), None);
    assert_eq!(parse_u32("12a"), None);
    assert_eq!(parse_u32("1.5"), None);
    assert_eq!(parse_u32("0x10"), None);
    assert_eq!(parse_u32("\u{ff11}"), None);
    assert_eq!(parse_u32("4294967296"), None);
    assert_eq!(parse_u32("99999999999999999999999"), None);
}

#[test]
fn parse_u32_agrees_with_the_standard_library() {
    let samples = [
        "", "+", "-", "0", "-0", "+0", "1", "10", "4294967295", "4294967296", "42949672950",
        "abc", "1e3", "٣", "00000000000000000001", "+4294967295", "/", ":", "9", "/9", "9:",
    ];
    for s in samples {
        assert_eq!(parse_u32(s), s.parse::<u32>().ok());
    }
}

#[test]
fn split_text_cuts_at_every_separator() {
    assert_eq!(split_text("/api/users/7", '/'), vec!["", "api", "users", "7"]);
    assert_eq!(split_text("", '/'), vec![""]);
    assert_eq!(split_text("/", '/'), vec!["", ""]);
    assert_eq!(split_text("//", '/'), vec!["", "", ""]);
    assert_eq!(split_text("abc", '/'), vec!["abc"]);
    assert_eq!(split_text("a/b/", '/'), vec!["a", "b", ""]);
    assert_eq!(split_text("\u{e9}/\u{e8}", '/'), vec!["\u{e9}", "\u{e8}"]);
}

#[test]
fn split_text_agrees_with_the_standard_library() {
    let samples = ["", "/", "a", "/a", "a/", "a//b", "///", "/api/users/:id", "x/y/z"];
    for s in samples {
        let expected: Vec<String> = s.split('/').map(|p| p.to_string()).collect();
        assert_eq!(split_text(s, '/'), expected);
    }
}

#[test]
fn same_str_compares_texts() {
    assert!(same_str("sum", "sum"));
    assert!(!same_str("sum", "Sum"));
    assert!(!same_str("sum", "sum "));
    assert!(same_str("", ""));
}
