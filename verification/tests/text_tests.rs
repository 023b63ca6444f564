use container_telemetry::text::{
    can_slice, decimal, decode, find_char, parse_u16, same_bytes, same_text, slice, split_first,
    strip_leading_slash, trim,
};

#[test]
fn decode_takes_well_formed_bytes_as_they_are() {
    assert_eq!(decode(b"plain"), ("plain".to_string(), true));
    assert_eq!(decode(b""), (String::new(), true));
    assert_eq!(decode(" a
".as_bytes()), (" a\n".to_string(), true));
    assert_eq!(decode("gr\u{fc}\u{df}e \u{1f600}".as_bytes()), ("gr\u{fc}\u{df}e \u{1f600}".to_string(), true));
    assert_eq!(decode("\u{fffd}".as_bytes()), ("\u{fffd}".to_string(), true));
}

#[test]
fn decode_repairs_malformed_bytes() {
    assert_eq!(decode(b"ab\xffcd"), ("ab\u{fffd}cd".to_string(), false));
    assert_eq!(decode(b"\xc3"), ("\u{fffd}".to_string(), false));
    assert_eq!(decode(b"\xc0\x80"), ("\u{fffd}\u{fffd}".to_string(), false));
    assert_eq!(decode(b"\xed\xa0\x80").1, false);
    assert_eq!(decode(b"\xf4\x90\x80\x80").1, false);
    assert_eq!(decode(b"ok\x80").0, "ok\u{fffd}");
}

#[test]
fn same_bytes_compares_bytes() {
    assert!(same_bytes(b"", b""));
    assert!(same_bytes(b"abc", b"abc"));
    assert!(!same_bytes(b"abc", b"abd"));
    assert!(!same_bytes(b"abc", b"ab"));
    assert!(!same_bytes(b"", b"a"));
    assert!(!same_bytes(b"xbc", b"abc"));
}

#[test]
fn trim_drops_whitespace_at_both_ends() {
    assert_eq!(trim("  a b  "), "a b");
    assert_eq!(trim("a"), "a");
    assert_eq!(trim(""), "");
    assert_eq!(trim(" \t\r\n"), "");
    assert_eq!(trim("\u{a0}x\u{3000}"), "x");
    assert_eq!(trim("x \u{1f600} "), "x \u{1f600}");
    assert_eq!(trim("\nline one\nline two\n"), "line one\nline two");
    for s in ["", " ", "ab", " ab", "ab ", " a b ", "\u{2028}\u{e9}\u{2029}", "\u{200b} a"] {
        assert_eq!(trim(s), s.trim());
    }
}

#[test]
fn decimal_writes_numbers() {
    assert_eq!(decimal(0), "0");
    assert_eq!(decimal(7), "7");
    assert_eq!(decimal(10), "10");
    assert_eq!(decimal(2375), "2375");
    assert_eq!(decimal(40960), "40960");
    assert_eq!(decimal(65535), "65535");
    for n in [1u16, 9, 11, 99, 100, 101, 999, 1000, 1001, 9999, 10000, 65534] {
        assert_eq!(decimal(n), n.to_string());
    }
}

#[test]
fn parse_u16_reads_what_decimal_writes() {
    for n in [0u16, 1, 9, 10, 80, 443, 8080, 65535] {
        assert_eq!(parse_u16(&decimal(n)), Some(n));
    }
}

#[test]
fn parse_u16_accepts_digits_with_an_optional_plus() {
    assert_eq!(parse_u16("0"), Some(0));
    assert_eq!(parse_u16("8080"), Some(8080));
    assert_eq!(parse_u16("+80"), Some(80));
    assert_eq!(parse_u16("00080"), Some(80));
    assert_eq!(parse_u16("000000000000000000000001"), Some(1));
    assert_eq!(parse_u16("65535"), Some(65535));
}

#[test]
fn parse_u16_rejects_everything_else() {
    assert_eq!(parse_u16(""), None);
    assert_eq!(parse_u16("+"), None);
    assert_eq!(parse_u16("-1"), None);
    assert_eq!(parse_u16("-0"), None);
    assert_eq!(parse_u16("++1"), None);
    assert_eq!(parse_u16("1+"), None);
    assert_eq!(parse_u16(" 80"), None);
    assert_eq!(parse_u16("80 "), None);
    assert_eq!(parse_u16("8_0"), None);
    assert_eq!(parse_u16("80/tcp"), None);
    assert_eq!(parse_u16("0x50"), None);
    assert_eq!(parse_u16("65536"), None);
    assert_eq!(parse_u16("99999999999999999999"), None);
    assert_eq!(parse_u16("655350"), None);
    assert_eq!(parse_u16("\u{661}\u{662}"), None);
    assert_eq!(parse_u16("1\u{e9}"), None);
}

#[test]
fn parse_u16_agrees_with_the_standard_parser() {
    for s in
        ["", "+", "0", "+0", "007", "65535", "65536", "70000", "12a", "a12", "+12", "-12", " 1", "1.0"]
    {
        assert_eq!(parse_u16(s), s.parse::<u16>().ok());
    }
}

#[test]
fn slice_cuts_bytes_out_of_text() {
    assert_eq!(slice("0123456789abcdef", 0, 12), "0123456789ab");
    assert_eq!(slice("sha256:0123456789abcdef", 7, 19), "0123456789ab");
    assert_eq!(slice("abc", 0, 0), "");
    assert_eq!(slice("abc", 3, 3), "");
    assert_eq!(slice("abc", 0, 3), "abc");
    assert_eq!(slice("a\u{e9}b", 1, 3), "\u{e9}");
    assert_eq!(slice("a\u{e9}b", 3, 4), "b");
}

#[test]
fn can_slice_knows_the_ends_and_the_character_boundaries() {
    assert!(can_slice("0123456789ab", 0, 12));
    assert!(!can_slice("0123456789a", 0, 12));
    assert!(!can_slice("", 0, 12));
    assert!(can_slice("", 0, 0));
    assert!(!can_slice("abc", 2, 1));
    assert!(!can_slice("abc", 4, 4));
    assert!(can_slice("a\u{e9}b", 1, 3));
    assert!(!can_slice("a\u{e9}b", 0, 2));
    assert!(!can_slice("a\u{e9}b", 2, 4));
    assert!(can_slice("a\u{e9}b", 0, 4));
}

#[test]
fn strip_leading_slash_drops_one_slash() {
    assert_eq!(strip_leading_slash("/web"), "web");
    assert_eq!(strip_leading_slash("web"), "web");
    assert_eq!(strip_leading_slash("//web"), "/web");
    assert_eq!(strip_leading_slash("/"), "");
    assert_eq!(strip_leading_slash(""), "");
    assert_eq!(strip_leading_slash("we/b"), "we/b");
    assert_eq!(strip_leading_slash("/\u{e9}t\u{e9}"), "\u{e9}t\u{e9}");
}

#[test]
fn find_char_finds_the_first() {
    assert_eq!(find_char("80/tcp", '/'), 2);
    assert_eq!(find_char("/tcp", '/'), 0);
    assert_eq!(find_char("a/b/c", '/'), 1);
    assert_eq!(find_char("abc", '/'), 3);
    assert_eq!(find_char("", '/'), 0);
    assert_eq!(find_char("\u{e9}\u{e9}/", '/'), 2);
}

#[test]
fn split_first_splits_at_the_first_separator() {
    assert_eq!(split_first("80/tcp", '/'), ("80".to_string(), Some("tcp".to_string())));
    assert_eq!(split_first("80", '/'), ("80".to_string(), None));
    assert_eq!(split_first("80/", '/'), ("80".to_string(), Some(String::new())));
    assert_eq!(split_first("/tcp", '/'), (String::new(), Some("tcp".to_string())));
    assert_eq!(split_first("a/b/c", '/'), ("a".to_string(), Some("b/c".to_string())));
    assert_eq!(split_first("", '/'), (String::new(), None));
}

#[test]
fn same_text_compares_texts() {
    assert!(same_text("read", "read"));
    assert!(same_text("", ""));
    assert!(!same_text("read", "Read"));
    assert!(!same_text("read", "reads"));
    assert!(!same_text("", " "));
}
