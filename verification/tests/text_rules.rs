use andrate::text::char_count;
use andrate::text::decimal_text;
use andrate::text::is_space;
use andrate::text::parse_i32;
use andrate::text::text_eq;
use andrate::text::trim;

#[test]
fn whitespace_is_the_unicode_property() {
    let mut code: u32 = 0;
    while code <= 0x10ffff {
        if let Some(c) = char::from_u32(code) {
            assert_eq!(is_space(c), c.is_whitespace(), "U+{:04X}", code);
        }
        code += 1;
    }
}

#[test]
fn trim_removes_both_ends_only() {
    assert_eq!(trim("  alice  "), "alice");
    assert_eq!(trim("alice"), "alice");
    assert_eq!(trim("\t\n x y \u{3000}"), "x y");
    assert_eq!(trim("\u{a0}bob\u{2003}"), "bob");
    assert_eq!(trim(" a"), "a");
    assert_eq!(trim("a "), "a");
}

#[test]
fn trim_of_blank_text_is_empty() {
    assert_eq!(trim(""), "");
    assert_eq!(trim("   "), "");
    assert_eq!(trim("\u{2028}\u{2029}\r\n"), "");
}

#[test]
fn trim_keeps_what_is_no_whitespace() {
    assert_eq!(trim("\u{200b}x\u{200b}"), "\u{200b}x\u{200b}");
    assert_eq!(trim("\u{1f}x\u{1c}"), "\u{1f}x\u{1c}");
    assert_eq!(trim(" \u{9032}\u{6483} "), "\u{9032}\u{6483}");
}

#[test]
fn trim_agrees_with_std() {
    let samples = [
        "",
        " ",
        "a",
        "  a  b  ",
        "\u{85}name\u{1680}",
        "\u{feff}bom",
        "\u{202f}\u{205f}q\u{2000}\u{200a}",
        "x\u{b}\u{c}",
        "\u{e9}t\u{e9} ",
    ];
    for s in samples {
        assert_eq!(trim(s), s.trim(), "{:?}", s);
    }
}

#[test]
fn trim_is_idempotent_on_samples() {
    for s in ["  alice  ", " a b ", "", "\u{3000}x"] {
        assert_eq!(trim(trim(s)), trim(s));
    }
}

#[test]
fn char_count_counts_characters_not_bytes() {
    assert_eq!(char_count(""), 0);
    assert_eq!(char_count("abc"), 3);
    assert_eq!(char_count("\u{9032}\u{6483}"), 2);
    assert_eq!("\u{9032}\u{6483}".len(), 6);
}

#[test]
fn text_eq_compares_characters() {
    assert!(text_eq("", ""));
    assert!(text_eq("movie", "movie"));
    assert!(!text_eq("movie", "Movie"));
    assert!(!text_eq("movie", "movies"));
    assert!(!text_eq("movies", "movie"));
    assert!(text_eq("\u{9032}\u{6483}", "\u{9032}\u{6483}"));
    assert!(!text_eq("\u{9032}\u{6483}", "\u{9032}\u{6484}"));
}

#[test]
fn parse_i32_reads_plain_numbers() {
    assert_eq!(parse_i32("0"), Some(0));
    assert_eq!(parse_i32("16498"), Some(16498));
    assert_eq!(parse_i32("0007"), Some(7));
    assert_eq!(parse_i32("+42"), Some(42));
    assert_eq!(parse_i32("-42"), Some(-42));
    assert_eq!(parse_i32("-0"), Some(0));
}

#[test]
fn parse_i32_knows_the_range() {
    assert_eq!(parse_i32("2147483647"), Some(i32::MAX));
    assert_eq!(parse_i32("2147483648"), None);
    assert_eq!(parse_i32("-2147483648"), Some(i32::MIN));
    assert_eq!(parse_i32("-2147483649"), None);
    assert_eq!(parse_i32("+2147483647"), Some(i32::MAX));
    assert_eq!(parse_i32("99999999999999999999999999"), None);
    assert_eq!(parse_i32("000000000000000000000000002147483647"), Some(i32::MAX));
}

#[test]
fn parse_i32_rejects_what_is_no_number() {
    assert_eq!(parse_i32(""), None);
    assert_eq!(parse_i32("+"), None);
    assert_eq!(parse_i32("-"), None);
    assert_eq!(parse_i32("abc"), None);
    assert_eq!(parse_i32("12a"), None);
    assert_eq!(parse_i32(" 12"), None);
    assert_eq!(parse_i32("12 "), None);
    assert_eq!(parse_i32("1_000"), None);
    assert_eq!(parse_i32("--1"), None);
    assert_eq!(parse_i32("+-1"), None);
    assert_eq!(parse_i32("1.5"), None);
    assert_eq!(parse_i32("\u{661}\u{662}"), None);
}

#[test]
fn parse_i32_agrees_with_std() {
    let samples = [
        "", "+", "-", "0", "-0", "+0", "1", "-1", "12", "+12", "2147483647", "2147483648",
        "-2147483648", "-2147483649", "4294967296", "00", "0x10", "1e3", "١٢", " 1", "1 ", "+-1",
        "9999999999", "-9999999999",
    ];
    for s in samples {
        assert_eq!(parse_i32(s), s.parse::<i32>().ok(), "{:?}", s);
    }
}

#[test]
fn decimal_text_writes_digits() {
    assert_eq!(decimal_text(0), "0");
    assert_eq!(decimal_text(7), "7");
    assert_eq!(decimal_text(10), "10");
    assert_eq!(decimal_text(1999), "1999");
    assert_eq!(decimal_text(-1), "-1");
    assert_eq!(decimal_text(-120), "-120");
    assert_eq!(decimal_text(4294967295), "4294967295");
}

#[test]
fn decimal_text_reaches_both_ends() {
    assert_eq!(decimal_text(i64::MAX), "9223372036854775807");
    assert_eq!(decimal_text(i64::MIN), "-9223372036854775808");
}

#[test]
fn decimal_text_agrees_with_std() {
    let mut n: i64 = -1000;
    while n <= 1000 {
        assert_eq!(decimal_text(n), n.to_string());
        n += 1;
    }
    for n in [i64::MIN, i64::MIN + 1, -4294967296, 4294967296, i64::MAX - 1, i64::MAX] {
        assert_eq!(decimal_text(n), n.to_string());
    }
}
