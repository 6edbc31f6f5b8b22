use krtld::numerals::parse_i32_text;
use krtld::numerals::parse_index_text;
use krtld::numerals::trim_str;

#[test]
fn parses_plain_signed_numbers() {
    assert_eq!(parse_i32_text("0"), Some(0));
    assert_eq!(parse_i32_text("123"), Some(123));
    assert_eq!(parse_i32_text("+123"), Some(123));
    assert_eq!(parse_i32_text("-123"), Some(-123));
    assert_eq!(parse_i32_text("000100"), Some(100));
}

#[test]
fn signed_parse_matches_std_at_the_i32_bounds() {
    assert_eq!(parse_i32_text("2147483647"), Some(i32::MAX));
    assert_eq!(parse_i32_text("2147483648"), None);
    assert_eq!(parse_i32_text("-2147483648"), Some(i32::MIN));
    assert_eq!(parse_i32_text("-2147483649"), None);
    assert_eq!(parse_i32_text("99999999999999999999"), None);
}

#[test]
fn signed_parse_rejects_what_std_rejects() {
    assert_eq!(parse_i32_text(""), None);
    assert_eq!(parse_i32_text("+"), None);
    assert_eq!(parse_i32_text("-"), None);
    assert_eq!(parse_i32_text("12a"), None);
    assert_eq!(parse_i32_text("a12"), None);
    assert_eq!(parse_i32_text(" 12"), None);
    assert_eq!(parse_i32_text("1 2"), None);
    assert_eq!(parse_i32_text("--1"), None);
    assert_eq!(parse_i32_text("+-1"), None);
}

#[test]
fn index_parse_trims_then_reads_an_unsigned_number() {
    assert_eq!(parse_index_text("0"), Some(0));
    assert_eq!(parse_index_text("17576"), Some(17576));
    assert_eq!(parse_index_text(" 42 "), Some(42));
    assert_eq!(parse_index_text("\t7\n"), Some(7));
    assert_eq!(parse_index_text("+7"), Some(7));
}

#[test]
fn index_parse_rejects_bad_text() {
    assert_eq!(parse_index_text(""), None);
    assert_eq!(parse_index_text("   "), None);
    assert_eq!(parse_index_text("-1"), None);
    assert_eq!(parse_index_text("abc"), None);
    assert_eq!(parse_index_text("1 2"), None);
    assert_eq!(parse_index_text("99999999999999999999999"), None);
}

#[test]
fn trim_matches_std_trim() {
    for s in ["", "   ", "x", "  x", "x  ", "  a b  ", "\t\nmixed \u{a0} ws\u{3000}"] {
        assert_eq!(trim_str(s), s.trim(), "trim differs on {:?}", s);
    }
}
