use input_locale::numerals::locale_text;
use input_locale::numerals::parse_locale;

#[test]
fn parse_plain_numerals() {
    assert_eq!(parse_locale("0"), Some(0));
    assert_eq!(parse_locale("17"), Some(17));
    assert_eq!(parse_locale("1033"), Some(1033));
    assert_eq!(parse_locale("00001033"), Some(1033));
}

#[test]
fn parse_signed_numerals() {
    assert_eq!(parse_locale("+17"), Some(17));
    assert_eq!(parse_locale("-17"), Some(-17));
    assert_eq!(parse_locale("-0"), Some(0));
    assert_eq!(parse_locale("+0"), Some(0));
}

#[test]
fn parse_extreme_values() {
    assert_eq!(parse_locale("9223372036854775807"), Some(i64::MAX));
    assert_eq!(parse_locale("-9223372036854775808"), Some(i64::MIN));
    assert_eq!(parse_locale("9223372036854775808"), None);
    assert_eq!(parse_locale("-9223372036854775809"), None);
    assert_eq!(parse_locale("99999999999999999999999999"), None);
    assert_eq!(parse_locale("-99999999999999999999999999"), None);
}

#[test]
fn parse_rejects_malformed_text() {
    assert_eq!(parse_locale(""), None);
    assert_eq!(parse_locale("abc"), None);
    assert_eq!(parse_locale("+"), None);
    assert_eq!(parse_locale("-"), None);
    assert_eq!(parse_locale("12x"), None);
    assert_eq!(parse_locale(" 12"), None);
    assert_eq!(parse_locale("12 "), None);
    assert_eq!(parse_locale("1.5"), None);
    assert_eq!(parse_locale("--5"), None);
    assert_eq!(parse_locale("+-5"), None);
    assert_eq!(parse_locale("0x10"), None);
}

#[test]
fn locale_text_renders_decimal() {
    assert_eq!(locale_text(0), "0");
    assert_eq!(locale_text(7), "7");
    assert_eq!(locale_text(10), "10");
    assert_eq!(locale_text(1033), "1033");
    assert_eq!(locale_text(65535), "65535");
}

#[test]
fn locale_text_round_trips_through_parse() {
    for v in [0u64, 1, 9, 10, 1033, 2052, 65535] {
        assert_eq!(parse_locale(&locale_text(v)), Some(v as i64));
    }
}
