use tospeak::text::{bytes_equal, i32_to_decimal, parse_u64, str_eq_ignore_ascii_case, str_equal};

#[test]
fn compares_strings() {
    assert!(str_equal("voice", "voice"));
    assert!(!str_equal("voice", "Voice"));
    assert!(!str_equal("ab", "abc"));
    assert!(bytes_equal(b"", b""));
    assert!(!bytes_equal(b"a", b"b"));
}

#[test]
fn compares_ignoring_ascii_case_only() {
    assert!(str_eq_ignore_ascii_case("ja-JP", "JA-jp"));
    assert!(!str_eq_ignore_ascii_case("ja-JP", "ja-JPX"));
    assert!(!str_eq_ignore_ascii_case("É", "é"));
    assert!(str_eq_ignore_ascii_case("é", "é"));
    assert!(!str_eq_ignore_ascii_case("[", "{"));
}

#[test]
fn formats_decimal_integers() {
    for n in [0, 7, -7, 10, -10, 100, 2147483647, -2147483648, 1234567890] {
        assert_eq!(i32_to_decimal(n), n.to_string());
    }
}

#[test]
fn parses_unsigned_decimal_numbers_as_std_does() {
    for text in ["0", "8", "+8", "007", "18446744073709551615", "", "+", "-0", "-1", "1_000", " 1", "1 ", "18446744073709551616", "99999999999999999999", "++1"] {
        assert_eq!(parse_u64(text), text.parse::<u64>().ok(), "{text:?}");
    }
}

#[test]
fn writes_lower_case_hex() {
    assert_eq!(tospeak::text::to_lower_hex(&[]), "");
    assert_eq!(tospeak::text::to_lower_hex(&[0x00, 0x0f, 0xa5, 0xff, 0x10]), "000fa5ff10");
    let all: Vec<u8> = (0..=255).collect();
    assert_eq!(tospeak::text::to_lower_hex(&all), hex::encode(&all));
}
