use desec_api::text::{concat3, decimal_string, is_header_value, parse_decimal, visible_text};

#[test]
fn numerals_are_read_as_the_standard_parser_reads_them() {
    for text in [
        "0",
        "7",
        "42",
        "+42",
        "0042",
        "18446744073709551615",
        "18446744073709551616",
        "99999999999999999999999",
        "000000000000000000000000000001",
        "",
        "+",
        "-",
        "-0",
        "++1",
        "+-1",
        "1+",
        "1_000",
        "12a",
        "a12",
        " 12",
        "12 ",
        "1.0",
        "0x10",
    ] {
        assert_eq!(parse_decimal(text.as_bytes()), text.parse::<u64>().ok(), "{:?}", text);
    }
}

#[test]
fn numerals_have_their_value() {
    assert_eq!(parse_decimal(b"0"), Some(0));
    assert_eq!(parse_decimal(b"3600"), Some(3600));
    assert_eq!(parse_decimal(b"+3600"), Some(3600));
    assert_eq!(parse_decimal(b"18446744073709551615"), Some(u64::MAX));
    assert_eq!(parse_decimal(b"18446744073709551616"), None);
    assert_eq!(parse_decimal(b""), None);
    assert_eq!(parse_decimal(&[0xff]), None);
}

#[test]
fn numbers_are_written_without_leading_zeros() {
    assert_eq!(decimal_string(0), "0");
    assert_eq!(decimal_string(9), "9");
    assert_eq!(decimal_string(10), "10");
    assert_eq!(decimal_string(3600), "3600");
    assert_eq!(decimal_string(u64::MAX), "18446744073709551615");
    for n in [1u64, 99, 100, 101, 1_000_000, 9_007_199_254_740_993] {
        assert_eq!(decimal_string(n), n.to_string());
    }
}

#[test]
fn writing_then_reading_gives_the_number_back() {
    for n in [0u64, 1, 10, 60, 61, 4_294_967_296, u64::MAX] {
        assert_eq!(parse_decimal(decimal_string(n).as_bytes()), Some(n));
    }
}

#[test]
fn a_header_is_text_when_it_is_visible_ascii_or_tabs() {
    assert_eq!(visible_text(b"120"), Some(String::from("120")));
    assert_eq!(visible_text(b""), Some(String::new()));
    assert_eq!(visible_text(b"a\tb ~"), Some(String::from("a\tb ~")));
    assert_eq!(visible_text(&[0x1f]), None);
    assert_eq!(visible_text(&[0x7f]), None);
    assert_eq!(visible_text(&[0x80]), None);
    assert_eq!(visible_text(b"12\n"), None);
    assert_eq!(visible_text("é".as_bytes()), None);
}

#[test]
fn header_text_is_read_as_the_http_library_reads_it() {
    for byte in 0u8..=255 {
        let bytes = [b'1', byte, b'2'];
        let header = reqwest::header::HeaderValue::from_bytes(&bytes);
        let expected = header.ok().and_then(|h| h.to_str().ok().map(String::from));
        assert_eq!(visible_text(&bytes), expected, "byte {}", byte);
    }
}

#[test]
fn a_token_is_fit_for_a_header_as_the_http_library_judges() {
    for text in [
        "i-T3b1h_OI-H9ab8tRS98stGtURe",
        "",
        "with space",
        "tab\there",
        "line\nbreak",
        "carriage\rreturn",
        "nul\0",
        "delete\u{7f}",
        "bell\u{7}",
        "umlaut ü",
        "emoji 🦀",
        "~!@#$%^&*()",
    ] {
        assert_eq!(
            is_header_value(text),
            reqwest::header::HeaderValue::from_str(text).is_ok(),
            "{:?}",
            text
        );
    }
}

#[test]
fn three_texts_are_joined_in_order() {
    assert_eq!(concat3("/domains/", "example.com", "/"), "/domains/example.com/");
    assert_eq!(concat3("", "", ""), "");
}
