use airnomads::text::{decimal_string, parse_status, utf8_or_empty};

#[test]
fn numbers_are_written_in_decimal() {
    assert_eq!(decimal_string(0), "0");
    assert_eq!(decimal_string(7), "7");
    assert_eq!(decimal_string(10), "10");
    assert_eq!(decimal_string(404), "404");
    assert_eq!(decimal_string(65535), "65535");
    assert_eq!(decimal_string(u64::MAX), "18446744073709551615");
}

#[test]
fn status_codes_are_read() {
    assert_eq!(parse_status("200"), 200);
    assert_eq!(parse_status("0"), 0);
    assert_eq!(parse_status("+404"), 404);
    assert_eq!(parse_status("00503"), 503);
    assert_eq!(parse_status("65535"), 65535);
}

#[test]
fn what_is_no_status_code_reads_as_zero() {
    for text in ["", "+", "-1", "++1", "2 00", " 200", "200 ", "65536", "99999999999999999999", "2x0"] {
        assert_eq!(parse_status(text), 0, "{text:?}");
    }
    assert_eq!(parse_status("\u{0662}00"), 0);
}

#[test]
fn status_codes_agree_with_the_standard_parser() {
    for text in ["0", "1", "+1", "007", "65535", "65536", "", "+", "-0", "1_0", "a"] {
        assert_eq!(parse_status(text), text.parse::<u16>().unwrap_or(0), "{text:?}");
    }
}

#[test]
fn every_status_code_survives_writing_and_reading() {
    for code in 0..=u16::MAX {
        assert_eq!(parse_status(&decimal_string(code as u64)), code);
    }
}

#[test]
fn bytes_that_are_no_utf8_read_as_nothing() {
    assert_eq!(utf8_or_empty(b"caf\xc3\xa9"), "caf\u{e9}");
    assert_eq!(utf8_or_empty(b""), "");
    assert_eq!(utf8_or_empty(b"caf\xc3"), "");
    assert_eq!(utf8_or_empty(&[0xff]), "");
}
