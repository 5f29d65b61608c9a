use chatbot::numeric::{parse_i64, parse_u64, parse_usize, IntErrorKind};
use chatbot::text::{trim_str, uuid_string};

#[test]
fn usize_parsing_follows_from_str() {
    assert_eq!(parse_usize("42"), Ok(42));
    assert_eq!(parse_usize("+7"), Ok(7));
    assert_eq!(parse_usize(""), Err(IntErrorKind::Empty));
    assert_eq!(parse_usize("-1"), Err(IntErrorKind::InvalidDigit));
    assert_eq!(parse_usize("+"), Err(IntErrorKind::InvalidDigit));
    assert_eq!(parse_usize("1 2"), Err(IntErrorKind::InvalidDigit));
    assert_eq!(parse_usize("99999999999999999999"), Err(IntErrorKind::PosOverflow));
    for s in ["0", "18446744073709551615", "12x", "x"] {
        assert_eq!(parse_usize(s).ok(), s.parse::<usize>().ok(), "{s}");
    }
}

#[test]
fn i64_parsing_follows_from_str() {
    assert_eq!(parse_i64("-9223372036854775808"), Ok(i64::MIN));
    assert_eq!(parse_i64("9223372036854775807"), Ok(i64::MAX));
    assert_eq!(parse_i64("9223372036854775808"), Err(IntErrorKind::PosOverflow));
    assert_eq!(parse_i64("-9223372036854775809"), Err(IntErrorKind::NegOverflow));
    assert_eq!(parse_i64("-"), Err(IntErrorKind::InvalidDigit));
    assert_eq!(parse_i64("-0"), Ok(0));
    assert_eq!(parse_u64("123"), Ok(123));
}

#[test]
fn error_messages_match_std() {
    assert_eq!(IntErrorKind::Empty.message(), "".parse::<u8>().unwrap_err().to_string());
    assert_eq!(IntErrorKind::InvalidDigit.message(), "x".parse::<u8>().unwrap_err().to_string());
    assert_eq!(IntErrorKind::PosOverflow.message(), "300".parse::<u8>().unwrap_err().to_string());
    assert_eq!(IntErrorKind::NegOverflow.message(), "-300".parse::<i8>().unwrap_err().to_string());
}

#[test]
fn trimming_matches_str_trim() {
    for s in ["  a b  ", "\u{3000}x\u{85}", "", "   ", "\tq\n"] {
        assert_eq!(trim_str(s), s.trim());
    }
}

#[test]
fn uuid_text_matches_uuid_display() {
    let n: u128 = 0x0123_4567_89ab_cdef_fedc_ba98_7654_3210;
    assert_eq!(uuid_string(n), uuid::Uuid::from_u128(n).to_string());
    assert_eq!(uuid_string(0), "00000000-0000-0000-0000-000000000000");
}
