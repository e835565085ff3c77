use cycle_helper::text::{
    chars_of, concatenate, decimal_string, parse_u32, parse_unsigned, parse_usize, same_text, trim,
    IntErrorKind,
};

#[test]
fn parse_u32_reads_plain_and_signed_digits() {
    assert_eq!(parse_u32("0"), Ok(0));
    assert_eq!(parse_u32("4294967295"), Ok(4294967295));
    assert_eq!(parse_u32("+17"), Ok(17));
    assert_eq!(parse_u32("007"), Ok(7));
}

#[test]
fn parse_u32_errors_follow_std() {
    assert_eq!(parse_u32(""), Err(IntErrorKind::Empty));
    assert_eq!(parse_u32("+"), Err(IntErrorKind::InvalidDigit));
    assert_eq!(parse_u32("-1"), Err(IntErrorKind::InvalidDigit));
    assert_eq!(parse_u32(" 1"), Err(IntErrorKind::InvalidDigit));
    assert_eq!(parse_u32("4294967296"), Err(IntErrorKind::PosOverflow));
    assert_eq!(parse_u32("99999999999x"), Err(IntErrorKind::PosOverflow));
    assert_eq!(parse_u32("1x99999999999"), Err(IntErrorKind::InvalidDigit));
    for s in ["", "+", "-1", " 1", "4294967296", "12a", "٣"] {
        assert_eq!(parse_u32(s).is_ok(), s.parse::<u32>().is_ok(), "{}", s);
    }
}

#[test]
fn parse_unsigned_respects_the_bound() {
    assert_eq!(parse_unsigned("255", 255), Ok(255));
    assert_eq!(parse_unsigned("256", 255), Err(IntErrorKind::PosOverflow));
    assert_eq!(parse_usize("18"), Ok(18));
}

#[test]
fn error_messages_are_the_std_ones() {
    assert_eq!(IntErrorKind::Empty.message(), "".parse::<u32>().unwrap_err().to_string());
    assert_eq!(IntErrorKind::InvalidDigit.message(), "x".parse::<u32>().unwrap_err().to_string());
    assert_eq!(
        IntErrorKind::PosOverflow.message(),
        "99999999999".parse::<u32>().unwrap_err().to_string()
    );
}

#[test]
fn decimal_round_trip() {
    for n in [0u64, 7, 10, 99, 100, 12345, u32::MAX as u64] {
        let s = decimal_string(n);
        assert_eq!(s, n.to_string());
        assert_eq!(parse_unsigned(&s, u64::MAX), Ok(n));
    }
}

#[test]
fn trim_removes_unicode_white_space() {
    assert_eq!(trim("  上位机 \t"), "上位机");
    assert_eq!(trim("\u{3000}测试通道\u{a0}"), "测试通道");
    assert_eq!(trim("   "), "");
    assert_eq!(trim("a b"), "a b");
    for s in [" x ", "\u{2028}y\u{205f}", "z"] {
        assert_eq!(trim(s), s.trim());
    }
}

#[test]
fn text_helpers() {
    assert_eq!(chars_of("电芯"), vec!['电', '芯']);
    assert!(same_text("长期", "长期"));
    assert!(!same_text("长期", "长"));
    assert_eq!(concatenate("a", "b"), "ab");
}
