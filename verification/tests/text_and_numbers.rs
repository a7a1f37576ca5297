use forkt_lighthouse::config::{FromText, ValueError};
use forkt_lighthouse::decimal::{parse_unsigned, unsigned_text, IntegerError};
use forkt_lighthouse::ipv4::{parse_ipv4, Ipv4Address};
use forkt_lighthouse::text::{blank, characters, same_text, white_space};

#[test]
fn white_space_is_that_of_unicode() {
    for c in '\u{0}'..=char::MAX {
        assert_eq!(white_space(c), c.is_whitespace(), "{:?}", c);
    }
}

#[test]
fn texts_are_compared_character_by_character() {
    assert!(same_text("", ""));
    assert!(same_text("h\u{e9}llo", "h\u{e9}llo"));
    assert!(!same_text("hello", "hell"));
    assert!(!same_text("hello", "hallo"));
    assert_eq!(characters("a\u{1F600}b"), vec!['a', '\u{1F600}', 'b']);
}

#[test]
fn blank_texts() {
    assert!(blank(""));
    assert!(blank(" \t\r\n\u{3000}"));
    assert!(!blank("  x "));
    assert!(!blank("\u{200b}"));
}

#[test]
fn integers_are_read_as_std_reads_them() {
    let texts = [
        "", "+", "-", "0", "+0", "-0", "00", "007", "+7", "++7", "7+", " 7", "7 ", "1_000", "0x10",
        "65535", "65536", "18446744073709551615", "18446744073709551616", "18446744073709551616x",
        "1844674407370955161x", "99999999999999999999999", "\u{661}", "12\u{e9}", "1.0", "1e3",
        "+18446744073709551615", "000000000000000000000000000000001",
    ];
    for text in texts {
        match (parse_unsigned(text, u64::MAX), text.parse::<u64>()) {
            (Ok(a), Ok(b)) => assert_eq!(a, b, "{:?}", text),
            (Err(a), Err(b)) => assert_eq!(a.message(), b.to_string(), "{:?}", text),
            (a, b) => panic!("{:?}: {:?} {:?}", text, a, b),
        }
        match (u16::from_text(text), text.parse::<u16>()) {
            (Ok(a), Ok(b)) => assert_eq!(a, b, "{:?}", text),
            (Err(a), Err(b)) => assert_eq!(a.message(), b.to_string(), "{:?}", text),
            (a, b) => panic!("{:?}: {:?} {:?}", text, a, b),
        }
        match (usize::from_text(text), text.parse::<usize>()) {
            (Ok(a), Ok(b)) => assert_eq!(a, b, "{:?}", text),
            (Err(a), Err(b)) => assert_eq!(a.message(), b.to_string(), "{:?}", text),
            (a, b) => panic!("{:?}: {:?} {:?}", text, a, b),
        }
        match (bool::from_text(text), text.parse::<bool>()) {
            (Ok(a), Ok(b)) => assert_eq!(a, b, "{:?}", text),
            (Err(a), Err(b)) => assert_eq!(a.message(), b.to_string(), "{:?}", text),
            (a, b) => panic!("{:?}: {:?} {:?}", text, a, b),
        }
    }
}

#[test]
fn each_integer_error() {
    assert_eq!(parse_unsigned("", 10), Err(IntegerError::Empty));
    assert_eq!(parse_unsigned("1a", 10), Err(IntegerError::InvalidDigit));
    assert_eq!(parse_unsigned("11", 10), Err(IntegerError::Overflow));
    assert_eq!(parse_unsigned("11a", 10), Err(IntegerError::Overflow));
    assert_eq!(parse_unsigned("10", 10), Ok(10));
}

#[test]
fn decimal_text_and_back() {
    for n in [0, 1, 9, 10, 99, 100, 101, 65535, u64::MAX - 1, u64::MAX] {
        assert_eq!(unsigned_text(n), n.to_string());
        assert_eq!(parse_unsigned(&unsigned_text(n), u64::MAX), Ok(n));
    }
}

#[test]
fn booleans() {
    assert_eq!(bool::from_text("true"), Ok(true));
    assert_eq!(bool::from_text("false"), Ok(false));
    assert_eq!(bool::from_text("True"), Err(ValueError::Boolean));
    assert_eq!(bool::from_text("1"), Err(ValueError::Boolean));
}

#[test]
fn ipv4_addresses() {
    assert_eq!(parse_ipv4("0.0.0.0"), Some(Ipv4Address { a: 0, b: 0, c: 0, d: 0 }));
    assert_eq!(parse_ipv4("255.255.255.255"), Some(Ipv4Address { a: 255, b: 255, c: 255, d: 255 }));
    assert_eq!(parse_ipv4("192.168.1.20"), Some(Ipv4Address { a: 192, b: 168, c: 1, d: 20 }));
}

#[test]
fn texts_that_are_no_ipv4_address() {
    let texts = [
        "", "1", "1.2.3", "1.2.3.4.5", "1.2.3.", ".1.2.3", "1..2.3", "256.0.0.1", "1.2.3.999",
        "01.2.3.4", "1.2.3.00", "1.2.3.4 ", " 1.2.3.4", "1.2.3.+4", "0x7f.0.0.1", "1.2.3.0004",
        "a.b.c.d", "::1",
    ];
    for text in texts {
        assert_eq!(parse_ipv4(text), None, "{:?}", text);
        assert_eq!(Ipv4Address::from_text(text), Err(ValueError::Address));
    }
    assert_eq!(ValueError::Address.message(), "invalid IPv4 address syntax");
}

#[test]
fn leading_zeros_and_a_plus_sign_do_not_count() {
    for text in ["0", "7", "65535", "65536", "18446744073709551616", "12x", "x", "+"] {
        let read = parse_unsigned(text, 65535);
        assert_eq!(parse_unsigned(&format!("0{}", text), 65535), read, "{:?}", text);
        assert_eq!(parse_unsigned(&format!("{}{}", "0".repeat(40), text), 65535), read);
        assert_eq!(parse_unsigned(&format!("+{}", text), 65535), read, "{:?}", text);
    }
    assert_eq!(parse_unsigned("0000000000000000000000065535", 65535), Ok(65535));
    assert_eq!(parse_unsigned("+7", 65535), Ok(7));
    assert_eq!(parse_unsigned("0+7", 65535), Err(IntegerError::InvalidDigit));
}
