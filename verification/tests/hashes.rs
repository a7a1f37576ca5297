use std::str::FromStr;

use alloy_primitives::B256;
use forkt_lighthouse::hash::{Hash256, HashError};

const MAINNET: &str = "0x4b363db94e286120d76eb905340fdd4e54bfe9f06bf33ff6cf5ad27f511bfe95";

fn sample() -> Hash256 {
    let mut bytes = [0u8; 32];
    for i in 0..32 {
        bytes[i] = (i * 37 + 11) as u8;
    }
    Hash256 { bytes }
}

#[test]
fn a_known_root() {
    let hash = Hash256::parse(MAINNET).unwrap();
    assert_eq!(hash.bytes[0], 0x4b);
    assert_eq!(hash.bytes[1], 0x36);
    assert_eq!(hash.bytes[31], 0x95);
    assert_eq!(hash.to_text(), MAINNET);
}

#[test]
fn text_and_back() {
    let hash = sample();
    assert_eq!(Hash256::parse(&hash.to_text()), Ok(hash));
    assert_eq!(hash.to_text(), B256::from(hash.bytes).to_string());
}

#[test]
fn hashes_are_compared_byte_by_byte() {
    let hash = sample();
    let mut other = sample();
    assert!(hash.same(&other));
    other.bytes[31] = other.bytes[31].wrapping_add(1);
    assert!(!hash.same(&other));
}

#[test]
fn each_hash_error() {
    assert_eq!(Hash256::parse("0x0"), Err(HashError::OddLength));
    assert_eq!(Hash256::parse(""), Err(HashError::InvalidLength));
    assert_eq!(Hash256::parse("0x00"), Err(HashError::InvalidLength));
    assert_eq!(
        Hash256::parse(&MAINNET.replace('d', "g")),
        Err(HashError::InvalidCharacter { byte: b'g', index: 5 })
    );
    assert_eq!(HashError::OddLength.message(), "odd number of digits");
    assert_eq!(HashError::InvalidLength.message(), "invalid string length");
    assert_eq!(
        HashError::InvalidCharacter { byte: b'\n', index: 12 }.message(),
        "invalid character '\\n' at position 12"
    );
}

#[test]
fn hashes_are_read_as_fixed_bytes_are() {
    let digits = &MAINNET[2..];
    let texts = [
        MAINNET.to_owned(),
        digits.to_owned(),
        MAINNET.to_uppercase(),
        digits.to_uppercase(),
        format!("0x{}", digits.to_uppercase()),
        format!("0x0x{}", &digits[4..]),
        format!("0x0x{}", digits),
        format!("0x{}0", digits),
        format!("0x{}", &digits[..63]),
        format!("0x{}", &digits[..62]),
        format!(" {}", &MAINNET[1..]),
        format!("{} ", &MAINNET[..65]),
        format!("0x{}'", &digits[..63]),
        format!("0x{}\u{e9}", &digits[..62]),
        format!("0xzz{}", &digits[2..]),
        format!("0x{}zz", &digits[..62]),
        format!("0y{}", digits),
        String::new(),
        "0x".to_owned(),
        "0X".to_owned(),
        "0".to_owned(),
        "x0".to_owned(),
    ];
    for text in texts {
        match (Hash256::parse(&text), B256::from_str(&text)) {
            (Ok(a), Ok(b)) => assert_eq!(a.bytes, b.0, "{:?}", text),
            (Err(a), Err(b)) => assert_eq!(a.message(), b.to_string(), "{:?}", text),
            (a, b) => panic!("{:?}: {:?} {:?}", text, a, b),
        }
    }
}

#[test]
fn every_byte_is_quoted_as_debug_does() {
    for byte in 0..=255u8 {
        assert_eq!(
            HashError::InvalidCharacter { byte, index: 7 }.message(),
            format!("invalid character {:?} at position 7", byte as char)
        );
    }
}

#[test]
fn digits_of_either_case() {
    let digits = &MAINNET[2..];
    let hash = Hash256::parse(MAINNET);
    assert!(hash.is_ok());
    assert_eq!(Hash256::parse(&format!("0x{}", digits.to_uppercase())), hash);
    assert_eq!(Hash256::parse(&digits.to_uppercase()), hash);
    assert_eq!(Hash256::parse(&format!("0X{}", digits)), hash);
    let mixed = format!("{}{}", &digits[..31], digits[31..].to_uppercase());
    assert_eq!(Hash256::parse(&mixed), hash);
}

#[test]
fn only_hexadecimal_digits_are_read() {
    let digits = &MAINNET[2..];
    for byte in 0..128u8 {
        let text = format!("{}{}{}", &digits[..20], byte as char, &digits[21..]);
        assert_eq!(Hash256::parse(&text).is_ok(), byte.is_ascii_hexdigit(), "{:?}", byte as char);
    }
}
