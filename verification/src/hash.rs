//! 32-byte roots and hashes, and their hexadecimal text.

use crate::decimal::{decimal_text, unsigned_text};
use crate::text::{digit_char, digit_text};
use vstd::prelude::*;
use vstd::utf8::{encode_utf8, is_ascii_chars_encode_utf8};

verus! {

/// A 32-byte root or hash.
#[derive(Clone, Copy, Debug, PartialEq, Eq)]
pub struct Hash256 {
    pub bytes: [u8; 32],
}

impl View for Hash256 {
    type V = Seq<u8>;

    open spec fn view(&self) -> Seq<u8> {
        self.bytes@
    }
}

/// Why a text is not a 32-byte hash.
#[derive(Clone, Copy, Debug, PartialEq, Eq, Structural)]
pub enum HashError {
    /// The text has an odd number of bytes.
    OddLength,
    /// There are not 64 digits.
    InvalidLength,
    /// The byte at `index`, counted from the first digit, is no hexadecimal digit.
    InvalidCharacter { byte: u8, index: usize },
}

/// The number that the byte of a hexadecimal digit stands for.
pub open spec fn hex_value(byte: u8) -> Option<u8> {
    if 0x30 <= byte <= 0x39 {
        Some((byte - 0x30) as u8)
    } else if 0x41 <= byte <= 0x46 {
        Some((byte - 0x41 + 10) as u8)
    } else if 0x61 <= byte <= 0x66 {
        Some((byte - 0x61 + 10) as u8)
    } else {
        None
    }
}

/// `bytes` without the `0x` or `0X` that may stand before the digits.
pub open spec fn without_prefix(bytes: Seq<u8>) -> Seq<u8> {
    if bytes.len() >= 2 && bytes[0] == 0x30 && (bytes[1] == 0x78 || bytes[1] == 0x58) {
        bytes.skip(2)
    } else {
        bytes
    }
}

/// How many hexadecimal digits `bytes` starts with.
pub open spec fn leading_hex(bytes: Seq<u8>) -> nat
    decreases bytes.len(),
{
    if bytes.len() > 0 && hex_value(bytes[0]) is Some {
        1 + leading_hex(bytes.drop_first())
    } else {
        0
    }
}

/// The bytes that hexadecimal digits stand for, two digits each.
pub open spec fn hex_decoded(digits: Seq<u8>) -> Seq<u8> {
    Seq::new(
        digits.len() / 2,
        |i: int| (16 * hex_value(digits[2 * i])->0 + hex_value(digits[2 * i + 1])->0) as u8,
    )
}

/// The hash that a text, given by its UTF-8 bytes, stands for.
pub open spec fn parsed_hash(bytes: Seq<u8>) -> Result<Seq<u8>, HashError> {
    let digits = without_prefix(bytes);
    if bytes.len() % 2 != 0 {
        Err(HashError::OddLength)
    } else if digits.len() != 64 {
        Err(HashError::InvalidLength)
    } else if leading_hex(digits) < 64 {
        Err(
            HashError::InvalidCharacter {
                byte: digits[leading_hex(digits) as int],
                index: leading_hex(digits) as usize,
            },
        )
    } else {
        Ok(hex_decoded(digits))
    }
}

/// The text of a hash: `0x`, then two lower-case digits for each byte.
pub open spec fn hash_text(bytes: Seq<u8>) -> Seq<char> {
    seq!['0', 'x'] + Seq::new(
        2 * bytes.len(),
        |i: int|
            if i % 2 == 0 {
                digit_char(bytes[i / 2] as int / 16)
            } else {
                digit_char(bytes[i / 2] as int % 16)
            },
    )
}

/// The number that the byte of a hexadecimal digit stands for.
fn hex_digit_value(byte: u8) -> (result: Option<u8>)
    ensures
        result == hex_value(byte),
{
    if 0x30 <= byte && byte <= 0x39 {
        Some(byte - 0x30)
    } else if 0x41 <= byte && byte <= 0x46 {
        Some(byte - 0x41 + 10)
    } else if 0x61 <= byte && byte <= 0x66 {
        Some(byte - 0x61 + 10)
    } else {
        None
    }
}

/// Bytes that start with `n` digits, and then with a byte that is none or with nothing,
/// start with exactly `n` digits.
proof fn leading_hex_is(bytes: Seq<u8>, n: int)
    requires
        0 <= n <= bytes.len(),
        forall|i: int| 0 <= i < n ==> hex_value(#[trigger] bytes[i]) is Some,
        n < bytes.len() ==> hex_value(bytes[n]) is None,
    ensures
        leading_hex(bytes) == n,
    decreases n,
{
    if n > 0 {
        assert(hex_value(bytes[0]) is Some);
        let rest = bytes.drop_first();
        assert forall|i: int| 0 <= i < n - 1 implies hex_value(#[trigger] rest[i]) is Some by {
            assert(rest[i] == bytes[i + 1]);
        }
        leading_hex_is(rest, n - 1);
    }
}

impl Hash256 {
    /// Reads a hash from its hexadecimal text.
    pub fn parse(text: &str) -> (result: Result<Hash256, HashError>)
        ensures
            match result {
                Ok(hash) => parsed_hash(encode_utf8(text@)) == Ok::<Seq<u8>, HashError>(hash@),
                Err(e) => parsed_hash(encode_utf8(text@)) == Err::<Seq<u8>, HashError>(e),
            },
    {
        let bytes: &[u8] = text.as_bytes();
        let length: usize = bytes.len();
        if length % 2 != 0 {
            return Err(HashError::OddLength);
        }
        let skipped: usize = if length >= 2 && bytes[0] == 0x30 && (bytes[1] == 0x78 || bytes[1]
            == 0x58) {
            2
        } else {
            0
        };
        let ghost digits = without_prefix(bytes@);
        assert(digits == bytes@.skip(skipped as int));
        if length - skipped != 64 {
            return Err(HashError::InvalidLength);
        }
        let mut hash: [u8; 32] = [0;32];
        for i in 0..32
            invariant
                bytes@.len() == 64 + skipped,
                skipped <= 2,
                digits == bytes@.skip(skipped as int),
                digits == without_prefix(bytes@),
                bytes@ == encode_utf8(text@),
                bytes@.len() % 2 == 0,
                forall|j: int| 0 <= j < 2 * i ==> hex_value(#[trigger] digits[j]) is Some,
                forall|j: int| 0 <= j < i ==> #[trigger] hash@[j] == hex_decoded(digits)[j],
        {
            let high: u8 = bytes[skipped + 2 * i];
            let low: u8 = bytes[skipped + 2 * i + 1];
            assert(digits[2 * i] == high);
            assert(digits[2 * i + 1] == low);
            match (hex_digit_value(high), hex_digit_value(low)) {
                (Some(h), Some(l)) => {
                    hash[i] = 16 * h + l;
                },
                (None, _) => {
                    proof {
                        leading_hex_is(digits, 2 * i);
                    }
                    return Err(HashError::InvalidCharacter { byte: high, index: 2 * i });
                },
                (_, None) => {
                    proof {
                        leading_hex_is(digits, 2 * i + 1);
                    }
                    return Err(HashError::InvalidCharacter { byte: low, index: 2 * i + 1 });
                },
            }
        }
        proof {
            leading_hex_is(digits, 64);
        }
        assert(hash@ == hex_decoded(digits));
        Ok(Hash256 { bytes: hash })
    }

    /// The hexadecimal text of the hash.
    pub fn to_text(&self) -> (result: String)
        ensures
            result@ == hash_text(self@),
    {
        let mut result: String = "0x".to_owned();
        proof {
            reveal_strlit("0x");
        }
        assert(result@ == hash_text(self@).take(2));
        for i in 0..32
            invariant
                result@ == hash_text(self@).take(2 + 2 * i),
        {
            let byte: u8 = self.bytes[i];
            let ghost text = hash_text(self@);
            result.append(digit_text(byte / 16));
            assert(text[2 + 2 * i] == digit_char(byte as int / 16));
            assert(text.take(2 + 2 * i + 1) == text.take(2 + 2 * i).push(text[2 + 2 * i]));
            assert(result@ == text.take(2 + 2 * i + 1));
            result.append(digit_text(byte % 16));
            assert((2 * i + 1) / 2 == i);
            assert((2 * i + 1) % 2 == 1);
            assert(text[2 + 2 * i + 1] == digit_char(byte as int % 16));
            assert(text.take(2 + 2 * i + 2) == text.take(2 + 2 * i + 1).push(text[2 + 2 * i + 1]));
        }
        assert(hash_text(self@).take(66) == hash_text(self@));
        result
    }

    /// Whether two hashes are the same.
    pub fn same(&self, other: &Hash256) -> (result: bool)
        ensures
            result == (self@ == other@),
    {
        for i in 0..32
            invariant
                forall|j: int| 0 <= j < i ==> self@[j] == other@[j],
        {
            if self.bytes[i] != other.bytes[i] {
                return false;
            }
        }
        assert(self@ == other@);
        true
    }
}

/// Whether the character with this code is shown as it is, and not by its code.
pub open spec fn is_printable(byte: u8) -> bool {
    0x20 <= byte <= 0x7e || 0xa1 <= byte && byte != 0xad
}

/// How a character is shown: by a backslash and a letter or the character itself, as it is, or
/// by its code.
pub open spec fn escaped(byte: u8) -> Seq<char> {
    if byte == 0 {
        seq!['\\', '0']
    } else if byte == 0x09 {
        seq!['\\', 't']
    } else if byte == 0x0a {
        seq!['\\', 'n']
    } else if byte == 0x0d {
        seq!['\\', 'r']
    } else if byte == 0x27 || byte == 0x5c {
        seq!['\\', byte as char]
    } else if is_printable(byte) {
        seq![byte as char]
    } else if byte < 0x10 {
        seq!['\\', 'u', '{', digit_char(byte as int), '}']
    } else {
        seq!['\\', 'u', '{', digit_char(byte as int / 16), digit_char(byte as int % 16), '}']
    }
}

/// A character in single quotes.
pub open spec fn quoted(byte: u8) -> Seq<char> {
    seq!['\''] + escaped(byte) + seq!['\'']
}

/// A printable character, as text.
fn printable_text(byte: u8) -> (result: &'static str)
    requires
        is_printable(byte),
    ensures
        result@ == seq![byte as char],
{
    let ascii: &'static str =
        " !\"#$%&'()*+,-./0123456789:;<=>?@ABCDEFGHIJKLMNOPQRSTUVWXYZ[\\]^_`abcdefghijklmnopqrstuvwxyz{|}~";
    let latin: &'static str =
        "¡¢£¤¥¦§¨©ª«¬\u{ad}®¯°±²³´µ¶·¸¹º»¼½¾¿ÀÁÂÃÄÅÆÇÈÉÊËÌÍÎÏÐÑÒÓÔÕÖ×ØÙÚÛÜÝÞßàáâãäåæçèéêëìíîïðñòóôõö÷øùúûüýþÿ";
    proof {
        reveal_strlit(
            " !\"#$%&'()*+,-./0123456789:;<=>?@ABCDEFGHIJKLMNOPQRSTUVWXYZ[\\]^_`abcdefghijklmnopqrstuvwxyz{|}~",
        );
        reveal_strlit(
            "¡¢£¤¥¦§¨©ª«¬\u{ad}®¯°±²³´µ¶·¸¹º»¼½¾¿ÀÁÂÃÄÅÆÇÈÉÊËÌÍÎÏÐÑÒÓÔÕÖ×ØÙÚÛÜÝÞßàáâãäåæçèéêëìíîïðñòóôõö÷øùúûüýþÿ",
        );
    }
    if byte <= 0x7e {
        let i: usize = (byte - 0x20) as usize;
        assert(ascii@[i as int] == byte as char);
        ascii.substring_char(i, i + 1)
    } else {
        let i: usize = (byte - 0xa1) as usize;
        assert(latin@[i as int] == byte as char);
        latin.substring_char(i, i + 1)
    }
}

/// A character in single quotes.
fn quoted_text(byte: u8) -> (result: String)
    ensures
        result@ == quoted(byte),
{
    proof {
        reveal_strlit("'");
        reveal_strlit("'\\0'");
        reveal_strlit("'\\t'");
        reveal_strlit("'\\n'");
        reveal_strlit("'\\r'");
        reveal_strlit("'\\");
        reveal_strlit("'\\u{");
        reveal_strlit("}'");
    }
    let result: String = match byte {
        0x00 => "'\\0'".to_owned(),
        0x09 => "'\\t'".to_owned(),
        0x0a => "'\\n'".to_owned(),
        0x0d => "'\\r'".to_owned(),
        0x27 | 0x5c => "'\\".to_owned().concat(printable_text(byte)).concat("'"),
        _ => if 0x20 <= byte && byte <= 0x7e || 0xa1 <= byte && byte != 0xad {
            "'".to_owned().concat(printable_text(byte)).concat("'")
        } else if byte < 0x10 {
            "'\\u{".to_owned().concat(digit_text(byte)).concat("}'")
        } else {
            "'\\u{".to_owned().concat(digit_text(byte / 16)).concat(digit_text(byte % 16)).concat(
                "}'",
            )
        },
    };
    assert(result@ == quoted(byte));
    result
}

impl HashError {
    /// What is wrong with the text, in words.
    pub open spec fn words(self) -> Seq<char> {
        match self {
            HashError::OddLength => "odd number of digits"@,
            HashError::InvalidLength => "invalid string length"@,
            HashError::InvalidCharacter { byte, index } => "invalid character "@ + quoted(
                byte,
            ) + " at position "@ + decimal_text(index as nat),
        }
    }

    /// What is wrong with the text, in words.
    pub fn message(&self) -> (result: String)
        ensures
            result@ == self.words(),
    {
        match self {
            HashError::OddLength => "odd number of digits".to_owned(),
            HashError::InvalidLength => "invalid string length".to_owned(),
            HashError::InvalidCharacter { byte, index } => "invalid character ".to_owned().concat(
                quoted_text(*byte).as_str(),
            ).concat(" at position ").concat(unsigned_text(*index as u64).as_str()),
        }
    }
}

/// Reading the text of a hash gives the hash back.
pub proof fn parse_undoes_text(hash: Hash256)
    ensures
        parsed_hash(encode_utf8(hash_text(hash@))) == Ok::<Seq<u8>, HashError>(hash@),
{
    let text = hash_text(hash@);
    let bytes = encode_utf8(text);
    assert forall|i: int| 0 <= i < text.len() implies (#[trigger] text[i] as u32) < 0x80 by {
        if i >= 2 {
            assert(0 <= hash@[(i - 2) / 2] as int / 16 < 16);
        }
    }
    is_ascii_chars_encode_utf8(text);
    let digits = without_prefix(bytes);
    assert(digits == bytes.skip(2));
    assert forall|i: int| 0 <= i < 64 implies hex_value(#[trigger] digits[i]) == Some(
        (if i % 2 == 0 {
            hash@[i / 2] as int / 16
        } else {
            hash@[i / 2] as int % 16
        }) as u8,
    ) by {
        assert(digits[i] == text[i + 2] as u8);
    }
    leading_hex_is(digits, 64);
    let decoded = hex_decoded(digits);
    assert forall|i: int| 0 <= i < 32 implies decoded[i] == hash@[i] by {
        assert((2 * i) / 2 == i);
        assert((2 * i + 1) / 2 == i);
        assert(hex_value(digits[2 * i]) == Some((hash@[i] as int / 16) as u8));
        assert(hex_value(digits[2 * i + 1]) == Some((hash@[i] as int % 16) as u8));
    }
    assert(decoded == hash@);
}

/// What `leading_hex` counts are digits, and the byte after them is none.
proof fn leading_hex_bounds(bytes: Seq<u8>)
    ensures
        leading_hex(bytes) <= bytes.len(),
        forall|i: int| 0 <= i < leading_hex(bytes) ==> hex_value(#[trigger] bytes[i]) is Some,
        leading_hex(bytes) < bytes.len() ==> hex_value(bytes[leading_hex(bytes) as int]) is None,
    decreases bytes.len(),
{
    if bytes.len() > 0 && hex_value(bytes[0]) is Some {
        let rest = bytes.drop_first();
        leading_hex_bounds(rest);
        assert forall|i: int| 0 <= i < leading_hex(bytes) implies hex_value(
            #[trigger] bytes[i],
        ) is Some by {
            if i > 0 {
                assert(rest[i - 1] == bytes[i]);
            }
        }
    }
}

/// `byte`, in lower case where it is an ASCII letter.
pub open spec fn lower_case(byte: u8) -> u8 {
    if 0x41 <= byte <= 0x5a {
        (byte + 0x20) as u8
    } else {
        byte
    }
}

/// A text is read exactly where it is 64 hexadecimal digits of either case, with or without
/// the prefix; every other text is refused.
pub proof fn only_digits_are_read(bytes: Seq<u8>)
    ensures
        parsed_hash(bytes) is Ok <==> {
            let digits = without_prefix(bytes);
            digits.len() == 64 && forall|i: int|
                0 <= i < 64 ==> hex_value(lower_case(#[trigger] digits[i])) is Some
        },
{
    let digits = without_prefix(bytes);
    leading_hex_bounds(digits);
    if digits.len() == 64 && (forall|i: int|
        0 <= i < 64 ==> hex_value(lower_case(#[trigger] digits[i])) is Some) {
        leading_hex_is(digits, 64);
    }
}

/// Texts that differ only in the case of their digits, or in whether there is a prefix, are
/// read as the same hash.
pub proof fn case_does_not_count(left: Seq<u8>, right: Seq<u8>)
    requires
        parsed_hash(left) is Ok,
        without_prefix(right).len() == 64,
        forall|i: int|
            0 <= i < 64 ==> lower_case(#[trigger] without_prefix(left)[i]) == lower_case(
                without_prefix(right)[i],
            ),
    ensures
        parsed_hash(right) == parsed_hash(left),
{
    let a = without_prefix(left);
    let b = without_prefix(right);
    only_digits_are_read(left);
    assert forall|i: int| 0 <= i < 64 implies hex_value(#[trigger] b[i]) == hex_value(a[i])
        && hex_value(b[i]) is Some by {
        assert(hex_value(lower_case(a[i])) is Some);
        assert(hex_value(a[i]) == hex_value(lower_case(a[i])));
        assert(hex_value(b[i]) == hex_value(lower_case(b[i])));
    }
    only_digits_are_read(right);
    assert(forall|i: int| 0 <= i < 64 ==> hex_value(#[trigger] b[i]) is Some);
    leading_hex_is(b, 64);
    leading_hex_is(a, 64);
    assert forall|i: int| 0 <= i < 32 implies hex_decoded(a)[i] == hex_decoded(b)[i] by {
        assert(hex_value(b[2 * i]) == hex_value(a[2 * i]));
        assert(hex_value(b[2 * i + 1]) == hex_value(a[2 * i + 1]));
    }
    assert(hex_decoded(a) == hex_decoded(b));
}

/// Whether the ASCII character with this code is the hexadecimal digit for `n`, in either case.
pub open spec fn is_digit_for(code: int, n: int) -> bool {
    ||| 0 <= n < 10 && code == 48 + n
    ||| 10 <= n < 16 && code == 97 + (n - 10)
    ||| 10 <= n < 16 && code == 65 + (n - 10)
}

/// Whether the ASCII character with this code is a hexadecimal digit.
pub open spec fn is_hex_code(code: int) -> bool {
    48 <= code <= 57 || 65 <= code <= 70 || 97 <= code <= 102
}

/// Whether a text starts with `0x` or `0X`.
pub open spec fn has_prefix(bytes: Seq<u8>) -> bool {
    bytes.len() >= 2 && bytes[0] == 48 && (bytes[1] == 120 || bytes[1] == 88)
}

/// What is read as a hash has 64 digits, with or without a prefix; each byte of the hash is
/// given by two of them, in order, the higher half first.
pub proof fn hashes_are_read_digit_by_digit(text: &str, hash: Hash256)
    requires
        call_ensures(Hash256::parse, (text,), Ok::<Hash256, HashError>(hash)),
    ensures
        ({
            let bytes = encode_utf8(text@);
            &&& bytes.len() == 64 || bytes.len() == 66 && has_prefix(bytes)
            &&& forall|i: int|
                #![trigger hash.bytes@[i]]
                0 <= i < 32 ==> is_digit_for(
                    bytes[bytes.len() - 64 + 2 * i] as int,
                    hash.bytes@[i] as int / 16,
                ) && is_digit_for(
                    bytes[bytes.len() - 64 + 2 * i + 1] as int,
                    hash.bytes@[i] as int % 16,
                )
        }),
{
    let bytes = encode_utf8(text@);
    let digits = without_prefix(bytes);
    leading_hex_bounds(digits);
    let skipped = bytes.len() - 64;
    assert(digits == bytes.skip(skipped));
    assert forall|i: int| #![trigger hash.bytes@[i]] 0 <= i < 32 implies is_digit_for(
        bytes[skipped + 2 * i] as int,
        hash.bytes@[i] as int / 16,
    ) && is_digit_for(bytes[skipped + 2 * i + 1] as int, hash.bytes@[i] as int % 16) by {
        assert(hash@[i] == hex_decoded(digits)[i]);
        assert(digits[2 * i] == bytes[skipped + 2 * i]);
        assert(digits[2 * i + 1] == bytes[skipped + 2 * i + 1]);
        let high = hex_value(digits[2 * i])->0 as int;
        let low = hex_value(digits[2 * i + 1])->0 as int;
        assert((16 * high + low) / 16 == high);
        assert((16 * high + low) % 16 == low);
    }
}

/// A text of 64 hexadecimal digits, with or without a prefix, is read. Every other text is
/// refused: for an odd number of bytes, or else for a wrong number of digits, or else for the
/// first character that is no digit.
pub proof fn texts_that_are_no_hash_are_refused(text: &str, result: Result<Hash256, HashError>)
    requires
        call_ensures(Hash256::parse, (text,), result),
    ensures
        ({
            let bytes = encode_utf8(text@);
            let count = if has_prefix(bytes) {
                bytes.len() - 2
            } else {
                bytes.len() as int
            };
            let start = bytes.len() - count;
            if bytes.len() % 2 == 1 {
                result == Err::<Hash256, HashError>(HashError::OddLength)
            } else if count != 64 {
                result == Err::<Hash256, HashError>(HashError::InvalidLength)
            } else {
                match result {
                    Ok(_) => forall|i: int|
                        #![trigger bytes[start + i]]
                        0 <= i < 64 ==> is_hex_code(bytes[start + i] as int),
                    Err(HashError::InvalidCharacter { byte, index }) => {
                        &&& index < 64
                        &&& byte == bytes[start + index]
                        &&& !is_hex_code(byte as int)
                        &&& forall|i: int|
                            #![trigger bytes[start + i]]
                            0 <= i < index ==> is_hex_code(bytes[start + i] as int)
                    },
                    Err(_) => false,
                }
            }
        }),
{
    let bytes = encode_utf8(text@);
    let digits = without_prefix(bytes);
    leading_hex_bounds(digits);
    let start = bytes.len() - digits.len();
    assert(digits == bytes.skip(start));
    assert forall|i: int| #![trigger bytes[start + i]] 0 <= i < leading_hex(digits) implies is_hex_code(
        bytes[start + i] as int,
    ) by {
        assert(digits[i] == bytes[start + i]);
    }
}

/// The text of a hash is `0x` and then two lower-case digits for each byte, in order, the
/// higher half first.
pub proof fn hashes_are_written_digit_by_digit(hash: Hash256, text: String)
    requires
        call_ensures(Hash256::to_text, (&hash,), text),
    ensures
        text@.len() == 66,
        text@[0] as int == 48,
        text@[1] as int == 120,
        forall|i: int|
            #![trigger hash.bytes@[i]]
            0 <= i < 32 ==> is_digit_for(text@[2 + 2 * i] as int, hash.bytes@[i] as int / 16)
                && is_digit_for(text@[3 + 2 * i] as int, hash.bytes@[i] as int % 16),
        forall|i: int| 0 <= i < 66 ==> !(65 <= #[trigger] text@[i] as int <= 70),
{
    assert forall|i: int| #![trigger hash.bytes@[i]] 0 <= i < 32 implies is_digit_for(
        text@[2 + 2 * i] as int,
        hash.bytes@[i] as int / 16,
    ) && is_digit_for(text@[3 + 2 * i] as int, hash.bytes@[i] as int % 16) by {
        assert((2 * i) / 2 == i && (2 * i) % 2 == 0);
        assert((2 * i + 1) / 2 == i && (2 * i + 1) % 2 == 1);
        assert(text@[2 + 2 * i] == digit_char(hash@[i] as int / 16));
        assert(text@[3 + 2 * i] == digit_char(hash@[i] as int % 16));
    }
    assert forall|i: int| 0 <= i < 66 implies !(65 <= #[trigger] text@[i] as int <= 70) by {
        if i >= 2 {
            let byte = hash@[(i - 2) / 2] as int;
            assert(text@[i] == digit_char(byte / 16) || text@[i] == digit_char(byte % 16));
        }
    }
}

/// The text of a hash is read back as that hash, and two hashes have the same text only where
/// they are the same.
pub proof fn written_hashes_are_read_back(
    hashes: (Hash256, Hash256),
    texts: (String, String),
    again: &str,
    result: Result<Hash256, HashError>,
)
    requires
        call_ensures(Hash256::to_text, (&hashes.0,), texts.0),
        call_ensures(Hash256::to_text, (&hashes.1,), texts.1),
        again@ == texts.0@,
        call_ensures(Hash256::parse, (again,), result),
    ensures
        result matches Ok(hash) && hash.bytes@ == hashes.0.bytes@,
        texts.0@ == texts.1@ <==> hashes.0.bytes@ == hashes.1.bytes@,
{
    parse_undoes_text(hashes.0);
    parse_undoes_text(hashes.1);
}

/// Two hashes are called the same exactly where all their bytes are.
pub proof fn the_same_bytes_are_the_same_hash(left: Hash256, right: Hash256, result: bool)
    requires
        call_ensures(Hash256::same, (&left, &right), result),
    ensures
        result <==> (forall|i: int|
            0 <= i < 32 ==> #[trigger] left.bytes@[i] == right.bytes@[i]),
{
    if forall|i: int| 0 <= i < 32 ==> #[trigger] left.bytes@[i] == right.bytes@[i] {
        assert(left.bytes@ == right.bytes@);
    }
}

/// A character that is no digit is told with its place among the digits, in decimal; the same
/// character at another place is told in the same words but for that place.
pub proof fn bad_characters_are_told_with_their_place(
    byte: u8,
    places: (usize, usize),
    messages: (String, String),
)
    requires
        call_ensures(
            HashError::message,
            (&HashError::InvalidCharacter { byte, index: places.0 },),
            messages.0,
        ),
        call_ensures(
            HashError::message,
            (&HashError::InvalidCharacter { byte, index: places.1 },),
            messages.1,
        ),
    ensures
        exists|words: Seq<char>|
            messages.0@ == #[trigger] (words + decimal_text(places.0 as nat)) && messages.1@
                == words + decimal_text(places.1 as nat),
{
    let words = "invalid character "@ + quoted(byte) + " at position "@;
    assert(messages.0@ == words + decimal_text(places.0 as nat));
    assert(messages.1@ == words + decimal_text(places.1 as nat));
}

} // verus!
