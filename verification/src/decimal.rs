//! Unsigned integers in decimal.

use crate::text::{characters, digit_char, digit_text};
use vstd::prelude::*;

verus! {

/// Why a text is not an unsigned integer of the wanted size.
#[derive(Clone, Copy, Debug, PartialEq, Eq, Structural)]
pub enum IntegerError {
    /// The text is empty.
    Empty,
    /// The text holds something that is no digit.
    InvalidDigit,
    /// The digits stand for more than the wanted size can hold.
    Overflow,
}

/// Whether `c` is one of the ten ASCII digits.
pub open spec fn is_digit(c: char) -> bool {
    '0' <= c <= '9'
}

/// The number that the ASCII digit `c` stands for.
pub open spec fn digit_value(c: char) -> nat
    recommends
        is_digit(c),
{
    (c as int - '0' as int) as nat
}

/// Whether every character of `text` is an ASCII digit.
pub open spec fn all_digits(text: Seq<char>) -> bool {
    forall|i: int| 0 <= i < text.len() ==> is_digit(#[trigger] text[i])
}

/// The number that a row of digits stands for.
pub open spec fn decimal_value(digits: Seq<char>) -> nat
    decreases digits.len(),
{
    if digits.len() == 0 {
        0
    } else {
        10 * decimal_value(digits.drop_last()) + digit_value(digits.last())
    }
}

/// `text` without the plus sign that may stand before the first digit.
pub open spec fn without_sign(text: Seq<char>) -> Seq<char> {
    if text.len() > 1 && text[0] == '+' {
        text.skip(1)
    } else {
        text
    }
}

/// Whether the digits that `text` starts with go beyond `max`.
pub open spec fn starts_beyond(text: Seq<char>, max: nat) -> bool {
    exists|n: int|
        0 <= n <= text.len() && all_digits(#[trigger] text.take(n)) && decimal_value(text.take(n))
            > max
}

/// The unsigned integer up to `max` that `text` stands for. Text is read from the left: an
/// overflow is reported where it comes before the first character that is no digit.
pub open spec fn parsed_unsigned(text: Seq<char>, max: nat) -> Result<nat, IntegerError> {
    let digits = without_sign(text);
    if text.len() == 0 {
        Err(IntegerError::Empty)
    } else if starts_beyond(digits, max) {
        Err(IntegerError::Overflow)
    } else if !all_digits(digits) {
        Err(IntegerError::InvalidDigit)
    } else {
        Ok(decimal_value(digits))
    }
}

/// A longer row of digits does not stand for less.
pub proof fn decimal_value_grows(digits: Seq<char>, short: int, long: int)
    requires
        0 <= short <= long <= digits.len(),
    ensures
        decimal_value(digits.take(short)) <= decimal_value(digits.take(long)),
    decreases long - short,
{
    if short < long {
        decimal_value_grows(digits, short, long - 1);
        assert(digits.take(long).drop_last() == digits.take(long - 1));
    }
}

/// Reads `chars[from..]` as digits that stand for a number up to `max`.
fn read_digits(chars: &Vec<char>, from: usize, max: u64) -> (result: Result<u64, IntegerError>)
    requires
        from <= chars@.len(),
    ensures
        ({
            let digits = chars@.skip(from as int);
            match result {
                Ok(n) => all_digits(digits) && n == decimal_value(digits) && !starts_beyond(
                    digits,
                    max as nat,
                ),
                Err(e) => if starts_beyond(digits, max as nat) {
                    e == IntegerError::Overflow
                } else {
                    !all_digits(digits) && e == IntegerError::InvalidDigit
                },
            }
        }),
{
    let ghost digits = chars@.skip(from as int);
    let mut value: u64 = 0;
    let mut i: usize = from;
    assert(digits.take(0).len() == 0);
    while i < chars.len()
        invariant
            from <= i <= chars@.len(),
            digits == chars@.skip(from as int),
            all_digits(digits.take(i - from)),
            value == decimal_value(digits.take(i - from)),
            value <= max,
        decreases chars@.len() - i,
    {
        let ghost n: int = i - from;
        let c: char = chars[i];
        assert(digits[n] == c);
        if c < '0' || '9' < c {
            assert forall|m: int| 0 <= m <= digits.len() && all_digits(#[trigger] digits.take(m))
                implies decimal_value(digits.take(m)) <= max by {
                if m > n {
                    assert(is_digit(digits.take(m)[n]));
                }
                decimal_value_grows(digits, m, n);
            }
            return Err(IntegerError::InvalidDigit);
        }
        let digit: u64 = (c as u32 - '0' as u32) as u64;
        assert(digits.take(n + 1).drop_last() == digits.take(n));
        assert(digits.take(n + 1) == digits.take(n).push(c));
        assert(all_digits(digits.take(n + 1)));
        assert(decimal_value(digits.take(n + 1)) == 10 * value + digit);
        match value.checked_mul(10) {
            Some(shifted) => {
                match shifted.checked_add(digit) {
                    Some(next) => {
                        if next > max {
                            return Err(IntegerError::Overflow);
                        }
                        value = next;
                    },
                    None => {
                        return Err(IntegerError::Overflow);
                    },
                }
            },
            None => {
                return Err(IntegerError::Overflow);
            },
        }
        i = i + 1;
    }
    assert(digits.take(digits.len() as int) == digits);
    assert forall|m: int| 0 <= m <= digits.len() && all_digits(#[trigger] digits.take(m)) implies
        decimal_value(digits.take(m)) <= max by {
        decimal_value_grows(digits, m, digits.len() as int);
    }
    Ok(value)
}

/// Reads `text` as an unsigned integer up to `max`.
pub fn parse_unsigned(text: &str, max: u64) -> (result: Result<u64, IntegerError>)
    ensures
        match result {
            Ok(n) => parsed_unsigned(text@, max as nat) == Ok::<nat, IntegerError>(n as nat),
            Err(e) => parsed_unsigned(text@, max as nat) == Err::<nat, IntegerError>(e),
        },
{
    let chars: Vec<char> = characters(text);
    if chars.len() == 0 {
        return Err(IntegerError::Empty);
    }
    if chars.len() > 1 && chars[0] == '+' {
        read_digits(&chars, 1, max)
    } else {
        assert(chars@.skip(0) == chars@);
        read_digits(&chars, 0, max)
    }
}

/// What is parsed is never beyond the bound.
pub proof fn parsed_unsigned_is_bounded(text: Seq<char>, max: nat)
    ensures
        parsed_unsigned(text, max) matches Ok(n) ==> n <= max,
{
    let digits = without_sign(text);
    assert(digits.take(digits.len() as int) == digits);
}

impl IntegerError {
    /// What is wrong with the text, in words.
    pub open spec fn words(self) -> Seq<char> {
        match self {
            IntegerError::Empty => "cannot parse integer from empty string"@,
            IntegerError::InvalidDigit => "invalid digit found in string"@,
            IntegerError::Overflow => "number too large to fit in target type"@,
        }
    }

    /// What is wrong with the text, in words.
    pub fn message(&self) -> (result: String)
        ensures
            result@ == self.words(),
    {
        match self {
            IntegerError::Empty => "cannot parse integer from empty string".to_owned(),
            IntegerError::InvalidDigit => "invalid digit found in string".to_owned(),
            IntegerError::Overflow => "number too large to fit in target type".to_owned(),
        }
    }
}

/// A number in decimal, without leading zeros.
pub open spec fn decimal_text(n: nat) -> Seq<char>
    decreases n,
{
    if n < 10 {
        seq![digit_char(n as int)]
    } else {
        decimal_text(n / 10).push(digit_char(n as int % 10))
    }
}

/// A number in decimal.
pub fn unsigned_text(n: u64) -> (result: String)
    ensures
        result@ == decimal_text(n as nat),
    decreases n,
{
    if n < 10 {
        digit_text(n as u8).to_owned()
    } else {
        let digit: u8 = (n % 10) as u8;
        let result: String = unsigned_text(n / 10).concat(digit_text(digit));
        assert(result@ == decimal_text(n as nat));
        result
    }
}

/// A number in decimal is a row of digits that stands for it.
pub proof fn decimal_text_stands_for(n: nat)
    ensures
        decimal_text(n).len() > 0,
        all_digits(decimal_text(n)),
        decimal_value(decimal_text(n)) == n,
    decreases n,
{
    let text = decimal_text(n);
    if n < 10 {
        assert(text.drop_last().len() == 0);
        assert(decimal_value(text.drop_last()) == 0);
        assert(digit_value(digit_char(n as int)) == n);
    } else {
        decimal_text_stands_for(n / 10);
        assert(text.drop_last() == decimal_text(n / 10));
        assert(digit_value(digit_char(n as int % 10)) == n % 10);
    }
}

/// A row of digits that stands for no more than the bound is parsed to what it stands for.
pub proof fn row_of_digits_is_parsed(digits: Seq<char>, max: nat)
    requires
        digits.len() > 0,
        all_digits(digits),
        decimal_value(digits) <= max,
    ensures
        parsed_unsigned(digits, max) == Ok::<nat, IntegerError>(decimal_value(digits)),
{
    assert(digits[0] != '+') by {
        assert(is_digit(digits[0]));
    }
    assert(digits.take(digits.len() as int) == digits);
    assert forall|n: int| 0 <= n <= digits.len() && all_digits(#[trigger] digits.take(n)) implies
        decimal_value(digits.take(n)) <= max by {
        decimal_value_grows(digits, n, digits.len() as int);
    }
}

/// Parsing a number in decimal gives the number back.
pub proof fn parse_undoes_decimal_text(n: nat, max: nat)
    requires
        n <= max,
    ensures
        parsed_unsigned(decimal_text(n), max) == Ok::<nat, IntegerError>(n),
{
    decimal_text_stands_for(n);
    row_of_digits_is_parsed(decimal_text(n), max);
}

/// A zero before a row of digits does not change what it stands for.
proof fn leading_zero_adds_nothing(digits: Seq<char>)
    ensures
        decimal_value(seq!['0'] + digits) == decimal_value(digits),
    decreases digits.len(),
{
    let longer = seq!['0'] + digits;
    if digits.len() == 0 {
        assert(longer.drop_last().len() == 0);
        assert(decimal_value(longer.drop_last()) == 0);
    } else {
        leading_zero_adds_nothing(digits.drop_last());
        assert(longer.drop_last() == seq!['0'] + digits.drop_last());
        assert(longer.last() == digits.last());
    }
}

/// One zero before a text without a sign does not change what is read.
proof fn leading_zero_does_not_count(text: Seq<char>, max: nat)
    requires
        text.len() > 0,
        without_sign(text) == text,
    ensures
        parsed_unsigned(seq!['0'] + text, max) == parsed_unsigned(text, max),
        without_sign(seq!['0'] + text) == seq!['0'] + text,
{
    let longer = seq!['0'] + text;
    assert(longer[0] == '0');
    leading_zero_adds_nothing(text);
    assert(all_digits(longer) <==> all_digits(text)) by {
        if all_digits(longer) {
            assert forall|i: int| 0 <= i < text.len() implies is_digit(#[trigger] text[i]) by {
                assert(longer[i + 1] == text[i]);
            }
        }
    }
    if starts_beyond(text, max) {
        let n = choose|n: int|
            0 <= n <= text.len() && all_digits(#[trigger] text.take(n)) && decimal_value(
                text.take(n),
            ) > max;
        leading_zero_adds_nothing(text.take(n));
        assert(longer.take(n + 1) == seq!['0'] + text.take(n));
        assert(all_digits(longer.take(n + 1)));
    }
    if starts_beyond(longer, max) {
        let n = choose|n: int|
            0 <= n <= longer.len() && all_digits(#[trigger] longer.take(n)) && decimal_value(
                longer.take(n),
            ) > max;
        assert(n > 0);
        let shorter = text.take(n - 1);
        assert(longer.take(n) == seq!['0'] + shorter);
        leading_zero_adds_nothing(shorter);
        assert forall|i: int| 0 <= i < shorter.len() implies is_digit(#[trigger] shorter[i]) by {
            assert(longer.take(n)[i + 1] == shorter[i]);
        }
    }
}

/// Leading zeros do not change what is read from a text without a sign.
pub proof fn leading_zeros_do_not_count(text: Seq<char>, zeros: nat, max: nat)
    requires
        text.len() > 0,
        without_sign(text) == text,
    ensures
        parsed_unsigned(Seq::new(zeros, |i: int| '0') + text, max) == parsed_unsigned(text, max),
        without_sign(Seq::new(zeros, |i: int| '0') + text) == Seq::new(zeros, |i: int| '0') + text,
    decreases zeros,
{
    let longer = Seq::new(zeros, |i: int| '0') + text;
    if zeros == 0 {
        assert(longer == text);
    } else {
        let fewer = Seq::new((zeros - 1) as nat, |i: int| '0') + text;
        leading_zeros_do_not_count(text, (zeros - 1) as nat, max);
        leading_zero_does_not_count(fewer, max);
        assert(longer == seq!['0'] + fewer);
    }
}

/// A plus sign before a text without one does not change what is read.
pub proof fn a_plus_sign_does_not_count(text: Seq<char>, max: nat)
    requires
        text.len() > 0,
        without_sign(text) == text,
    ensures
        parsed_unsigned(seq!['+'] + text, max) == parsed_unsigned(text, max),
{
    assert((seq!['+'] + text).skip(1) == text);
}

/// What is read from the digits in a row that goes on with another digit.
proof fn one_more_digit(digits: Seq<char>, c: char, max: nat)
    requires
        digits.len() > 0,
        all_digits(digits),
        !starts_beyond(digits, max),
        is_digit(c),
    ensures
        all_digits(digits.push(c)),
        decimal_value(digits.push(c)) == 10 * decimal_value(digits) + digit_value(c),
        starts_beyond(digits.push(c), max) <==> decimal_value(digits.push(c)) > max,
{
    let longer = digits.push(c);
    assert(longer.drop_last() == digits);
    assert(longer.take(longer.len() as int) == longer);
    if starts_beyond(longer, max) {
        let n = choose|n: int|
            0 <= n <= longer.len() && all_digits(#[trigger] longer.take(n)) && decimal_value(
                longer.take(n),
            ) > max;
        if n <= digits.len() {
            assert(longer.take(n) == digits.take(n));
        }
    }
}

/// A text that goes on starts with the same digits.
proof fn still_starts_beyond(text: Seq<char>, c: char, max: nat)
    requires
        starts_beyond(text, max),
    ensures
        starts_beyond(text.push(c), max),
{
    let n = choose|n: int|
        0 <= n <= text.len() && all_digits(#[trigger] text.take(n)) && decimal_value(text.take(n))
            > max;
    assert(text.push(c).take(n) == text.take(n));
}

/// What stops the digits is not passed by what comes after it.
proof fn does_not_start_beyond(text: Seq<char>, c: char, max: nat)
    requires
        !starts_beyond(text, max),
        !all_digits(text.push(c)),
    ensures
        !starts_beyond(text.push(c), max),
{
    let longer = text.push(c);
    if starts_beyond(longer, max) {
        let n = choose|n: int|
            0 <= n <= longer.len() && all_digits(#[trigger] longer.take(n)) && decimal_value(
                longer.take(n),
            ) > max;
        if n <= text.len() {
            assert(longer.take(n) == text.take(n));
        } else {
            assert(longer.take(n) == longer);
        }
    }
}

/// A sign that may stand before a text stands before the text as it goes on.
proof fn sign_of_longer(text: Seq<char>, c: char)
    requires
        text.len() > 0,
        text != seq!['+'],
    ensures
        without_sign(text.push(c)) == without_sign(text).push(c),
        without_sign(text).len() > 0,
{
    if text.len() > 1 && text[0] == '+' {
        assert(text.push(c).skip(1) == text.skip(1).push(c));
    } else if text.len() == 1 && text[0] == '+' {
        assert(text == seq!['+']);
    }
}

/// One character is read only where it is an ASCII digit, as the number of its place among
/// them; nothing at all is refused as nothing.
pub proof fn one_character_is_read(c: char, max: nat)
    ensures
        parsed_unsigned(seq![], max) == Err::<nat, IntegerError>(IntegerError::Empty),
        48 <= c as int <= 57 && c as int - 48 <= max ==> parsed_unsigned(seq![c], max) == Ok::<
            nat,
            IntegerError,
        >((c as int - 48) as nat),
        48 <= c as int <= 57 && c as int - 48 > max ==> parsed_unsigned(seq![c], max) == Err::<
            nat,
            IntegerError,
        >(IntegerError::Overflow),
        c as int <= 47 || 58 <= c as int ==> parsed_unsigned(seq![c], max) == Err::<
            nat,
            IntegerError,
        >(IntegerError::InvalidDigit),
{
    let text = seq![c];
    assert(text.drop_last().len() == 0);
    assert(decimal_value(text.drop_last()) == 0);
    assert(decimal_value(text) == digit_value(c));
    assert(text.take(1) == text);
    assert(text.take(0).len() == 0);
    assert(decimal_value(text.take(0)) == 0);
    assert(text[0] == c);
    assert(all_digits(text) <==> is_digit(c));
    assert(starts_beyond(text, max) <==> is_digit(c) && digit_value(c) > max) by {
        if starts_beyond(text, max) {
            let n = choose|n: int|
                0 <= n <= text.len() && all_digits(#[trigger] text.take(n)) && decimal_value(
                    text.take(n),
                ) > max;
            assert(n == 1);
        }
    }
}

/// Another digit makes ten times as much and the digit more of what was read before it, or too
/// much.
pub proof fn another_digit_is_read(text: Seq<char>, c: char, max: nat)
    requires
        parsed_unsigned(text, max) is Ok,
        48 <= c as int <= 57,
    ensures
        ({
            let n = 10 * parsed_unsigned(text, max)->Ok_0 + (c as int - 48);
            parsed_unsigned(text.push(c), max) == if n <= max {
                Ok::<nat, IntegerError>(n as nat)
            } else {
                Err::<nat, IntegerError>(IntegerError::Overflow)
            }
        }),
{
    assert(text != seq!['+']) by {
        assert(!is_digit(seq!['+'][0]));
    }
    sign_of_longer(text, c);
    one_more_digit(without_sign(text), c, max);
}

/// What is no digit is refused after any number.
pub proof fn what_is_no_digit_is_refused(text: Seq<char>, c: char, max: nat)
    requires
        parsed_unsigned(text, max) is Ok,
        c as int <= 47 || 58 <= c as int,
    ensures
        parsed_unsigned(text.push(c), max) == Err::<nat, IntegerError>(IntegerError::InvalidDigit),
{
    assert(text != seq!['+']) by {
        assert(!is_digit(seq!['+'][0]));
    }
    sign_of_longer(text, c);
    let digits = without_sign(text);
    assert(!is_digit(digits.push(c)[digits.len() as int]));
    does_not_start_beyond(digits, c, max);
}

/// A text that is refused stays so, for the same reason, however it goes on; only a plus sign
/// alone may still be followed by digits.
pub proof fn faults_are_not_mended(text: Seq<char>, c: char, max: nat)
    requires
        text.len() > 0,
        text != seq!['+'],
        parsed_unsigned(text, max) is Err,
    ensures
        parsed_unsigned(text.push(c), max) == parsed_unsigned(text, max),
{
    sign_of_longer(text, c);
    let digits = without_sign(text);
    if starts_beyond(digits, max) {
        still_starts_beyond(digits, c, max);
    } else {
        let i = choose|i: int| 0 <= i < digits.len() && !is_digit(#[trigger] digits[i]);
        assert(digits.push(c)[i] == digits[i]);
        does_not_start_beyond(digits, c, max);
    }
}

/// A number in decimal is its leading digits in decimal and then its last digit.
pub proof fn decimal_text_digit_by_digit(n: nat)
    ensures
        n < 10 ==> decimal_text(n) == seq![(48 + n) as char],
        n >= 10 ==> decimal_text(n) == decimal_text(n / 10).push((48 + n % 10) as char),
{
}

/// A number in decimal that is beyond the bound is refused as too much.
pub proof fn decimal_text_beyond_is_refused(n: nat, max: nat)
    requires
        n > max,
    ensures
        parsed_unsigned(decimal_text(n), max) == Err::<nat, IntegerError>(IntegerError::Overflow),
{
    decimal_text_stands_for(n);
    let text = decimal_text(n);
    assert(is_digit(text[0]));
    assert(text.take(text.len() as int) == text);
}

/// Reading a number in decimal gives the number where it is within the bound, and is refused
/// as too much where it is not.
pub proof fn numbers_are_read(text: &str, max: u64, n: nat, result: Result<u64, IntegerError>)
    requires
        call_ensures(parse_unsigned, (text, max), result),
        text@ == decimal_text(n),
    ensures
        n <= max ==> (result matches Ok(m) && m == n),
        n > max ==> result == Err::<u64, IntegerError>(IntegerError::Overflow),
{
    if n <= max {
        parse_undoes_decimal_text(n, max as nat);
    } else {
        decimal_text_beyond_is_refused(n, max as nat);
    }
}

/// What is read from a text that goes on with one more character follows from what is read
/// from the text.
pub proof fn reading_goes_on_character_by_character(
    text: &str,
    longer: &str,
    c: char,
    max: u64,
    before: u64,
    result: Result<u64, IntegerError>,
)
    requires
        longer@ == text@.push(c),
        call_ensures(parse_unsigned, (text, max), Ok::<u64, IntegerError>(before)),
        call_ensures(parse_unsigned, (longer, max), result),
    ensures
        c as int <= 47 || 58 <= c as int ==> result == Err::<u64, IntegerError>(
            IntegerError::InvalidDigit,
        ),
        48 <= c as int <= 57 && 10 * before + (c as int - 48) <= max ==> (result matches Ok(m) && m
            == 10 * before + (c as int - 48)),
        48 <= c as int <= 57 && 10 * before + (c as int - 48) > max ==> result == Err::<
            u64,
            IntegerError,
        >(IntegerError::Overflow),
{
    if 48 <= c as int <= 57 {
        another_digit_is_read(text@, c, max as nat);
    } else {
        what_is_no_digit_is_refused(text@, c, max as nat);
    }
}

/// A number that was written is read back.
pub proof fn written_numbers_are_read_back(
    n: u64,
    text: String,
    again: &str,
    max: u64,
    result: Result<u64, IntegerError>,
)
    requires
        call_ensures(unsigned_text, (n,), text),
        again@ == text@,
        n <= max,
        call_ensures(parse_unsigned, (again, max), result),
    ensures
        result == Ok::<u64, IntegerError>(n),
        text@.last() as int == 48 + n % 10,
        n < 10 ==> text@.len() == 1,
{
    parse_undoes_decimal_text(n as nat, max as nat);
}

/// A row of digits that does not start with a needless zero is how the number that it stands
/// for is written.
pub proof fn rows_without_needless_zeros_are_written_so(digits: Seq<char>)
    requires
        digits.len() > 0,
        all_digits(digits),
        digits[0] == '0' ==> digits.len() == 1,
    ensures
        decimal_text(decimal_value(digits)) == digits,
        digits.len() > 1 ==> decimal_value(digits) >= 10,
    decreases digits.len(),
{
    let rest = digits.drop_last();
    let last = digits.last();
    assert(is_digit(digits[digits.len() - 1]));
    if digits.len() == 1 {
        assert(decimal_value(rest) == 0);
        assert(decimal_text(decimal_value(digits)) == digits);
    } else {
        assert forall|i: int| 0 <= i < rest.len() implies is_digit(#[trigger] rest[i]) by {
            assert(is_digit(digits[i]));
        }
        assert(rest[0] == digits[0]);
        rows_without_needless_zeros_are_written_so(rest);
        let n = decimal_value(rest);
        assert(n >= 1) by {
            if rest.len() == 1 {
                assert(decimal_value(rest.drop_last()) == 0);
                assert(is_digit(digits[0]));
            }
        }
        assert((10 * n + digit_value(last)) / 10 == n);
        assert((10 * n + digit_value(last)) % 10 == digit_value(last));
        assert(rest.push(last) == digits);
    }
}

} // verus!
