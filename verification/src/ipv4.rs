//! IPv4 addresses in dotted decimal.

use crate::decimal::{
    all_digits, decimal_text, decimal_text_stands_for, decimal_value, is_digit,
    rows_without_needless_zeros_are_written_so,
};
use crate::text::{
    characters, joined, joining_undoes_splitting, piece_bounds, pieces, splitting_undoes_joining,
};
use vstd::prelude::*;

verus! {

/// An IPv4 address.
#[derive(Clone, Copy, Debug, PartialEq, Eq, Structural)]
pub struct Ipv4Address {
    pub a: u8,
    pub b: u8,
    pub c: u8,
    pub d: u8,
}

/// Whether `text` is one number of an address: one to three digits, up to 255, and no
/// zero before another digit.
pub open spec fn is_octet(text: Seq<char>) -> bool {
    &&& 1 <= text.len() <= 3
    &&& all_digits(text)
    &&& text[0] == '0' ==> text.len() == 1
    &&& decimal_value(text) <= 255
}

/// The address that `text` stands for: four numbers with full stops between them and
/// nothing else.
pub open spec fn parsed_ipv4(text: Seq<char>) -> Option<Ipv4Address> {
    let parts = pieces(text, '.');
    if parts.len() == 4 && is_octet(parts[0]) && is_octet(parts[1]) && is_octet(parts[2])
        && is_octet(parts[3]) {
        Some(
            Ipv4Address {
                a: decimal_value(parts[0]) as u8,
                b: decimal_value(parts[1]) as u8,
                c: decimal_value(parts[2]) as u8,
                d: decimal_value(parts[3]) as u8,
            },
        )
    } else {
        None
    }
}

/// Reads `chars[from..to]` as one number of an address.
fn parse_octet(chars: &Vec<char>, from: usize, to: usize) -> (result: Option<u8>)
    requires
        from <= to <= chars@.len(),
    ensures
        ({
            let text = chars@.subrange(from as int, to as int);
            match result {
                Some(n) => is_octet(text) && n == decimal_value(text),
                None => !is_octet(text),
            }
        }),
{
    let ghost text = chars@.subrange(from as int, to as int);
    if to - from < 1 || to - from > 3 {
        return None;
    }
    if chars[from] == '0' && to - from > 1 {
        assert(text[0] == '0');
        return None;
    }
    let mut value: u16 = 0;
    assert(text.take(0).len() == 0);
    for i in from..to
        invariant
            from <= to <= chars@.len(),
            to - from <= 3,
            text == chars@.subrange(from as int, to as int),
            all_digits(text.take(i - from)),
            value == decimal_value(text.take(i - from)),
            i - from == 0 ==> value == 0,
            i - from == 1 ==> value <= 9,
            i - from == 2 ==> value <= 99,
            i - from == 3 ==> value <= 999,
    {
        let ghost n: int = i - from;
        let c: char = chars[i];
        assert(text[n] == c);
        if c < '0' || '9' < c {
            return None;
        }
        assert(text.take(n + 1).drop_last() == text.take(n));
        assert(text.take(n + 1) == text.take(n).push(c));
        value = value * 10 + (c as u32 - '0' as u32) as u16;
    }
    assert(text.take(text.len() as int) == text);
    if value <= 255 {
        Some(value as u8)
    } else {
        None
    }
}

/// Reads `text` as an IPv4 address.
pub fn parse_ipv4(text: &str) -> (result: Option<Ipv4Address>)
    ensures
        result == parsed_ipv4(text@),
{
    let chars: Vec<char> = characters(text);
    let parts: Vec<(usize, usize)> = piece_bounds(&chars, '.');
    if parts.len() != 4 {
        return None;
    }
    let a: Option<u8> = parse_octet(&chars, parts[0].0, parts[0].1);
    let b: Option<u8> = parse_octet(&chars, parts[1].0, parts[1].1);
    let c: Option<u8> = parse_octet(&chars, parts[2].0, parts[2].1);
    let d: Option<u8> = parse_octet(&chars, parts[3].0, parts[3].1);
    match (a, b, c, d) {
        (Some(a), Some(b), Some(c), Some(d)) => Some(Ipv4Address { a, b, c, d }),
        _ => None,
    }
}

/// The four numbers of an address in decimal, with full stops between them.
pub open spec fn dotted(address: Ipv4Address) -> Seq<char> {
    joined(
        seq![
            decimal_text(address.a as nat),
            decimal_text(address.b as nat),
            decimal_text(address.c as nat),
            decimal_text(address.d as nat),
        ],
        '.',
    )
}

/// A number up to 255 in decimal is one number of an address, and stands for it.
proof fn octets_are_read(n: u8)
    ensures
        is_octet(decimal_text(n as nat)),
        decimal_value(decimal_text(n as nat)) == n,
        !decimal_text(n as nat).contains('.'),
{
    let text = decimal_text(n as nat);
    decimal_text_stands_for(n as nat);
    reveal_with_fuel(decimal_text, 3);
    assert forall|i: int| 0 <= i < text.len() implies text[i] != '.' by {
        assert(is_digit(text[i]));
    }
}

/// A text is read as an address exactly where it is the four numbers of that address in
/// decimal, without needless zeros, with full stops between them and nothing else.
pub proof fn addresses_are_read_from_their_text(text: &str, result: Option<Ipv4Address>)
    requires
        call_ensures(parse_ipv4, (text,), result),
    ensures
        forall|address: Ipv4Address|
            result == Some(address) <==> text@ == #[trigger] dotted(address),
{
    assert forall|address: Ipv4Address|
        result == Some(address) <==> text@ == #[trigger] dotted(address) by {
        only_dotted_texts_are_read(text@, address);
    }
}

/// A text is read as an address exactly where it is the text of that address.
pub proof fn only_dotted_texts_are_read(text: Seq<char>, address: Ipv4Address)
    ensures
        parsed_ipv4(text) == Some(address) <==> text == dotted(address),
{
    let numbers = seq![
        decimal_text(address.a as nat),
        decimal_text(address.b as nat),
        decimal_text(address.c as nat),
        decimal_text(address.d as nat),
    ];
    octets_are_read(address.a);
    octets_are_read(address.b);
    octets_are_read(address.c);
    octets_are_read(address.d);
    splitting_undoes_joining(numbers, '.');
    let parts = pieces(text, '.');
    joining_undoes_splitting(text, '.');
    if parsed_ipv4(text) == Some(address) {
        rows_without_needless_zeros_are_written_so(parts[0]);
        rows_without_needless_zeros_are_written_so(parts[1]);
        rows_without_needless_zeros_are_written_so(parts[2]);
        rows_without_needless_zeros_are_written_so(parts[3]);
        assert(parts == numbers);
    }
}

} // verus!
