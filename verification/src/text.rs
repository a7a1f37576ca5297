//! Text as sequences of characters: comparison, trimming, splitting.

use vstd::prelude::*;

verus! {

/// The texts of a list of strings.
pub open spec fn texts(strings: Seq<String>) -> Seq<Seq<char>> {
    strings.map_values(|s: String| s@)
}

/// The characters with the Unicode property `White_Space`.
pub open spec fn is_space(c: char) -> bool {
    ||| '\u{9}' <= c <= '\u{d}'
    ||| c == '\u{20}'
    ||| c == '\u{85}'
    ||| c == '\u{a0}'
    ||| c == '\u{1680}'
    ||| '\u{2000}' <= c <= '\u{200a}'
    ||| c == '\u{2028}'
    ||| c == '\u{2029}'
    ||| c == '\u{202f}'
    ||| c == '\u{205f}'
    ||| c == '\u{3000}'
}

/// `text` without the white space it starts with.
pub open spec fn trimmed_start(text: Seq<char>) -> Seq<char>
    decreases text.len(),
{
    if text.len() > 0 && is_space(text.first()) {
        trimmed_start(text.drop_first())
    } else {
        text
    }
}

/// `text` without the white space it ends with.
pub open spec fn trimmed_end(text: Seq<char>) -> Seq<char>
    decreases text.len(),
{
    if text.len() > 0 && is_space(text.last()) {
        trimmed_end(text.drop_last())
    } else {
        text
    }
}

/// `text` without the white space around it.
pub open spec fn trimmed(text: Seq<char>) -> Seq<char> {
    trimmed_end(trimmed_start(text))
}

/// Whether `text` holds nothing but white space.
pub open spec fn is_blank(text: Seq<char>) -> bool {
    trimmed(text).len() == 0
}

/// The pieces of `text` between the separators, in order. There is always one more
/// piece than there are separators.
pub open spec fn pieces(text: Seq<char>, separator: char) -> Seq<Seq<char>>
    decreases text.len(),
{
    if text.len() == 0 {
        seq![Seq::empty()]
    } else {
        let before = pieces(text.drop_last(), separator);
        if text.last() == separator {
            before.push(Seq::empty())
        } else {
            before.drop_last().push(before.last().push(text.last()))
        }
    }
}

/// The digit for `n`: `0` to `9`, and then `a` to `f`.
pub open spec fn digit_char(n: int) -> char
    recommends
        0 <= n < 16,
{
    if n < 10 {
        ('0' as int + n) as char
    } else {
        ('a' as int + n - 10) as char
    }
}

/// The characters of `text`.
pub fn characters(text: &str) -> (result: Vec<char>)
    ensures
        result@ == text@,
{
    let mut result: Vec<char> = Vec::new();
    for c in it: text.chars()
        invariant
            it.seq() == text@,
            result@ == text@.take(it.index()),
    {
        result.push(c);
        assert(text@.take(it.index() + 1) == text@.take(it.index()).push(c));
    }
    assert(text@.take(text@.len() as int) == text@);
    result
}

/// Whether two texts are the same, character by character.
pub fn same_text(left: &str, right: &str) -> (result: bool)
    ensures
        result == (left@ == right@),
{
    let a: Vec<char> = characters(left);
    let b: Vec<char> = characters(right);
    if a.len() != b.len() {
        return false;
    }
    for i in 0..a.len()
        invariant
            a@ == left@,
            b@ == right@,
            a@.len() == b@.len(),
            forall|j: int| 0 <= j < i ==> a@[j] == b@[j],
    {
        if a[i] != b[i] {
            return false;
        }
    }
    assert(a@ == b@);
    true
}

/// The digit for `n`, as text.
pub(crate) fn digit_text(n: u8) -> (result: &'static str)
    requires
        n < 16,
    ensures
        result@ == seq![digit_char(n as int)],
{
    proof {
        reveal_strlit("0");
        reveal_strlit("1");
        reveal_strlit("2");
        reveal_strlit("3");
        reveal_strlit("4");
        reveal_strlit("5");
        reveal_strlit("6");
        reveal_strlit("7");
        reveal_strlit("8");
        reveal_strlit("9");
        reveal_strlit("a");
        reveal_strlit("b");
        reveal_strlit("c");
        reveal_strlit("d");
        reveal_strlit("e");
        reveal_strlit("f");
    }
    match n {
        0 => "0",
        1 => "1",
        2 => "2",
        3 => "3",
        4 => "4",
        5 => "5",
        6 => "6",
        7 => "7",
        8 => "8",
        9 => "9",
        10 => "a",
        11 => "b",
        12 => "c",
        13 => "d",
        14 => "e",
        _ => "f",
    }
}

/// Whether `c` is white space.
pub fn white_space(c: char) -> (result: bool)
    ensures
        result == is_space(c),
{
    ('\u{9}' <= c && c <= '\u{d}') || c == '\u{20}' || c == '\u{85}' || c == '\u{a0}' || c
        == '\u{1680}' || ('\u{2000}' <= c && c <= '\u{200a}') || c == '\u{2028}' || c == '\u{2029}'
        || c == '\u{202f}' || c == '\u{205f}' || c == '\u{3000}'
}

/// The bounds of what is left of `chars[from..to]` without the white space around it.
pub(crate) fn trim_bounds(chars: &Vec<char>, from: usize, to: usize) -> (result: (usize, usize))
    requires
        from <= to <= chars@.len(),
    ensures
        from <= result.0 <= result.1 <= to,
        trimmed(chars@.subrange(from as int, to as int)) == chars@.subrange(
            result.0 as int,
            result.1 as int,
        ),
{
    let ghost whole = chars@.subrange(from as int, to as int);
    let mut start: usize = from;
    while start < to && white_space(chars[start])
        invariant
            from <= start <= to <= chars@.len(),
            whole == chars@.subrange(from as int, to as int),
            trimmed_start(whole) == trimmed_start(chars@.subrange(start as int, to as int)),
        decreases to - start,
    {
        let ghost rest = chars@.subrange(start as int, to as int);
        assert(rest.drop_first() == chars@.subrange(start + 1, to as int));
        start = start + 1;
    }
    let ghost rest = chars@.subrange(start as int, to as int);
    assert(trimmed_start(rest) == rest);
    let mut end: usize = to;
    while start < end && white_space(chars[end - 1])
        invariant
            start <= end <= to <= chars@.len(),
            rest == chars@.subrange(start as int, to as int),
            trimmed_end(rest) == trimmed_end(chars@.subrange(start as int, end as int)),
        decreases end - start,
    {
        let ghost left = chars@.subrange(start as int, end as int);
        assert(left.drop_last() == chars@.subrange(start as int, end - 1));
        end = end - 1;
    }
    (start, end)
}

/// Whether `text` holds nothing but white space.
pub fn blank(text: &str) -> (result: bool)
    ensures
        result == is_blank(text@),
{
    let chars: Vec<char> = characters(text);
    let (start, end) = trim_bounds(&chars, 0, chars.len());
    assert(chars@.subrange(0, chars@.len() as int) == text@);
    start == end
}

/// The bounds of the pieces of `chars` between the separators.
pub(crate) fn piece_bounds(chars: &Vec<char>, separator: char) -> (result: Vec<(usize, usize)>)
    ensures
        result@.len() == pieces(chars@, separator).len(),
        forall|i: int|
            #![trigger result@[i]]
            0 <= i < result@.len() ==> result@[i].0 <= result@[i].1 <= chars@.len() && pieces(
                chars@,
                separator,
            )[i] == chars@.subrange(result@[i].0 as int, result@[i].1 as int),
{
    let mut result: Vec<(usize, usize)> = Vec::new();
    let mut start: usize = 0;
    assert(chars@.take(0).len() == 0);
    assert(chars@.subrange(0, 0) == Seq::<char>::empty());
    for i in 0..chars.len()
        invariant
            start <= i <= chars@.len(),
            pieces(chars@.take(i as int), separator).len() == result@.len() + 1,
            pieces(chars@.take(i as int), separator).last() == chars@.subrange(
                start as int,
                i as int,
            ),
            forall|j: int|
                #![trigger result@[j]]
                0 <= j < result@.len() ==> result@[j].0 <= result@[j].1 <= chars@.len() && pieces(
                    chars@.take(i as int),
                    separator,
                )[j] == chars@.subrange(result@[j].0 as int, result@[j].1 as int),
    {
        let ghost before = pieces(chars@.take(i as int), separator);
        assert(chars@.take(i + 1).drop_last() == chars@.take(i as int));
        if chars[i] == separator {
            result.push((start, i));
            start = i + 1;
            assert(chars@.subrange(start as int, i + 1) == Seq::<char>::empty());
        } else {
            assert(chars@.subrange(start as int, i + 1) == chars@.subrange(
                start as int,
                i as int,
            ).push(chars@[i as int]));
        }
    }
    assert(chars@.take(chars@.len() as int) == chars@);
    result.push((start, chars.len()));
    result
}

/// Trimming takes white space away at both ends and nothing else: what is left lies between
/// two bounds, outside of which there is only white space, and neither starts nor ends with
/// white space.
pub proof fn trimmed_bounds(text: Seq<char>) -> (bounds: (int, int))
    ensures
        0 <= bounds.0 <= bounds.1 <= text.len(),
        trimmed(text) == text.subrange(bounds.0, bounds.1),
        forall|i: int| 0 <= i < bounds.0 ==> is_space(#[trigger] text[i]),
        forall|i: int| bounds.1 <= i < text.len() ==> is_space(#[trigger] text[i]),
        bounds.0 < bounds.1 ==> !is_space(text[bounds.0]) && !is_space(text[bounds.1 - 1]),
    decreases text.len(),
{
    if text.len() > 0 && is_space(text.first()) {
        let rest = text.drop_first();
        let inner = trimmed_bounds(rest);
        let bounds = (inner.0 + 1, inner.1 + 1);
        assert(text.subrange(bounds.0, bounds.1) == rest.subrange(inner.0, inner.1));
        assert forall|i: int| 0 <= i < bounds.0 implies is_space(#[trigger] text[i]) by {
            if i > 0 {
                assert(is_space(rest[i - 1]));
            }
        }
        assert forall|i: int| bounds.1 <= i < text.len() implies is_space(#[trigger] text[i]) by {
            assert(is_space(rest[i - 1]));
        }
        bounds
    } else if text.len() > 0 && is_space(text.last()) {
        let rest = text.drop_last();
        let inner = trimmed_bounds(rest);
        assert(rest.first() == text.first());
        assert(text.subrange(inner.0, inner.1) == rest.subrange(inner.0, inner.1));
        assert forall|i: int| inner.1 <= i < text.len() implies is_space(#[trigger] text[i]) by {
            if i < rest.len() {
                assert(is_space(rest[i]));
            }
        }
        inner
    } else {
        assert(text.subrange(0, text.len() as int) == text);
        (0, text.len() as int)
    }
}

/// Trimming twice is trimming once.
pub proof fn trimming_is_idempotent(text: Seq<char>)
    ensures
        trimmed(trimmed(text)) == trimmed(text),
{
    let bounds = trimmed_bounds(text);
}

/// A text is blank where all of it is white space.
pub proof fn blank_is_all_space(text: Seq<char>)
    ensures
        is_blank(text) <==> (forall|i: int| 0 <= i < text.len() ==> is_space(#[trigger] text[i])),
{
    let bounds = trimmed_bounds(text);
    if bounds.0 < bounds.1 {
        assert(!is_space(text[bounds.0]));
    }
}

/// A text has at least one piece, and no piece holds the separator.
pub proof fn pieces_hold_no_separator(text: Seq<char>, separator: char)
    ensures
        pieces(text, separator).len() >= 1,
        forall|i: int|
            0 <= i < pieces(text, separator).len() ==> !(#[trigger] pieces(
                text,
                separator,
            )[i]).contains(separator),
    decreases text.len(),
{
    if text.len() > 0 {
        let before = pieces(text.drop_last(), separator);
        pieces_hold_no_separator(text.drop_last(), separator);
        if text.last() != separator {
            let grown = before.last().push(text.last());
            assert(!before[before.len() - 1].contains(separator));
            assert forall|k: int| 0 <= k < grown.len() implies grown[k] != separator by {
                if k < before.last().len() {
                    assert(before.last()[k] == grown[k]);
                }
            }
        }
    }
}

/// The pieces of two texts with a separator between them are those of the first and then
/// those of the second.
pub proof fn pieces_of_joined(left: Seq<char>, right: Seq<char>, separator: char)
    ensures
        pieces(left.push(separator) + right, separator) == pieces(left, separator) + pieces(
            right,
            separator,
        ),
    decreases right.len(),
{
    let joined = left.push(separator) + right;
    pieces_hold_no_separator(right, separator);
    if right.len() == 0 {
        assert(joined.drop_last() == left);
        assert(pieces(joined, separator) == pieces(left, separator) + pieces(right, separator));
    } else {
        pieces_of_joined(left, right.drop_last(), separator);
        pieces_hold_no_separator(right.drop_last(), separator);
        assert(joined.drop_last() == left.push(separator) + right.drop_last());
        assert(joined.last() == right.last());
        let before = pieces(right.drop_last(), separator);
        let whole = pieces(left, separator) + before;
        assert(whole.last() == before.last());
        assert(pieces(joined, separator) == pieces(left, separator) + pieces(right, separator));
    }
}

/// A text without the separator is one piece.
pub proof fn pieces_without_separator(text: Seq<char>, separator: char)
    requires
        !text.contains(separator),
    ensures
        pieces(text, separator) == seq![text],
    decreases text.len(),
{
    if text.len() > 0 {
        let rest = text.drop_last();
        assert forall|i: int| 0 <= i < rest.len() implies rest[i] != separator by {
            assert(text[i] == rest[i]);
        }
        pieces_without_separator(rest, separator);
        assert(text[text.len() - 1] != separator);
        assert(rest.push(text.last()) == text);
        assert(pieces(text, separator) == seq![text]);
    } else {
        assert(text == Seq::<char>::empty());
    }
}

/// The digits are the ten ASCII digits and then the first six lower-case ASCII letters, in
/// order.
pub proof fn digits_stand_in_order(n: int)
    ensures
        0 <= n < 10 ==> digit_char(n) as int == 48 + n,
        10 <= n < 16 ==> digit_char(n) as int == 97 + (n - 10),
{
}

/// The given texts with the separator between them.
pub open spec fn joined(parts: Seq<Seq<char>>, separator: char) -> Seq<char>
    decreases parts.len(),
{
    if parts.len() == 0 {
        seq![]
    } else if parts.len() == 1 {
        parts[0]
    } else {
        joined(parts.drop_last(), separator).push(separator) + parts.last()
    }
}

/// The pieces of a text, with the separator between them, are the text.
pub proof fn joining_undoes_splitting(text: Seq<char>, separator: char)
    ensures
        joined(pieces(text, separator), separator) == text,
    decreases text.len(),
{
    let parts = pieces(text, separator);
    pieces_hold_no_separator(text, separator);
    if text.len() == 0 {
        assert(parts.len() == 1);
    } else {
        let rest = text.drop_last();
        let before = pieces(rest, separator);
        pieces_hold_no_separator(rest, separator);
        joining_undoes_splitting(rest, separator);
        assert(rest.push(text.last()) == text);
        if text.last() == separator {
            assert(parts.drop_last() == before);
            assert(joined(parts, separator) == rest.push(separator) + Seq::<char>::empty());
        } else {
            assert(parts.drop_last() == before.drop_last());
            assert(parts.last() == before.last().push(text.last()));
            if before.len() > 1 {
                let start = joined(before.drop_last(), separator).push(separator);
                assert(start + before.last() == rest);
                assert(start + before.last().push(text.last()) == text);
            }
        }
    }
}

/// Texts that do not hold the separator, with the separator between them, are split back into
/// the texts.
pub proof fn splitting_undoes_joining(parts: Seq<Seq<char>>, separator: char)
    requires
        parts.len() > 0,
        forall|i: int| 0 <= i < parts.len() ==> !(#[trigger] parts[i]).contains(separator),
    ensures
        pieces(joined(parts, separator), separator) == parts,
    decreases parts.len(),
{
    assert(!parts[parts.len() - 1].contains(separator));
    pieces_without_separator(parts.last(), separator);
    if parts.len() == 1 {
        assert(parts == seq![parts[0]]);
    } else {
        splitting_undoes_joining(parts.drop_last(), separator);
        pieces_of_joined(joined(parts.drop_last(), separator), parts.last(), separator);
        assert(parts == parts.drop_last() + seq![parts.last()]);
    }
}

/// A text is called blank exactly where every character of it is white space.
pub proof fn blank_texts_are_all_space(text: &str, result: bool)
    requires
        call_ensures(blank, (text,), result),
    ensures
        result <==> (forall|i: int| 0 <= i < text@.len() ==> is_space(#[trigger] text@[i])),
{
    blank_is_all_space(text@);
}

} // verus!
