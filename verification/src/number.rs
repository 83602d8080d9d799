//! Reading a count from decimal digits.

use vstd::prelude::*;
use crate::text::chars_of;

verus! {

/// Whether `glyph` is one of the digits `0` to `9`.
pub open spec fn is_digit(glyph: char) -> bool {
    '0' <= glyph <= '9'
}

/// The number that a digit stands for.
pub open spec fn digit_value(glyph: char) -> nat {
    (glyph as int - '0' as int) as nat
}

/// Whether `digits` holds decimal digits and nothing else.
pub open spec fn all_digits(digits: Seq<char>) -> bool {
    forall|i: int| 0 <= i < digits.len() ==> is_digit(#[trigger] digits[i])
}

/// The number that a row of digits spells, the last digit counting ones.
pub open spec fn decimal_value(digits: Seq<char>) -> nat
    decreases digits.len(),
{
    if digits.len() == 0 {
        0
    } else {
        10 * decimal_value(digits.drop_last()) + digit_value(digits.last())
    }
}

/// What is left of `text` once one leading `+` has been taken off.
pub open spec fn without_plus(text: Seq<char>) -> Seq<char> {
    if text.len() > 0 && text[0] == '+' {
        text.skip(1)
    } else {
        text
    }
}

/// The number of 16 bits that `text` spells: an optional `+`, then at least
/// one digit and nothing but digits, for a value that fits. Blanks, a `-`
/// and other signs are not accepted.
pub open spec fn spelled_u16(text: Seq<char>) -> Option<u16> {
    let digits = without_plus(text);
    if digits.len() > 0 && all_digits(digits) && decimal_value(digits) <= u16::MAX {
        Some(decimal_value(digits) as u16)
    } else {
        None
    }
}

/// Leading digits can only make a number larger.
proof fn lemma_value_grows(digits: Seq<char>, count: int)
    requires
        0 <= count <= digits.len(),
    ensures
        decimal_value(digits.take(count)) <= decimal_value(digits),
    decreases digits.len(),
{
    if count < digits.len() {
        lemma_value_grows(digits.drop_last(), count);
        assert(digits.drop_last().take(count) == digits.take(count));
    } else {
        assert(digits.take(count) == digits);
    }
}

/// Reads a number of 16 bits from decimal digits, as the standard parser of
/// `u16` does.
pub fn parse_u16(text: &str) -> (number: Option<u16>)
    ensures
        number == spelled_u16(text@),
{
    let glyphs = chars_of(text);
    let start: usize = if glyphs.len() > 0 && glyphs[0] == '+' {
        1
    } else {
        0
    };
    let ghost digits = without_plus(text@);
    assert(digits == glyphs@.skip(start as int));
    if start == glyphs.len() {
        return None;
    }
    let mut value: u32 = 0;
    let mut index: usize = start;
    while index < glyphs.len()
        invariant
            start <= index <= glyphs.len(),
            digits == without_plus(text@),
            digits == glyphs@.skip(start as int),
            all_digits(digits.take(index - start)),
            value == decimal_value(digits.take(index - start)),
            value <= u16::MAX,
        decreases glyphs.len() - index,
    {
        let glyph = glyphs[index];
        let ghost seen = digits.take(index - start);
        let ghost more = digits.take(index - start + 1);
        assert(more.drop_last() == seen);
        assert(more.last() == glyph);
        if !(glyph >= '0' && glyph <= '9') {
            assert(!is_digit(digits[index - start]));
            return None;
        }
        let digit: u32 = glyph as u32 - '0' as u32;
        let longer: u32 = value * 10 + digit;
        assert(longer == decimal_value(more));
        if longer > 0xFFFF {
            proof {
                lemma_value_grows(digits, index - start + 1);
            }
            return None;
        }
        assert forall|i: int| 0 <= i < more.len() implies is_digit(#[trigger] more[i]) by {
            if i < seen.len() {
                assert(more[i] == seen[i]);
            }
        }
        value = longer;
        index += 1;
    }
    assert(digits.take(index - start) == digits);
    Some(value as u16)
}

} // verus!
