//! Small helpers on strings that the parsers and the generators share.

use vstd::prelude::*;
use vstd::string::*;

verus! {

/// Whether two string slices hold the same characters.
pub fn same_text(a: &str, b: &str) -> (same: bool)
    ensures
        same == (a@ == b@),
{
    a.to_owned() == b.to_owned()
}

/// `head`, then `middle`, then `tail`, as one owned string.
pub fn join3(head: &str, middle: &str, tail: &str) -> (joined: String)
    ensures
        joined@ == head@ + middle@ + tail@,
{
    let mut joined = String::from_str(head);
    joined.append(middle);
    joined.append(tail);
    joined
}

/// The characters of `text`, one element for each.
pub fn chars_of(text: &str) -> (chars: Vec<char>)
    ensures
        chars@ == text@,
{
    let mut chars: Vec<char> = Vec::new();
    for c in it: text.chars()
        invariant
            it.seq() == text@,
            chars@ == it.seq().take(it.index() as int),
    {
        chars.push(c);
    }
    chars
}

/// Puts `glyph` at the end of `text`, with `String::push`: afterwards the
/// string holds its former characters followed by the new one.
#[verifier::external_body]
pub(crate) fn push_char(text: &mut String, glyph: char)
    ensures
        final(text)@ == old(text)@.push(glyph),
{
    text.push(glyph);
}

} // verus!
