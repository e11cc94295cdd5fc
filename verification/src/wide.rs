//! Text as the spooler takes it: UTF-16 code units with a terminating zero.

use vstd::prelude::*;

verus! {

/// The UTF-16 code units of a character: the character itself if it lies in
/// the basic plane, otherwise a high and a low surrogate that share the 20
/// bits of its distance from the end of that plane.
pub open spec fn utf16_units(c: char) -> Seq<u16> {
    let code = c as u32;
    if code < 0x10000 {
        seq![code as u16]
    } else {
        let above = code - 0x10000;
        seq![(0xD800 + above / 0x400) as u16, (0xDC00 + above % 0x400) as u16]
    }
}

/// The UTF-16 code units of a text.
pub open spec fn utf16(text: Seq<char>) -> Seq<u16>
    decreases text.len(),
{
    if text.len() == 0 {
        Seq::empty()
    } else {
        utf16(text.drop_last()) + utf16_units(text.last())
    }
}

/// A text as a wide string: its UTF-16 code units and a zero after them.
pub open spec fn wide(text: Seq<char>) -> Seq<u16> {
    utf16(text).push(0u16)
}

/// A character takes one code unit or two.
pub proof fn lemma_utf16_len(text: Seq<char>)
    ensures
        text.len() <= utf16(text).len() <= 2 * text.len(),
    decreases text.len(),
{
    if text.len() > 0 {
        lemma_utf16_len(text.drop_last());
    }
}

/// Encodes a text as a wide string.
pub fn to_wide(input: &str) -> (units: Vec<u16>)
    ensures
        units@ == wide(input@),
{
    let mut units: Vec<u16> = Vec::new();
    for c in it: input.chars()
        invariant
            it.seq() == input@,
            units@ == utf16(input@.take(it.index() as int)),
    {
        proof {
            let next = input@.take(it.index() + 1);
            assert(next.drop_last() =~= input@.take(it.index() as int));
            assert(next.last() == c);
        }
        let code: u32 = c as u32;
        if code < 0x10000 {
            units.push(code as u16);
        } else {
            let above: u32 = code - 0x10000;
            units.push((0xD800 + above / 0x400) as u16);
            units.push((0xDC00 + above % 0x400) as u16);
        }
        assert(units@ =~= utf16(input@.take(it.index() as int)) + utf16_units(c));
    }
    assert(input@.take(input@.len() as int) =~= input@);
    units.push(0u16);
    units
}

} // verus!
