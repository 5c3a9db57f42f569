//! Text as firmware wants it: UTF-16 code units closed by a zero unit.

use vstd::prelude::*;
use vstd::string::*;

verus! {

/// The UTF-16 code units of one character: the character itself below
/// `0x10000`, a high and a low surrogate above.
pub open spec fn utf16_units(c: char) -> Seq<u16> {
    let v = c as u32;
    if v < 0x10000 {
        seq![v as u16]
    } else {
        seq![
            (0xD800 + (v - 0x10000) / 0x400) as u16,
            (0xDC00 + (v - 0x10000) % 0x400) as u16,
        ]
    }
}

/// The UTF-16 encoding of a text, character after character.
pub open spec fn utf16_of(text: Seq<char>) -> Seq<u16>
    decreases text.len(),
{
    if text.len() == 0 {
        Seq::empty()
    } else {
        utf16_of(text.drop_last()) + utf16_units(text.last())
    }
}

/// A text in firmware's convention: its UTF-16 encoding and a closing zero.
pub open spec fn wide_string(text: Seq<char>) -> Seq<u16> {
    utf16_of(text).push(0u16)
}

/// Every text encodes to at least one and at most two units per character.
pub proof fn lemma_utf16_len(text: Seq<char>)
    ensures
        text.len() <= utf16_of(text).len() <= 2 * text.len(),
    decreases text.len(),
{
    if text.len() > 0 {
        lemma_utf16_len(text.drop_last());
    }
}

/// Transcodes a text to a zero-terminated wide string.
pub fn str_to_utf16(text: &str) -> (units: Vec<u16>)
    ensures
        units@ == wide_string(text@),
        text@.len() < units@.len() <= 2 * text@.len() + 1,
{
    let n: usize = text.unicode_len();
    let mut units: Vec<u16> = Vec::new();
    let mut i: usize = 0;
    assert(text@.subrange(0, 0) =~= Seq::<char>::empty());
    while i < n
        invariant
            n == text@.len(),
            i <= n,
            units@ == utf16_of(text@.subrange(0, i as int)),
        decreases n - i,
    {
        let c: char = text.get_char(i);
        let v: u32 = c as u32;
        proof {
            let next = text@.subrange(0, i + 1);
            assert(next.drop_last() =~= text@.subrange(0, i as int));
            assert(next.last() == c);
        }
        if v < 0x10000 {
            units.push(v as u16);
        } else {
            let rest: u32 = v - 0x10000;
            units.push((0xD800 + rest / 0x400) as u16);
            units.push((0xDC00 + rest % 0x400) as u16);
        }
        assert(units@ =~= utf16_of(text@.subrange(0, i as int)) + utf16_units(c));
        i = i + 1;
    }
    assert(text@.subrange(0, n as int) =~= text@);
    proof {
        lemma_utf16_len(text@);
    }
    units.push(0u16);
    units
}

} // verus!
