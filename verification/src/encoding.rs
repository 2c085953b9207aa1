//! UTF-16, the native text encoding of the tracing facility.
//!
//! The control structure's text regions and the provider names returned by
//! enumeration are sequences of 16-bit units. The two spec functions here
//! state the encoding exactly; the executable conversions are std's and are
//! trusted to meet them.

use vstd::prelude::*;

verus! {

/// The UTF-16 encoding of one Unicode scalar value: itself as one unit
/// below 0x10000, a surrogate pair above.
pub open spec fn utf16_encode_char(c: char) -> Seq<u16> {
    if (c as u32) < 0x10000 {
        seq![(c as u32) as u16]
    } else {
        seq![
            (0xD800 + ((c as u32) - 0x10000) / 0x400) as u16,
            (0xDC00 + ((c as u32) - 0x10000) % 0x400) as u16,
        ]
    }
}

/// The UTF-16 encoding of a character sequence.
pub open spec fn utf16_of(s: Seq<char>) -> Seq<u16>
    decreases s.len(),
{
    if s.len() == 0 {
        Seq::empty()
    } else {
        utf16_encode_char(s[0]) + utf16_of(s.drop_first())
    }
}

pub open spec fn is_high_surrogate(u: u16) -> bool {
    0xD800 <= u && u <= 0xDBFF
}

pub open spec fn is_low_surrogate(u: u16) -> bool {
    0xDC00 <= u && u <= 0xDFFF
}

/// Lossy UTF-16 decoding: a high surrogate followed by a low surrogate
/// yields the supplementary character they encode, any unpaired surrogate
/// yields one replacement character (U+FFFD), and every other unit is its
/// own character.
pub open spec fn utf16_lossy_of(units: Seq<u16>) -> Seq<char>
    decreases units.len(),
{
    if units.len() == 0 {
        Seq::empty()
    } else if is_high_surrogate(units[0]) && units.len() >= 2 && is_low_surrogate(units[1]) {
        seq![((0x10000 + (units[0] - 0xD800) * 0x400 + (units[1] - 0xDC00)) as u32) as char]
            + utf16_lossy_of(units.skip(2))
    } else if is_high_surrogate(units[0]) || is_low_surrogate(units[0]) {
        seq![(0xFFFD as u32) as char] + utf16_lossy_of(units.skip(1))
    } else {
        seq![(units[0] as u32) as char] + utf16_lossy_of(units.skip(1))
    }
}

/// Relies on `str::encode_utf16`: it re-encodes the string's characters
/// as UTF-16, one or two units per character.
#[verifier::external_body]
pub(crate) fn encode_utf16_units(s: &str) -> (r: Vec<u16>)
    ensures
        r@ == utf16_of(s@),
{
    s.encode_utf16().collect()
}

/// Relies on `String::from_utf16_lossy`: it decodes UTF-16, replacing each
/// unpaired surrogate with the replacement character (U+FFFD).
#[verifier::external_body]
pub(crate) fn utf16_units_to_string(units: &[u16]) -> (r: String)
    ensures
        r@ == utf16_lossy_of(units@),
{
    String::from_utf16_lossy(units)
}

} // verus!
