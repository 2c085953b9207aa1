//! Parsing of textual provider identifiers.
//!
//! A provider is addressed by a 128-bit globally unique identifier, written
//! as 32 hexadecimal digits in five dash-separated groups of 8, 4, 4, 4 and
//! 12 digits. Parsing validates that shape and converts the digit groups to
//! their binary values; any other text is rejected with `None`.

use vstd::prelude::*;
use vstd::string::StringSliceAdditionalSpecFns;

verus! {

/// A 128-bit globally unique identifier, in the facility's native grouping:
/// one 32-bit group, two 16-bit groups, and eight bytes.
#[derive(Clone, Copy, Debug, PartialEq, Eq)]
pub struct Guid {
    pub data1: u32,
    pub data2: u16,
    pub data3: u16,
    pub data4: [u8; 8],
}

/// The mathematical model of a [`Guid`]: the same groups, the bytes as a
/// sequence.
pub struct GuidV {
    pub data1: u32,
    pub data2: u16,
    pub data3: u16,
    pub data4: Seq<u8>,
}

impl View for Guid {
    type V = GuidV;

    open spec fn view(&self) -> GuidV {
        GuidV { data1: self.data1, data2: self.data2, data3: self.data3, data4: self.data4@ }
    }
}

/// An ASCII hexadecimal digit, either case.
pub open spec fn is_hex_digit(b: u8) -> bool {
    (48 <= b && b <= 57) || (65 <= b && b <= 70) || (97 <= b && b <= 102)
}

/// The value of an ASCII hexadecimal digit (zero for any other byte).
pub open spec fn hex_val(b: u8) -> u8 {
    if 48 <= b && b <= 57 {
        (b - 48) as u8
    } else if 65 <= b && b <= 70 {
        (b - 55) as u8
    } else if 97 <= b && b <= 102 {
        (b - 87) as u8
    } else {
        0
    }
}

/// The value of the two hexadecimal digits at `i`.
pub open spec fn spec_hex2(s: Seq<u8>, i: int) -> u8 {
    (hex_val(s[i]) * 16 + hex_val(s[i + 1])) as u8
}

/// The value of the four hexadecimal digits at `i`.
pub open spec fn spec_hex4(s: Seq<u8>, i: int) -> u16 {
    (spec_hex2(s, i) * 256 + spec_hex2(s, i + 2)) as u16
}

/// The value of the eight hexadecimal digits at `i`.
pub open spec fn spec_hex8(s: Seq<u8>, i: int) -> u32 {
    (spec_hex4(s, i) * 65536 + spec_hex4(s, i + 4)) as u32
}

/// The four positions that carry the separating dashes.
pub open spec fn is_dash_position(i: int) -> bool {
    i == 8 || i == 13 || i == 18 || i == 23
}

/// Identifier text in its valid shape: 36 bytes, dashes at their four
/// positions, hexadecimal digits everywhere else.
pub open spec fn spec_guid_format_ok(s: Seq<u8>) -> bool {
    &&& s.len() == 36
    &&& s[8] == 45u8
    &&& s[13] == 45u8
    &&& s[18] == 45u8
    &&& s[23] == 45u8
    &&& forall|i: int| 0 <= i < 36 && !is_dash_position(i) ==> is_hex_digit(#[trigger] s[i])
}

/// The eight bytes of the last two digit groups, in text order.
pub open spec fn spec_data4_of(s: Seq<u8>) -> Seq<u8> {
    Seq::new(8, |i: int| spec_hex2(s, if i < 2 { 19 + 2 * i } else { 20 + 2 * i }))
}

/// The identifier encoded by valid identifier text; `None` for any other
/// byte sequence.
pub open spec fn spec_parse_guid(s: Seq<u8>) -> Option<GuidV> {
    if spec_guid_format_ok(s) {
        Some(
            GuidV {
                data1: spec_hex8(s, 0),
                data2: spec_hex4(s, 9),
                data3: spec_hex4(s, 14),
                data4: spec_data4_of(s),
            },
        )
    } else {
        None
    }
}

fn is_hex_digit_exec(b: u8) -> (r: bool)
    ensures
        r == is_hex_digit(b),
{
    (48 <= b && b <= 57) || (65 <= b && b <= 70) || (97 <= b && b <= 102)
}

fn hex_val_exec(b: u8) -> (v: u8)
    ensures
        v == hex_val(b),
        v <= 15,
{
    if 48 <= b && b <= 57 {
        b - 48
    } else if 65 <= b && b <= 70 {
        b - 55
    } else if 97 <= b && b <= 102 {
        b - 87
    } else {
        0
    }
}

fn read_hex2(b: &[u8], i: usize) -> (v: u8)
    requires
        i + 2 <= b@.len() <= usize::MAX,
    ensures
        v == spec_hex2(b@, i as int),
{
    hex_val_exec(b[i]) * 16 + hex_val_exec(b[i + 1])
}

fn read_hex4(b: &[u8], i: usize) -> (v: u16)
    requires
        i + 4 <= b@.len() <= usize::MAX,
    ensures
        v == spec_hex4(b@, i as int),
{
    (read_hex2(b, i) as u16) * 256 + (read_hex2(b, i + 2) as u16)
}

fn read_hex8(b: &[u8], i: usize) -> (v: u32)
    requires
        i + 8 <= b@.len() <= usize::MAX,
    ensures
        v == spec_hex8(b@, i as int),
{
    (read_hex4(b, i) as u32) * 65536 + (read_hex4(b, i + 4) as u32)
}

/// Parses identifier text: `Some` exactly on text in the valid
/// dash-separated hexadecimal shape, carrying the encoded 128-bit value.
pub fn parse_guid(text: &str) -> (r: Option<Guid>)
    ensures
        r is Some <==> spec_guid_format_ok(text.spec_bytes()),
        r matches Some(g) ==> Some(g@) == spec_parse_guid(text.spec_bytes()),
{
    let b: &[u8] = text.as_bytes();
    if b.len() != 36 {
        return None;
    }
    if !(b[8] == 45 && b[13] == 45 && b[18] == 45 && b[23] == 45) {
        return None;
    }
    let mut i: usize = 0;
    while i < 36
        invariant
            b@ == text.spec_bytes(),
            b@.len() == 36,
            i <= 36,
            forall|j: int| 0 <= j < i && !is_dash_position(j) ==> is_hex_digit(#[trigger] b@[j]),
        decreases 36 - i,
    {
        if !(i == 8 || i == 13 || i == 18 || i == 23) {
            if !is_hex_digit_exec(b[i]) {
                proof {
                    assert(!spec_guid_format_ok(text.spec_bytes())) by {
                        if spec_guid_format_ok(text.spec_bytes()) {
                            assert(is_hex_digit(text.spec_bytes()[i as int]));
                        }
                    }
                }
                return None;
            }
        }
        i = i + 1;
    }
    let g = Guid {
        data1: read_hex8(b, 0),
        data2: read_hex4(b, 9),
        data3: read_hex4(b, 14),
        data4: [
            read_hex2(b, 19),
            read_hex2(b, 21),
            read_hex2(b, 24),
            read_hex2(b, 26),
            read_hex2(b, 28),
            read_hex2(b, 30),
            read_hex2(b, 32),
            read_hex2(b, 34),
        ],
    };
    proof {
        assert(g@.data4 =~= spec_data4_of(b@));
    }
    Some(g)
}

/// Conversion out of a textual form, where the text may not be in the
/// expected shape.
pub trait TryParse<T> {
    /// What the result of parsing this value must satisfy: the implementor
    /// says here, exactly, when parsing succeeds and what value it yields.
    spec fn parse_result_ok(&self, r: Option<T>) -> bool;

    fn try_parse(&self) -> (r: Option<T>)
        ensures
            self.parse_result_ok(r),
    ;
}

impl TryParse<Guid> for &str {
    /// `Some` exactly on text in the valid dash-separated hexadecimal
    /// shape, and then exactly the identifier that text encodes.
    open spec fn parse_result_ok(&self, r: Option<Guid>) -> bool {
        match r {
            Some(g) => Some(g@) == spec_parse_guid(self.spec_bytes()),
            None => spec_parse_guid(self.spec_bytes()) is None,
        }
    }

    fn try_parse(&self) -> (r: Option<Guid>) {
        parse_guid(*self)
    }
}

} // verus!
