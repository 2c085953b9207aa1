//! Provider enumeration: the two-phase sizing protocol and the decoding of
//! the packed provider buffer.
//!
//! The facility reports the registered providers through one query that is
//! called twice: once with no output buffer, to learn the required byte
//! size, and once with a buffer of exactly that size, to fill it. The calls
//! are operating-system I/O and happen outside this library; the step
//! functions here decide, from each status word, whether to finish, to call
//! again, or to fail, and the retry after a fill that found the buffer too
//! small (the provider count grew between the calls) is bounded. Decoding
//! of the filled buffer is pure and fully verified: a header carries the
//! provider count, fixed-size records follow, and each record points at a
//! null-terminated UTF-16 name elsewhere in the buffer, read under a bound
//! so that a corrupt offset can never reach past the buffer.

use vstd::prelude::*;

use vstd::arithmetic::mul::lemma_mul_inequality;
use vstd::bytes::{spec_u16_from_le_bytes, spec_u32_from_le_bytes, u16_from_le_bytes,
    u32_from_le_bytes};

use crate::encoding::{utf16_lossy_of, utf16_units_to_string};
use crate::guid::{Guid, GuidV};
use crate::result::{TraceError, ERROR_INSUFFICIENT_BUFFER, ERROR_SUCCESS};

verus! {

/// Size of the enumeration buffer's header: the provider count and a
/// reserved word.
pub const ENUM_HEADER_BYTES: usize = 8;

/// Size of one packed provider record: a 16-byte identifier, the schema
/// source, and the byte offset of the name.
pub const PROVIDER_RECORD_BYTES: usize = 24;

/// How many more fill calls may follow the first one when the buffer turns
/// out to be too small again (the environment raced the sizing call).
pub const FILL_RETRY_LIMIT: u32 = 1;

/// One registered provider, as enumeration reports it.
#[derive(Debug)]
pub struct ProviderInfo {
    /// The provider's human-readable name.
    pub name: String,
    /// The provider's 128-bit identifier.
    pub guid: Guid,
    /// Where the provider's event-schema metadata originates.
    pub schema_source: u32,
}

/// The mathematical model of a [`ProviderInfo`].
pub struct ProviderInfoV {
    pub name: Seq<char>,
    pub guid: GuidV,
    pub schema_source: u32,
}

impl View for ProviderInfo {
    type V = ProviderInfoV;

    open spec fn view(&self) -> ProviderInfoV {
        ProviderInfoV { name: self.name@, guid: self.guid@, schema_source: self.schema_source }
    }
}

/// The provider count in the buffer's header.
pub open spec fn spec_provider_count(b: Seq<u8>) -> int {
    spec_u32_from_le_bytes(b.subrange(0, 4)) as int
}

/// The byte offset of record `i`.
pub open spec fn spec_record_offset(i: int) -> int {
    ENUM_HEADER_BYTES + i * PROVIDER_RECORD_BYTES
}

/// The identifier stored in the 16 bytes at `off`: a little-endian 32-bit
/// group, two little-endian 16-bit groups, and eight plain bytes.
pub open spec fn spec_guid_at(b: Seq<u8>, off: int) -> GuidV {
    GuidV {
        data1: spec_u32_from_le_bytes(b.subrange(off, off + 4)),
        data2: spec_u16_from_le_bytes(b.subrange(off + 4, off + 6)),
        data3: spec_u16_from_le_bytes(b.subrange(off + 6, off + 8)),
        data4: b.subrange(off + 8, off + 16),
    }
}

/// The 16-bit units of the name that starts at byte offset `off`: read in
/// little-endian pairs up to but not including the null terminator, and
/// never past the end of the buffer.
pub open spec fn spec_name_units(b: Seq<u8>, off: int) -> Seq<u16>
    decreases b.len() - off,
{
    if off < 0 || off + 2 > b.len() {
        Seq::empty()
    } else {
        let unit = spec_u16_from_le_bytes(b.subrange(off, off + 2));
        if unit == 0 {
            Seq::empty()
        } else {
            seq![unit] + spec_name_units(b, off + 2)
        }
    }
}

/// The provider described by record `i`.
pub open spec fn spec_decode_record(b: Seq<u8>, i: int) -> ProviderInfoV {
    let off = spec_record_offset(i);
    ProviderInfoV {
        name: utf16_lossy_of(
            spec_name_units(b, spec_u32_from_le_bytes(b.subrange(off + 20, off + 24)) as int),
        ),
        guid: spec_guid_at(b, off),
        schema_source: spec_u32_from_le_bytes(b.subrange(off + 16, off + 20)),
    }
}

/// The providers described by a filled buffer, or `None` for a buffer too
/// small to hold the count its own header declares.
pub open spec fn spec_decode_providers(b: Seq<u8>) -> Option<Seq<ProviderInfoV>> {
    if b.len() < ENUM_HEADER_BYTES {
        None
    } else if ENUM_HEADER_BYTES + spec_provider_count(b) * PROVIDER_RECORD_BYTES > b.len() {
        None
    } else {
        Some(Seq::new(spec_provider_count(b) as nat, |i: int| spec_decode_record(b, i)))
    }
}

fn scan_name_units(b: &[u8], start: u32) -> (units: Vec<u16>)
    ensures
        units@ == spec_name_units(b@, start as int),
{
    let len = b.len();
    let mut units: Vec<u16> = Vec::new();
    if (start as u64) + 2 > (len as u64) {
        assert(spec_name_units(b@, start as int) =~= Seq::empty());
        return units;
    }
    let mut cur: usize = start as usize;
    let mut stopped = false;
    proof {
        assert(Seq::<u16>::empty() + spec_name_units(b@, start as int) =~= spec_name_units(
            b@,
            start as int,
        ));
    }
    while !stopped && len - cur >= 2
        invariant
            len == b@.len(),
            cur <= len,
            spec_name_units(b@, start as int) == units@ + (if stopped {
                Seq::<u16>::empty()
            } else {
                spec_name_units(b@, cur as int)
            }),
        decreases len - cur + (if stopped { 0int } else { 1int }),
    {
        let ghost units_before = units@;
        let unit = u16_from_le_bytes(&b[cur..cur + 2]);
        if unit == 0 {
            stopped = true;
            assert(spec_name_units(b@, cur as int) =~= Seq::empty());
        } else {
            units.push(unit);
            proof {
                assert(spec_name_units(b@, cur as int) == seq![unit] + spec_name_units(
                    b@,
                    cur as int + 2,
                ));
                assert(units_before + spec_name_units(b@, cur as int) =~= units@
                    + spec_name_units(b@, cur as int + 2));
            }
            cur = cur + 2;
        }
    }
    proof {
        if !stopped {
            assert(spec_name_units(b@, cur as int) =~= Seq::empty());
        }
        assert(units@ + Seq::<u16>::empty() =~= units@);
    }
    units
}

/// Decodes a filled enumeration buffer: the header's provider count, then
/// that many records, each with its identifier, schema source, and the name
/// its offset points at. `None` exactly when the buffer cannot hold the
/// count its own header declares.
pub fn decode_provider_buffer(buffer: &[u8]) -> (r: Option<Vec<ProviderInfo>>)
    ensures
        match r {
            Some(v) => spec_decode_providers(buffer@) == Some(
                v@.map_values(|p: ProviderInfo| p@),
            ),
            None => spec_decode_providers(buffer@) is None,
        },
{
    if buffer.len() < ENUM_HEADER_BYTES {
        return None;
    }
    let count = u32_from_le_bytes(&buffer[0..4]);
    let needed: u64 = (ENUM_HEADER_BYTES as u64) + (count as u64) * (PROVIDER_RECORD_BYTES as u64);
    if needed > (buffer.len() as u64) {
        return None;
    }
    let count_us = count as usize;
    let mut result: Vec<ProviderInfo> = Vec::new();
    let mut i: usize = 0;
    while i < count_us
        invariant
            ENUM_HEADER_BYTES <= buffer@.len() <= usize::MAX,
            count_us == spec_provider_count(buffer@),
            ENUM_HEADER_BYTES + count_us * PROVIDER_RECORD_BYTES <= buffer@.len(),
            i <= count_us,
            result@.len() == i,
            forall|j: int| 0 <= j < i ==> (#[trigger] result@[j])@ == spec_decode_record(
                buffer@,
                j,
            ),
        decreases count_us - i,
    {
        proof {
            lemma_mul_inequality(i as int, count_us as int, PROVIDER_RECORD_BYTES as int);
            lemma_mul_inequality(i as int + 1, count_us as int, PROVIDER_RECORD_BYTES as int);
        }
        let off = ENUM_HEADER_BYTES + i * PROVIDER_RECORD_BYTES;
        let d1 = u32_from_le_bytes(&buffer[off..off + 4]);
        let d2 = u16_from_le_bytes(&buffer[off + 4..off + 6]);
        let d3 = u16_from_le_bytes(&buffer[off + 6..off + 8]);
        let data4: [u8; 8] = [
            buffer[off + 8],
            buffer[off + 9],
            buffer[off + 10],
            buffer[off + 11],
            buffer[off + 12],
            buffer[off + 13],
            buffer[off + 14],
            buffer[off + 15],
        ];
        let schema_source = u32_from_le_bytes(&buffer[off + 16..off + 20]);
        let name_offset = u32_from_le_bytes(&buffer[off + 20..off + 24]);
        let units = scan_name_units(buffer, name_offset);
        let name = utf16_units_to_string(units.as_slice());
        let info = ProviderInfo {
            name,
            guid: Guid { data1: d1, data2: d2, data3: d3, data4 },
            schema_source,
        };
        proof {
            assert(info@.guid.data4 =~= buffer@.subrange(off as int + 8, off as int + 16));
            assert(info@ == spec_decode_record(buffer@, i as int));
        }
        result.push(info);
        i = i + 1;
    }
    proof {
        assert(result@.map_values(|p: ProviderInfo| p@) =~= spec_decode_providers(
            buffer@,
        ).unwrap());
    }
    Some(result)
}

/// What the sizing phase decided.
#[derive(Clone, Copy, Debug, PartialEq, Eq, Structural)]
pub enum SizingStep {
    /// No providers are registered: the result is the empty list, and no
    /// fill call is made.
    Empty,
    /// Call again with a buffer of `size` bytes.
    Fill { size: u32 },
    /// The sizing call violated the protocol.
    Fail { error: TraceError },
}

/// What the answer to the sizing call means. Success and the
/// insufficient-buffer status are both expected there (the call was made
/// with no output buffer on purpose); anything else fails the enumeration.
pub open spec fn spec_sizing_step(status: u32, required_size: u32) -> SizingStep {
    if status == ERROR_SUCCESS || status == ERROR_INSUFFICIENT_BUFFER {
        if required_size == 0 {
            SizingStep::Empty
        } else {
            SizingStep::Fill { size: required_size }
        }
    } else {
        SizingStep::Fail { error: TraceError::SizingFailed(status) }
    }
}

/// Interprets the status word and required byte size the sizing call
/// returned. A required size of zero means no providers are registered:
/// the enumeration finishes with the empty list, without error.
pub fn sizing_step(status: u32, required_size: u32) -> (r: SizingStep)
    ensures
        r == spec_sizing_step(status, required_size),
        (status == ERROR_SUCCESS || status == ERROR_INSUFFICIENT_BUFFER) && required_size == 0
            ==> r == SizingStep::Empty,
{
    if status == ERROR_SUCCESS || status == ERROR_INSUFFICIENT_BUFFER {
        if required_size == 0 {
            SizingStep::Empty
        } else {
            SizingStep::Fill { size: required_size }
        }
    } else {
        SizingStep::Fail { error: TraceError::SizingFailed(status) }
    }
}

/// What the fill phase decided.
#[derive(Clone, Copy, Debug, PartialEq, Eq, Structural)]
pub enum FillStep {
    /// The buffer was filled: decode it.
    Decode,
    /// The buffer was too small again; call once more with `size` bytes.
    Retry { size: u32, retries_left: u32 },
    /// The fill call failed, or the retry bound is spent.
    Fail { error: TraceError },
}

/// What the answer to a fill call means. A second insufficient-buffer
/// answer is retried while `retries_left` allows, each retry spending one;
/// at zero it fails rather than looping against an environment whose
/// provider count keeps growing.
pub open spec fn spec_fill_step(retries_left: u32, status: u32, required_size: u32) -> FillStep {
    if status == ERROR_SUCCESS {
        FillStep::Decode
    } else if status == ERROR_INSUFFICIENT_BUFFER && retries_left > 0 {
        FillStep::Retry { size: required_size, retries_left: (retries_left - 1) as u32 }
    } else {
        FillStep::Fail { error: TraceError::FillFailed(status) }
    }
}

/// Interprets the status word and (re-)required byte size a fill call
/// returned.
pub fn fill_step(retries_left: u32, status: u32, required_size: u32) -> (r: FillStep)
    ensures
        r == spec_fill_step(retries_left, status, required_size),
{
    if status == ERROR_SUCCESS {
        FillStep::Decode
    } else if status == ERROR_INSUFFICIENT_BUFFER && retries_left > 0 {
        FillStep::Retry { size: required_size, retries_left: retries_left - 1 }
    } else {
        FillStep::Fail { error: TraceError::FillFailed(status) }
    }
}

/// Law: the fill phase never loops. From the initial retry allowance, an
/// insufficient-buffer answer leads to exactly one further fill call, and
/// an insufficient-buffer answer to that one fails the enumeration with
/// `FillFailed` instead of calling again.
pub proof fn lemma_fill_retry_bounded(status1: u32, size1: u32, status2: u32, size2: u32)
    requires
        status1 == ERROR_INSUFFICIENT_BUFFER,
        status2 == ERROR_INSUFFICIENT_BUFFER,
    ensures
        spec_fill_step(FILL_RETRY_LIMIT, status1, size1) == (FillStep::Retry {
            size: size1,
            retries_left: 0u32,
        }),
        spec_fill_step(0, status2, size2) == (FillStep::Fail {
            error: TraceError::FillFailed(status2),
        }),
        forall|r: u32|
            r > 0 ==> #[trigger] spec_fill_step(r, status1, size1) == (FillStep::Retry {
                size: size1,
                retries_left: (r - 1) as u32,
            }),
{
}

/// Finishes an enumeration whose fill call succeeded: decodes the buffer.
/// A buffer that cannot hold the provider count its own header declares is
/// the facility violating its own protocol and is fatal.
pub fn finish_enumeration(buffer: &[u8]) -> (r: Result<Vec<ProviderInfo>, TraceError>)
    ensures
        match r {
            Ok(v) => spec_decode_providers(buffer@) == Some(v@.map_values(|p: ProviderInfo| p@)),
            Err(e) => spec_decode_providers(buffer@) is None && e == TraceError::FatalOsFault,
        },
{
    match decode_provider_buffer(buffer) {
        Some(v) => Ok(v),
        None => Err(TraceError::FatalOsFault),
    }
}

} // verus!
