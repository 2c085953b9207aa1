//! The binary control structure of the tracing facility and the decision
//! logic of the start/stop session lifecycle.
//!
//! The facility exchanges one contiguous record per control call: a fixed
//! header followed by two fixed-capacity UTF-16 text regions, the session
//! ("logger") name and the log-file path. The header carries the byte
//! offsets of the two regions and the total size of the record; the
//! facility trusts these fields, so they are computed here from the layout
//! constants and never taken from a caller. A name or path whose encoding
//! does not fit its region is rejected with `CapacityExceeded` before any
//! facility call is made, never silently truncated: a truncated session
//! name could collide with another session's. The facility calls themselves
//! are operating-system I/O and happen outside this library; the functions
//! at the end of this module take the status words those calls return and
//! decide what they mean.

use vstd::prelude::*;

use crate::encoding::{encode_utf16_units, utf16_of};
use crate::result::{TraceError, ERROR_SUCCESS, ERROR_WMI_INSTANCE_NOT_FOUND};

verus! {

/// Capacity of each text region, in 16-bit units.
pub const TEXT_REGION_CAPACITY: usize = 256;

/// Size of the fixed header, in bytes.
pub const HEADER_BYTES: u32 = 120;

/// Size of one text region, in bytes.
pub const TEXT_REGION_BYTES: u32 = 512;

/// Byte offset of the session-name region within the structure.
pub const LOGGER_NAME_OFFSET: u32 = 120;

/// Byte offset of the log-file-path region within the structure.
pub const LOG_FILE_NAME_OFFSET: u32 = 632;

/// Total size of the structure, in bytes.
pub const PROPERTIES_TOTAL_BYTES: u32 = 1144;

/// Header flag: the session is addressed by a traced identifier.
pub const WNODE_FLAG_TRACED_GUID: u32 = 0x0002_0000;

/// Log-file mode: events are written to the file sequentially.
pub const EVENT_TRACE_FILE_MODE_SEQUENTIAL: u32 = 0x0000_0001;

/// Buffer size, in kilobyte units, of a freshly started session.
pub const START_BUFFER_SIZE: u32 = 1024;

/// Buffer-pool size of a freshly started session.
pub const START_MINIMUM_BUFFERS: u32 = 300;

/// Flush interval, in seconds, of a freshly started session.
pub const START_FLUSH_TIMER: u32 = 1;

/// Operation code of the control call that queries a session.
pub const EVENT_TRACE_CONTROL_QUERY: u32 = 0;

/// Operation code of the control call that stops a session.
pub const EVENT_TRACE_CONTROL_STOP: u32 = 1;

/// Control code of the call that enables a provider on a session.
pub const EVENT_CONTROL_CODE_ENABLE_PROVIDER: u32 = 1;

/// Logging level at which the provider is enabled: verbose, the maximum.
pub const TRACE_LEVEL_VERBOSE: u8 = 5;

/// Timeout of the enable call: none — tracing runs until explicitly
/// stopped.
pub const ENABLE_TIMEOUT_INFINITE: u32 = 0xFFFF_FFFF;

/// The sentinel handle of a control call that addresses a session by its
/// name alone.
pub const SESSION_BY_NAME_HANDLE: u64 = 0;

/// The control structure the facility reads and writes, modelled with its
/// header fields as plain values and its two text regions as unit vectors
/// of exactly [`TEXT_REGION_CAPACITY`] units each.
#[derive(Debug)]
pub struct EventTraceProperties {
    /// Header: total size of the structure, in bytes.
    pub wnode_buffer_size: u32,
    /// Header: structure-wide flags.
    pub wnode_flags: u32,
    /// Header: size of one event buffer, in kilobyte units.
    pub buffer_size: u32,
    /// Header: number of buffers in the session's pool.
    pub minimum_buffers: u32,
    /// Header: how the log file is written.
    pub log_file_mode: u32,
    /// Header: flush interval, in seconds.
    pub flush_timer: u32,
    /// Header: byte offset of the log-file-path region.
    pub log_file_name_offset: u32,
    /// Header: byte offset of the session-name region.
    pub logger_name_offset: u32,
    /// The session-name region.
    pub logger_name: Vec<u16>,
    /// The log-file-path region.
    pub log_file_name: Vec<u16>,
}

/// A text region: the encoded text followed by zero units up to capacity.
pub open spec fn padded_region(s: Seq<u16>) -> Seq<u16> {
    Seq::new(
        TEXT_REGION_CAPACITY as nat,
        |i: int| if i < s.len() { s[i] } else { 0u16 },
    )
}

impl EventTraceProperties {
    /// The layout invariant the facility relies on: the offset fields equal
    /// the actual offsets of the regions, the size field equals the actual
    /// total size, and each region has exactly its fixed capacity.
    pub open spec fn wf(self) -> bool {
        &&& self.logger_name@.len() == TEXT_REGION_CAPACITY
        &&& self.log_file_name@.len() == TEXT_REGION_CAPACITY
        &&& self.logger_name_offset == LOGGER_NAME_OFFSET
        &&& self.log_file_name_offset == LOG_FILE_NAME_OFFSET
        &&& self.wnode_buffer_size == PROPERTIES_TOTAL_BYTES
    }

    /// Re-slicing the structure at a byte offset taken from its header:
    /// the text region that starts at that offset, if one does.
    pub open spec fn region_at(self, offset: u32) -> Option<Seq<u16>> {
        if offset == LOGGER_NAME_OFFSET {
            Some(self.logger_name@)
        } else if offset == LOG_FILE_NAME_OFFSET {
            Some(self.log_file_name@)
        } else {
            None
        }
    }

    /// What construction from a name and a path guarantees: a well-formed
    /// structure whose header offsets re-slice it to the padded encodings
    /// of exactly the texts given.
    pub open spec fn built_from(self, name: Seq<char>, file: Seq<char>) -> bool {
        &&& self.wf()
        &&& self.region_at(self.logger_name_offset) == Some(padded_region(utf16_of(name)))
        &&& self.region_at(self.log_file_name_offset) == Some(padded_region(utf16_of(file)))
    }

    /// Both texts fit their regions.
    pub open spec fn fits(name: Seq<char>, file: Seq<char>) -> bool {
        utf16_of(name).len() <= TEXT_REGION_CAPACITY
            && utf16_of(file).len() <= TEXT_REGION_CAPACITY
    }

    /// The query/stop configuration: only the layout fields are set.
    pub fn new(session_name: &str) -> (r: Result<EventTraceProperties, TraceError>)
        ensures
            r is Ok <==> Self::fits(session_name@, Seq::empty()),
            r matches Ok(p) ==> p.built_from(session_name@, Seq::empty())
                && p.wnode_flags == 0
                && p.buffer_size == 0
                && p.minimum_buffers == 0
                && p.log_file_mode == 0
                && p.flush_timer == 0,
            r matches Err(e) ==> e == TraceError::CapacityExceeded,
    {
        proof {
            reveal_strlit("");
            assert(""@ =~= Seq::<char>::empty());
        }
        Self::basic(session_name, "")
    }

    /// A plain configuration carrying a name and a log-file path: only the
    /// layout fields are set.
    pub fn new_with_file(session_name: &str, file: &str) -> (r: Result<
        EventTraceProperties,
        TraceError,
    >)
        ensures
            r is Ok <==> Self::fits(session_name@, file@),
            r matches Ok(p) ==> p.built_from(session_name@, file@)
                && p.wnode_flags == 0
                && p.buffer_size == 0
                && p.minimum_buffers == 0
                && p.log_file_mode == 0
                && p.flush_timer == 0,
            r matches Err(e) ==> e == TraceError::CapacityExceeded,
    {
        Self::basic(session_name, file)
    }

    fn basic(session_name: &str, file: &str) -> (r: Result<EventTraceProperties, TraceError>)
        ensures
            r is Ok <==> Self::fits(session_name@, file@),
            r matches Ok(p) ==> p.built_from(session_name@, file@)
                && p.wnode_flags == 0
                && p.buffer_size == 0
                && p.minimum_buffers == 0
                && p.log_file_mode == 0
                && p.flush_timer == 0,
            r matches Err(e) ==> e == TraceError::CapacityExceeded,
    {
        let name_units = encode_utf16_units(session_name);
        let file_units = encode_utf16_units(file);
        if name_units.len() > TEXT_REGION_CAPACITY || file_units.len() > TEXT_REGION_CAPACITY {
            return Err(TraceError::CapacityExceeded);
        }
        let logger_name = fill_region(&name_units);
        let log_file_name = fill_region(&file_units);
        Ok(EventTraceProperties {
            wnode_buffer_size: PROPERTIES_TOTAL_BYTES,
            wnode_flags: 0,
            buffer_size: 0,
            minimum_buffers: 0,
            log_file_mode: 0,
            flush_timer: 0,
            log_file_name_offset: LOG_FILE_NAME_OFFSET,
            logger_name_offset: LOGGER_NAME_OFFSET,
            logger_name,
            log_file_name,
        })
    }
}

/// The start configuration: the plain structure of [`EventTraceProperties::new_with_file`]
/// with the traced-identifier flag, sequential file mode, and the start-time
/// buffer-pool sizing and flush interval.
pub fn start_properties(session_name: &str, file: &str) -> (r: Result<
    EventTraceProperties,
    TraceError,
>)
    ensures
        r is Ok <==> EventTraceProperties::fits(session_name@, file@),
        r matches Ok(p) ==> p.built_from(session_name@, file@)
            && p.wnode_flags == WNODE_FLAG_TRACED_GUID
            && p.buffer_size == START_BUFFER_SIZE
            && p.minimum_buffers == START_MINIMUM_BUFFERS
            && p.log_file_mode == EVENT_TRACE_FILE_MODE_SEQUENTIAL
            && p.flush_timer == START_FLUSH_TIMER,
        r matches Err(e) ==> e == TraceError::CapacityExceeded,
{
    match EventTraceProperties::new_with_file(session_name, file) {
        Ok(mut p) => {
            p.wnode_flags = WNODE_FLAG_TRACED_GUID;
            p.buffer_size = START_BUFFER_SIZE;
            p.log_file_mode = EVENT_TRACE_FILE_MODE_SEQUENTIAL;
            p.minimum_buffers = START_MINIMUM_BUFFERS;
            p.flush_timer = START_FLUSH_TIMER;
            Ok(p)
        },
        Err(e) => Err(e),
    }
}

/// Law: construction round-trips. Re-slicing a built structure at the
/// offsets its own header carries recovers the encoded name and path
/// exactly, unit for unit, with only zero padding after them.
pub proof fn lemma_build_round_trip(p: EventTraceProperties, name: Seq<char>, file: Seq<char>)
    requires
        p.built_from(name, file),
        EventTraceProperties::fits(name, file),
    ensures
        p.region_at(p.logger_name_offset) matches Some(r)
            && r.subrange(0, utf16_of(name).len() as int) == utf16_of(name)
            && (forall|i: int| utf16_of(name).len() <= i < r.len() ==> r[i] == 0u16),
        p.region_at(p.log_file_name_offset) matches Some(r)
            && r.subrange(0, utf16_of(file).len() as int) == utf16_of(file)
            && (forall|i: int| utf16_of(file).len() <= i < r.len() ==> r[i] == 0u16),
{
    let rn = padded_region(utf16_of(name));
    let rf = padded_region(utf16_of(file));
    assert(rn.subrange(0, utf16_of(name).len() as int) =~= utf16_of(name));
    assert(rf.subrange(0, utf16_of(file).len() as int) =~= utf16_of(file));
}

fn fill_region(units: &Vec<u16>) -> (r: Vec<u16>)
    requires
        units@.len() <= TEXT_REGION_CAPACITY,
    ensures
        r@ == padded_region(units@),
{
    let mut r: Vec<u16> = Vec::new();
    let mut i: usize = 0;
    while i < units.len()
        invariant
            i <= units@.len() <= TEXT_REGION_CAPACITY,
            r@ == units@.subrange(0, i as int),
        decreases units@.len() - i,
    {
        r.push(units[i]);
        assert(r@ =~= units@.subrange(0, i + 1 as int));
        i = i + 1;
    }
    assert(r@ =~= units@);
    while r.len() < TEXT_REGION_CAPACITY
        invariant
            units@.len() <= r@.len() <= TEXT_REGION_CAPACITY,
            r@.subrange(0, units@.len() as int) == units@,
            forall|j: int| units@.len() <= j < r@.len() ==> r@[j] == 0u16,
        decreases TEXT_REGION_CAPACITY - r@.len(),
    {
        let ghost old_r = r@;
        r.push(0u16);
        assert(r@.subrange(0, units@.len() as int) =~= old_r.subrange(0, units@.len() as int));
    }
    assert(r@ =~= padded_region(units@));
    r
}

/// What the facility's answer to a session-create call means.
pub open spec fn spec_interpret_start(status: u32, handle: u64) -> Result<u64, TraceError> {
    if status != ERROR_SUCCESS {
        Err(TraceError::StartFailed(status))
    } else if handle == 0 {
        Err(TraceError::FatalOsFault)
    } else {
        Ok(handle)
    }
}

/// Interprets the status word and session handle a create call returned:
/// a failure status wraps into `StartFailed`, a zero handle on success is
/// the facility violating its own guarantee, and otherwise the non-zero
/// handle is the result.
pub fn interpret_start(status: u32, handle: u64) -> (r: Result<u64, TraceError>)
    ensures
        r == spec_interpret_start(status, handle),
        r matches Ok(h) ==> h != 0,
{
    if status != ERROR_SUCCESS {
        Err(TraceError::StartFailed(status))
    } else if handle == 0 {
        Err(TraceError::FatalOsFault)
    } else {
        Ok(handle)
    }
}

/// What the facility's answer to a provider-enable call means.
pub open spec fn spec_interpret_enable(status: u32) -> Result<(), TraceError> {
    if status != ERROR_SUCCESS {
        Err(TraceError::EnableFailed(status))
    } else {
        Ok(())
    }
}

/// Interprets the status word a provider-enable call returned.
pub fn interpret_enable(status: u32) -> (r: Result<(), TraceError>)
    ensures
        r == spec_interpret_enable(status),
{
    if status != ERROR_SUCCESS {
        Err(TraceError::EnableFailed(status))
    } else {
        Ok(())
    }
}

/// What a query by session name found.
#[derive(Clone, Copy, Debug, PartialEq, Eq, Structural)]
pub enum QueryOutcome {
    /// No session of that name exists; an expected outcome, not an error.
    NotFound,
    /// The session exists; stop it through this handle.
    Stop { handle: u64 },
}

/// What the facility's answer to a query-by-name call means.
pub open spec fn spec_interpret_query(status: u32, historical_context: u64) -> Result<
    QueryOutcome,
    TraceError,
> {
    if status == ERROR_WMI_INSTANCE_NOT_FOUND {
        Ok(QueryOutcome::NotFound)
    } else if status != ERROR_SUCCESS {
        Err(TraceError::QueryFailed(status))
    } else if historical_context == 0 {
        Err(TraceError::FatalOsFault)
    } else {
        Ok(QueryOutcome::Stop { handle: historical_context })
    }
}

/// Interprets the answer to a query-by-name call: the status word and the
/// node-context field the call wrote back into the structure's header.
/// The instance-not-found status is the expected answer for a session that
/// was never started and is not an error; any other failure status wraps
/// into `QueryFailed`; on success a zero context is the facility violating
/// its own guarantee, and otherwise the context is the session's handle.
pub fn interpret_query(status: u32, historical_context: u64) -> (r: Result<
    QueryOutcome,
    TraceError,
>)
    ensures
        r == spec_interpret_query(status, historical_context),
        status == ERROR_WMI_INSTANCE_NOT_FOUND ==> r == Ok::<QueryOutcome, TraceError>(
            QueryOutcome::NotFound,
        ),
{
    if status == ERROR_WMI_INSTANCE_NOT_FOUND {
        Ok(QueryOutcome::NotFound)
    } else if status != ERROR_SUCCESS {
        Err(TraceError::QueryFailed(status))
    } else if historical_context == 0 {
        Err(TraceError::FatalOsFault)
    } else {
        Ok(QueryOutcome::Stop { handle: historical_context })
    }
}

/// What the facility's answer to a stop-by-handle call means.
pub open spec fn spec_interpret_stop(status: u32) -> Result<bool, TraceError> {
    if status != ERROR_SUCCESS {
        Err(TraceError::StopFailed(status))
    } else {
        Ok(true)
    }
}

/// Interprets the status word a stop-by-handle call returned. `Ok(true)`
/// mirrors the stop operation's overall answer: a session existed and was
/// stopped.
pub fn interpret_stop(status: u32) -> (r: Result<bool, TraceError>)
    ensures
        r == spec_interpret_stop(status),
{
    if status != ERROR_SUCCESS {
        Err(TraceError::StopFailed(status))
    } else {
        Ok(true)
    }
}

} // verus!
