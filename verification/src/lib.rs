//! Control library for a host operating system's event-tracing facility.
//!
//! The library holds the verified core of a trace-control tool: building the
//! binary control structure that the tracing facility reads and writes,
//! the decision logic of the start/stop session lifecycle, the two-phase
//! sizing protocol and buffer decoding of provider enumeration, and the
//! parsing of textual provider identifiers. The calls into the facility
//! itself are operating-system I/O and live outside this library; every
//! status word and every buffer they produce is interpreted here.

pub mod encoding;
pub mod etw;
pub mod guid;
pub mod paths;
pub mod providers;
pub mod result;
