//! The status codes and error taxonomy of the trace-control library.

use vstd::prelude::*;

verus! {

/// The facility's success status.
pub const ERROR_SUCCESS: u32 = 0;

/// The facility's status for an output buffer that is too small.
pub const ERROR_INSUFFICIENT_BUFFER: u32 = 122;

/// The facility's status for a query that names no existing session.
pub const ERROR_WMI_INSTANCE_NOT_FOUND: u32 = 4201;

/// Every way a trace-control operation can fail.
///
/// The variants that carry a `u32` wrap the raw status code that the
/// operating system's tracing facility returned. `CapacityExceeded` is
/// raised before any facility call is made; `FatalOsFault` marks the
/// violation of an invariant the facility itself is assumed to guarantee
/// and is treated as unrecoverable.
#[derive(Clone, Copy, Debug, PartialEq, Eq, Structural)]
pub enum TraceError {
    /// A session name or log-file path does not fit its fixed text region.
    CapacityExceeded,
    /// The facility refused to create a session.
    StartFailed(u32),
    /// The facility created the session but refused to enable the provider.
    EnableFailed(u32),
    /// The facility failed a query for an existing session.
    QueryFailed(u32),
    /// The facility failed to stop a session it had just reported.
    StopFailed(u32),
    /// The sizing call of provider enumeration returned an unexpected status.
    SizingFailed(u32),
    /// The fill call of provider enumeration returned an unexpected status.
    FillFailed(u32),
    /// The facility violated an invariant it is assumed to guarantee.
    FatalOsFault,
}

} // verus!
