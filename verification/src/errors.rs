//! Error taxonomy: setup-time errors are returned to the caller, while
//! errors on the delivery path are contained and degrade gracefully.

use vstd::prelude::*;

verus! {

/// Errors raised while connecting to the instrumentation service, starting
/// a notification query, or resolving a property of a managed object.
///
/// Only session setup and query validation surface hard failures to the
/// caller; decode problems inside the delivery path are contained to the
/// single property or object being decoded.
#[derive(Clone, Copy, Debug, PartialEq, Eq, Structural)]
#[non_exhaustive]
pub enum WMIError {
    /// A null object reference was handed back as part of a query result.
    NullPointerResult,
    /// The service-side context object could not be created.
    IWbemContextCreateFailed,
    /// Running the query failed for a reason other than a malformed query.
    QueryRunFailed,
    /// The service rejected the query text as unparsable.
    WbemUnparsableQuery,
    /// A property was read as an embedded object, but its declared type
    /// does not mark it as one.
    NotCimObject,
    /// The named property does not exist on the object.
    PropertyNotFound,
}

/// Errors raised while terminating a process or adjusting privileges.
/// These belong to the process-control edge of the system; the verified
/// core only carries them.
#[derive(Debug)]
pub enum ProcessError {
    /// Terminating the process failed.
    TerminationFailed { process: String, pid: u32, errcode: u32 },
    /// The handle obtained for the process was null.
    NullHandle { process: String, pid: u32, errcode: u32 },
    /// Releasing the process handle failed.
    CloseHandleFailed { process: String, pid: u32, errcode: u32 },
    /// The current process token could not be opened.
    OpenProcessTokenFailed { errcode: u32 },
    /// The named privilege could not be resolved.
    PrivilegeLookupFailed { name: String, errcode: u32 },
    /// Adjusting the token's privileges failed.
    AdjustTokenPrivilegeFailed { name: String, errcode: u32 },
}

} // verus!
