//! A verified model of an asynchronous OS-instrumentation (WMI) notification
//! bridge: decoding tagged wire values into typed property values, reading
//! properties of managed objects, forwarding event batches through a channel,
//! and mapping property bags into fixed-shape records.

pub mod errors;
pub mod wire;
pub mod decode;
pub mod object;
pub mod bag;
pub mod process;
pub mod delivery;
pub mod channel;
pub mod sink;
pub mod subscription;
pub mod query;

use vstd::prelude::*;

verus! {

/// Success status returned by the notification sink's callbacks.
pub const WBEM_S_NO_ERROR: i32 = 0;

/// Flag value passed to the completion callback when no more
/// indications will follow for a subscription.
pub const WBEM_STATUS_COMPLETE: i32 = 0;

/// Error code with which the service synchronously rejects a
/// malformed notification query.
pub const WBEM_E_UNPARSABLE_QUERY: u32 = 0x8004_1058;

} // verus!
