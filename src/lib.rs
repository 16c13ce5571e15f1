//! A peer-to-peer file-sharing engine for nearby devices: a discovery
//! directory, a session state machine and a lock-step chunked transfer
//! protocol, each stated and proved against its own model.
use vstd::prelude::*;

pub mod api;
pub mod ble;
pub mod chunking;
pub mod discovery;
pub mod engine;
pub mod error;
pub mod framing;
pub mod hotspot;
pub mod mdns;
pub mod message;
pub mod platform;
pub mod receiver;
pub mod registry;
pub mod session;
pub mod sender;

pub use api::{Device, DeviceType, FileTransfer, TransferStatus};
pub use error::{Error, ProtocolViolation};

verus! {

/// Adds two counters; the sum must fit in a `u64`.
pub fn add(left: u64, right: u64) -> (r: u64)
    requires
        left + right <= u64::MAX,
    ensures
        r == left + right,
{
    left + right
}

} // verus!
