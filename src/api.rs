use vstd::prelude::*;
use vstd::string::StringExecFns;

verus! {

/// The platform a discovered peer runs on.
#[derive(Clone, Copy, Debug, PartialEq, Eq, Structural)]
pub enum DeviceType {
    Android,
    IOS,
    MacOS,
    Windows,
    Unknown,
}

/// A discovered peer as shown to the host application.
#[derive(Clone, Debug)]
pub struct Device {
    pub id: String,
    pub name: String,
    pub device_type: DeviceType,
    pub is_connected: bool,
}

/// Where a transfer stands; it only ever moves forward.
#[derive(Clone, Copy, Debug, PartialEq, Eq, Structural)]
pub enum TransferStatus {
    Pending,
    Connecting,
    Transferring,
    Completed,
    Failed,
}

/// One file's movement across a session, as polled by the host.
#[derive(Clone, Debug)]
pub struct FileTransfer {
    pub id: String,
    pub file_name: String,
    pub file_size: u64,
    pub transferred_bytes: u64,
    pub status: TransferStatus,
}

/// The greeting shown by the host application for `name`.
pub fn greet(name: String) -> (r: String)
    ensures
        r@ == "Hello, "@ + name@ + "! Welcome to NearbySend"@,
{
    let mut r = String::from_str("Hello, ");
    r.append(name.as_str());
    r.append("! Welcome to NearbySend");
    r
}

} // verus!
