use vstd::prelude::*;
use vstd::string::StringExecFns;

use crate::error::Error;

verus! {

/// The Android version; the platform query is not wired up, so it is unknown.
pub fn get_android_version() -> (r: Result<String, Error>)
    ensures
        r matches Ok(v) && v@ == "Unknown"@,
{
    Ok(String::from_str("Unknown"))
}

pub fn get_device_name() -> (r: Result<String, Error>)
    ensures
        r matches Ok(v) && v@ == "Android Device"@,
{
    Ok(String::from_str("Android Device"))
}

pub fn is_bluetooth_enabled() -> (r: Result<bool, Error>)
    ensures
        r == Ok::<bool, Error>(true),
{
    Ok(true)
}

pub fn is_wifi_enabled() -> (r: Result<bool, Error>)
    ensures
        r == Ok::<bool, Error>(true),
{
    Ok(true)
}

/// Hotspot creation is a passthrough on this platform.
pub fn create_wifi_hotspot(ssid: &str, password: &str) -> (r: Result<(), Error>)
    ensures
        r is Ok,
{
    Ok(())
}

pub fn close_wifi_hotspot() -> (r: Result<(), Error>)
    ensures
        r is Ok,
{
    Ok(())
}

pub fn connect_to_wifi_hotspot(ssid: &str, password: &str) -> (r: Result<(), Error>)
    ensures
        r is Ok,
{
    Ok(())
}

} // verus!
