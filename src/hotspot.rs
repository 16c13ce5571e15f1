use vstd::prelude::*;
use vstd::string::StringExecFns;

use crate::error::Error;

verus! {

/// The address a hotspot created by this device serves on.
pub const HOTSPOT_ADDRESS: &'static str = "192.168.43.1";

#[derive(Clone, Copy, Debug, PartialEq, Eq, Structural)]
pub enum HotspotStatus {
    Inactive,
    Creating,
    Active,
    Failed,
}

#[derive(Clone, Debug)]
pub struct HotspotInfo {
    pub ssid: String,
    pub password: String,
    pub ip_address: String,
    pub port: u16,
}

/// The hotspot this device runs, if any.
pub struct Hotspot {
    status: HotspotStatus,
    current: Option<HotspotInfo>,
}

/// The mathematical state of a hotspot.
pub struct HotspotModel {
    pub status: HotspotStatus,
    pub current: Option<HotspotInfo>,
}

impl View for Hotspot {
    type V = HotspotModel;

    closed spec fn view(&self) -> HotspotModel {
        HotspotModel { status: self.status, current: self.current }
    }
}

fn copy_info(i: &HotspotInfo) -> (r: HotspotInfo)
    ensures
        r == *i,
{
    HotspotInfo { ssid: i.ssid.clone(), password: i.password.clone(), ip_address: i.ip_address.clone(), port: i.port }
}

impl Hotspot {
    pub fn new() -> (r: Hotspot)
        ensures
            r@.status == HotspotStatus::Inactive,
            r@.current is None,
    {
        Hotspot { status: HotspotStatus::Inactive, current: None }
    }
}

/// Marks a hotspot as being set up by the platform.
pub fn begin_hotspot(hotspot: &mut Hotspot)
    ensures
        final(hotspot)@.status == HotspotStatus::Creating,
        final(hotspot)@.current == old(hotspot)@.current,
{
    hotspot.status = HotspotStatus::Creating;
}

/// Records the hotspot the platform set up and returns its details.
pub fn create_hotspot(hotspot: &mut Hotspot, ssid: &str, password: &str, port: u16) -> (r: Result<HotspotInfo, Error>)
    ensures
        r matches Ok(info) && {
            &&& info.ssid@ == ssid@
            &&& info.password@ == password@
            &&& info.ip_address@ == HOTSPOT_ADDRESS@
            &&& info.port == port
            &&& final(hotspot)@.status == HotspotStatus::Active
            &&& final(hotspot)@.current == Some(info)
        },
{
    let info = HotspotInfo {
        ssid: String::from_str(ssid),
        password: String::from_str(password),
        ip_address: String::from_str(HOTSPOT_ADDRESS),
        port,
    };
    hotspot.status = HotspotStatus::Active;
    hotspot.current = Some(copy_info(&info));
    Ok(info)
}

pub fn close_hotspot(hotspot: &mut Hotspot) -> (r: Result<(), Error>)
    ensures
        r is Ok,
        final(hotspot)@.status == HotspotStatus::Inactive,
        final(hotspot)@.current is None,
{
    hotspot.status = HotspotStatus::Inactive;
    hotspot.current = None;
    Ok(())
}

pub fn get_hotspot_status(hotspot: &Hotspot) -> (r: Result<HotspotStatus, Error>)
    ensures
        r == Ok::<HotspotStatus, Error>(hotspot@.status),
{
    Ok(hotspot.status)
}

pub fn get_current_hotspot(hotspot: &Hotspot) -> (r: Result<Option<HotspotInfo>, Error>)
    ensures
        r == Ok::<Option<HotspotInfo>, Error>(hotspot@.current),
{
    match &hotspot.current {
        Some(i) => Ok(Some(copy_info(i))),
        None => Ok(None),
    }
}

} // verus!
