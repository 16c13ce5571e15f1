use vstd::prelude::*;
use vstd::string::StringExecFns;

use crate::discovery::{Discovery, Sighting};
use crate::error::Error;

verus! {

/// The local-network service type of this application.
pub const SERVICE_TYPE: &'static str = "_nearbysend._tcp.local.";

/// A peer resolved on the local network.
#[derive(Clone, Debug)]
pub struct MdnsDevice {
    /// The service instance's full name.
    pub id: String,
    pub name: String,
    pub ip_address: String,
    pub port: u16,
    /// The platform tag the peer advertised.
    pub device_type: String,
}

impl Sighting for MdnsDevice {
    open spec fn key(&self) -> Seq<char> {
        self.id@
    }

    fn id(&self) -> (r: &String) {
        &self.id
    }

    fn duplicate(&self) -> (r: MdnsDevice) {
        MdnsDevice {
            id: self.id.clone(),
            name: self.name.clone(),
            ip_address: self.ip_address.clone(),
            port: self.port,
            device_type: self.device_type.clone(),
        }
    }
}

/// A text value, or `default` when it is missing.
pub open spec fn text_or(v: Option<String>, default: Seq<char>) -> Seq<char> {
    match v {
        Some(s) => s@,
        None => default,
    }
}

/// The record for a resolved service: it is reachable at its first address,
/// and a missing name or platform tag reads as unknown.
pub fn mdns_resolved(
    fullname: String,
    addresses: Vec<String>,
    port: u16,
    name: Option<String>,
    device_type: Option<String>,
) -> (r: Option<MdnsDevice>)
    ensures
        addresses@.len() == 0 <==> r is None,
        r matches Some(d) ==> {
            &&& d.id@ == fullname@
            &&& d.ip_address@ == addresses@[0]@
            &&& d.port == port
            &&& d.name@ == text_or(name, "Unknown Device"@)
            &&& d.device_type@ == text_or(device_type, "unknown"@)
        },
{
    if addresses.len() == 0 {
        return None;
    }
    let ip_address = addresses[0].clone();
    let name = match name {
        Some(n) => n,
        None => String::from_str("Unknown Device"),
    };
    let device_type = match device_type {
        Some(t) => t,
        None => String::from_str("unknown"),
    };
    Some(MdnsDevice { id: fullname, name, ip_address, port, device_type })
}

/// Stops the local-network scan; the caller tears down its browser.
pub fn stop_mdns_discovery(discovery: &mut Discovery<MdnsDevice>) -> (r: Result<(), Error>)
    ensures
        r is Ok,
        !final(discovery)@.running,
        final(discovery)@.devices == old(discovery)@.devices,
{
    discovery.stop();
    Ok(())
}

/// A snapshot of the peers the local-network scan has listed.
pub fn get_discovered_mdns_devices(discovery: &Discovery<MdnsDevice>) -> (r: Result<Vec<MdnsDevice>, Error>)
    ensures
        r matches Ok(v) && v@ == discovery@.devices,
{
    Ok(discovery.get_devices())
}

/// The properties this device advertises: its name and its platform tag.
pub fn service_properties(name: &str, os: &str) -> (r: Vec<(String, String)>)
    ensures
        r@.len() == 2,
        r@[0].0@ == "name"@,
        r@[0].1@ == name@,
        r@[1].0@ == "device_type"@,
        r@[1].1@ == crate::platform::platform_tag_spec(os@),
{
    let mut r: Vec<(String, String)> = Vec::new();
    r.push((String::from_str("name"), String::from_str(name)));
    r.push((String::from_str("device_type"), crate::platform::platform_tag(os)));
    r
}

} // verus!
