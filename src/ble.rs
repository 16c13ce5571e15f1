use vstd::prelude::*;

use crate::discovery::{Discovery, Sighting};
use crate::error::Error;

verus! {

/// The service identifier that peers of this application advertise over
/// short-range radio.
pub const NEARBYSEND_SERVICE_UUID: &'static str = "00001234-0000-1000-8000-00805f9b34fb";

/// A peer seen by the radio scan: its radio address and advertised name.
#[derive(Clone, Debug)]
pub struct BleDevice {
    pub id: String,
    pub name: String,
}

impl Sighting for BleDevice {
    open spec fn key(&self) -> Seq<char> {
        self.id@
    }

    fn id(&self) -> (r: &String) {
        &self.id
    }

    fn duplicate(&self) -> (r: BleDevice) {
        BleDevice { id: self.id.clone(), name: self.name.clone() }
    }
}

/// The 128-bit value of a textual UUID, when the text is one.
pub uninterp spec fn uuid_bits(s: Seq<char>) -> Option<u128>;

/// Relies on `uuid::Uuid::parse_str` and `Uuid::as_u128`: the value of the
/// UUID written in `s`, or `None` when `s` is not a UUID.
#[verifier::external_body]
fn parse_uuid(s: &str) -> (r: Option<u128>)
    ensures
        r == uuid_bits(s@),
{
    uuid::Uuid::parse_str(s).ok().map(|u| u.as_u128())
}

pub open spec fn ble_device_spec(id: Seq<char>, local_name: Option<String>, services: Seq<u128>, service: u128) -> Option<(Seq<char>, Seq<char>)> {
    match local_name {
        Some(name) if services.contains(service) => Some((id, name@)),
        _ => None,
    }
}

/// The record for a radio sighting: only a named peer that advertises
/// `service` is one of ours.
pub fn ble_device_from(id: String, local_name: Option<String>, services: &Vec<u128>, service: u128) -> (r: Option<BleDevice>)
    ensures
        match r {
            Some(d) => ble_device_spec(id@, local_name, services@, service) == Some((d.id@, d.name@)),
            None => ble_device_spec(id@, local_name, services@, service) is None,
        },
{
    let mut found = false;
    let mut i: usize = 0;
    while i < services.len()
        invariant
            i <= services@.len(),
            found == (exists|k: int| 0 <= k < i && services@[k] == service),
        decreases services@.len() - i,
    {
        if services[i] == service {
            found = true;
        }
        i = i + 1;
    }
    assert(found == services@.contains(service));
    match local_name {
        Some(name) => if found {
            Some(BleDevice { id, name })
        } else {
            None
        },
        None => None,
    }
}

/// The record for a radio sighting, matched against this application's
/// service identifier.
pub fn ble_sighting(id: String, local_name: Option<String>, services: &Vec<u128>) -> (r: Option<BleDevice>)
    ensures
        match uuid_bits(NEARBYSEND_SERVICE_UUID@) {
            Some(service) => match r {
                Some(d) => ble_device_spec(id@, local_name, services@, service) == Some((d.id@, d.name@)),
                None => ble_device_spec(id@, local_name, services@, service) is None,
            },
            None => r is None,
        },
{
    match parse_uuid(NEARBYSEND_SERVICE_UUID) {
        Some(service) => ble_device_from(id, local_name, services, service),
        None => None,
    }
}

/// Stops the radio scan; its listener ends at its next check.
pub fn stop_ble_discovery(discovery: &mut Discovery<BleDevice>) -> (r: Result<(), Error>)
    ensures
        r is Ok,
        !final(discovery)@.running,
        final(discovery)@.devices == old(discovery)@.devices,
{
    discovery.stop();
    Ok(())
}

/// A snapshot of the peers the radio scan has listed.
pub fn get_discovered_devices(discovery: &Discovery<BleDevice>) -> (r: Result<Vec<BleDevice>, Error>)
    ensures
        r matches Ok(v) && v@ == discovery@.devices,
{
    Ok(discovery.get_devices())
}

} // verus!
