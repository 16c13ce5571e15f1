use nearbysend::add;
use nearbysend::ble::{ble_device_from, ble_sighting, get_discovered_devices, stop_ble_discovery, BleDevice};
use nearbysend::discovery::Discovery;
use nearbysend::engine::Engine;
use nearbysend::mdns::{get_discovered_mdns_devices, mdns_resolved, service_properties, stop_mdns_discovery, MdnsDevice};
use nearbysend::session::{disconnect, get_connection_status, listen_ports, ConnectionStatus, SessionManager};
use nearbysend::Error;

#[test]
fn it_works() {
    let result = add(2, 2);
    assert_eq!(result, 4);
}

#[test]
fn test_engine_creation() {
    let mut engine = Engine::new().expect("Failed to create engine");
    assert!(engine.start_discovery().is_ok());
}

#[test]
fn test_discovery() {
    let mut discovery: Discovery<BleDevice> = Discovery::new();
    assert!(discovery.start());
    let devices = get_discovered_devices(&discovery).expect("Failed to get devices");
    println!("Found {} devices", devices.len());
    stop_ble_discovery(&mut discovery).expect("Failed to stop discovery");
    assert!(!discovery.is_running());
}

fn ble(id: &str, name: &str) -> BleDevice {
    BleDevice { id: id.to_string(), name: name.to_string() }
}

#[test]
fn start_twice_spawns_one_listener_and_keeps_list() {
    let mut d: Discovery<BleDevice> = Discovery::new();
    assert!(d.start());
    assert!(d.record(ble("aa:bb", "Phone")));
    assert!(!d.start());
    assert!(d.is_running());
    let devices = d.get_devices();
    assert_eq!(devices.len(), 1);
    assert_eq!(devices[0].id, "aa:bb");
}

#[test]
fn restart_after_stop_clears_list() {
    let mut d: Discovery<BleDevice> = Discovery::new();
    assert!(d.start());
    assert!(d.record(ble("aa:bb", "Phone")));
    d.stop();
    assert_eq!(d.get_devices().len(), 1);
    assert!(d.start());
    assert_eq!(d.get_devices().len(), 0);
}

#[test]
fn same_id_sighted_twice_is_listed_once_first_wins() {
    let mut d: Discovery<BleDevice> = Discovery::new();
    d.start();
    assert!(d.record(ble("aa:bb", "First")));
    assert!(!d.record(ble("aa:bb", "Second")));
    assert!(d.record(ble("cc:dd", "Other")));
    let devices = d.get_devices();
    assert_eq!(devices.len(), 2);
    assert_eq!(devices[0].name, "First");
    assert_eq!(devices[1].id, "cc:dd");
}

fn mdns(id: &str) -> MdnsDevice {
    mdns_resolved(id.to_string(), vec!["192.168.1.7".to_string()], 4000, None, None).unwrap()
}

#[test]
fn removed_service_leaves_list() {
    let mut d: Discovery<MdnsDevice> = Discovery::new();
    d.start();
    d.record(mdns("a._nearbysend._tcp.local."));
    d.record(mdns("b._nearbysend._tcp.local."));
    d.record(mdns("c._nearbysend._tcp.local."));
    d.remove(&"b._nearbysend._tcp.local.".to_string());
    let devices = get_discovered_mdns_devices(&d).unwrap();
    assert_eq!(devices.len(), 2);
    assert_eq!(devices[0].id, "a._nearbysend._tcp.local.");
    assert_eq!(devices[1].id, "c._nearbysend._tcp.local.");
    stop_mdns_discovery(&mut d).unwrap();
    assert!(!d.is_running());
    assert_eq!(d.get_devices().len(), 2);
}

#[test]
fn resolved_service_defaults() {
    let d = mdns("x._nearbysend._tcp.local.");
    assert_eq!(d.name, "Unknown Device");
    assert_eq!(d.device_type, "unknown");
    assert_eq!(d.ip_address, "192.168.1.7");
    assert_eq!(d.port, 4000);
    let named = mdns_resolved(
        "y".to_string(),
        vec!["10.0.0.2".to_string(), "10.0.0.3".to_string()],
        9,
        Some("Laptop".to_string()),
        Some("macos".to_string()),
    )
    .unwrap();
    assert_eq!(named.name, "Laptop");
    assert_eq!(named.device_type, "macos");
    assert_eq!(named.ip_address, "10.0.0.2");
    assert!(mdns_resolved("z".to_string(), vec![], 9, None, None).is_none());
}

#[test]
fn advertised_properties() {
    let p = service_properties("Desk", "windows");
    assert_eq!(p.len(), 2);
    assert_eq!(p[0], ("name".to_string(), "Desk".to_string()));
    assert_eq!(p[1], ("device_type".to_string(), "windows".to_string()));
    let q = service_properties("Desk", "linux");
    assert_eq!(q[1].1, "unknown");
}

const SERVICE: u128 = 0x0000_1234_0000_1000_8000_0080_5f9b_34fb;

#[test]
fn radio_sighting_needs_name_and_service() {
    let services = vec![7u128, SERVICE];
    let d = ble_device_from("aa".to_string(), Some("Tab".to_string()), &services, SERVICE).unwrap();
    assert_eq!(d.name, "Tab");
    assert!(ble_device_from("aa".to_string(), None, &services, SERVICE).is_none());
    assert!(ble_device_from("aa".to_string(), Some("Tab".to_string()), &vec![7u128], SERVICE).is_none());
}

#[test]
fn radio_sighting_matches_service_identifier() {
    let ours = ble_sighting("aa".to_string(), Some("Tab".to_string()), &vec![SERVICE]);
    assert_eq!(ours.unwrap().id, "aa");
    assert!(ble_sighting("aa".to_string(), Some("Tab".to_string()), &vec![SERVICE + 1]).is_none());
}

#[test]
fn session_manager_states() {
    let mut s = SessionManager::new();
    assert!(matches!(s.require_connection(), Err(Error::NoActiveConnection)));
    s.begin_connect();
    assert_eq!(get_connection_status(&s).unwrap(), ConnectionStatus::Connecting);
    s.finish_connect(false);
    assert_eq!(get_connection_status(&s).unwrap(), ConnectionStatus::Failed);
    assert!(s.require_connection().is_err());
    s.begin_connect();
    s.finish_connect(true);
    assert!(s.require_connection().is_ok());
    s.on_transport_error();
    assert_eq!(get_connection_status(&s).unwrap(), ConnectionStatus::Disconnected);
    s.accept_inbound();
    assert_eq!(get_connection_status(&s).unwrap(), ConnectionStatus::Connected);
    disconnect(&mut s).unwrap();
    assert_eq!(get_connection_status(&s).unwrap(), ConnectionStatus::Disconnected);
}

#[test]
fn listen_port_falls_back_to_ephemeral() {
    assert_eq!(listen_ports(8080), vec![8080, 0]);
    assert_eq!(listen_ports(0), vec![0]);
}
