use nearbysend::api::greet;
use nearbysend::hotspot::{begin_hotspot, close_hotspot, create_hotspot, get_current_hotspot, get_hotspot_status, Hotspot, HotspotStatus};
use nearbysend::platform::android;
use nearbysend::platform::{get_device_name, get_platform_name, get_platform_version, platform_tag};

#[test]
fn greeting() {
    assert_eq!(greet("Ann".to_string()), "Hello, Ann! Welcome to NearbySend");
}

#[test]
fn platform_names() {
    assert_eq!(get_platform_name("macos"), "macOS");
    assert_eq!(get_platform_name("ios"), "iOS");
    assert_eq!(get_platform_name("linux"), "Unknown");
    assert_eq!(platform_tag("android"), "android");
    assert_eq!(platform_tag("freebsd"), "unknown");
    assert_eq!(get_platform_version(None), "Unknown");
    assert_eq!(get_platform_version(Some("14.2".to_string())), "14.2");
}

#[test]
fn device_names() {
    assert_eq!(get_device_name("macos", Some("Studio".to_string())), "Studio");
    assert_eq!(get_device_name("macos", None), "MacOS Device");
    assert_eq!(get_device_name("windows", None), "Windows Device");
    assert_eq!(get_device_name("linux", Some("x".to_string())), "Unknown Device");
}

#[test]
fn android_passthroughs() {
    assert_eq!(android::get_android_version().unwrap(), "Unknown");
    assert_eq!(android::get_device_name().unwrap(), "Android Device");
    assert!(android::is_bluetooth_enabled().unwrap());
    assert!(android::is_wifi_enabled().unwrap());
    assert!(android::create_wifi_hotspot("net", "pw").is_ok());
    assert!(android::close_wifi_hotspot().is_ok());
    assert!(android::connect_to_wifi_hotspot("net", "pw").is_ok());
}

#[test]
fn hotspot_lifecycle() {
    let mut h = Hotspot::new();
    assert_eq!(get_hotspot_status(&h).unwrap(), HotspotStatus::Inactive);
    begin_hotspot(&mut h);
    assert_eq!(get_hotspot_status(&h).unwrap(), HotspotStatus::Creating);
    let info = create_hotspot(&mut h, "Nearby", "secret", 7000).unwrap();
    assert_eq!(info.ip_address, "192.168.43.1");
    assert_eq!(get_hotspot_status(&h).unwrap(), HotspotStatus::Active);
    assert_eq!(get_current_hotspot(&h).unwrap().unwrap().ssid, "Nearby");
    close_hotspot(&mut h).unwrap();
    assert!(get_current_hotspot(&h).unwrap().is_none());
}
