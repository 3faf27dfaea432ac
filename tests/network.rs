use hypr_settings::network::{
    list_wifi_networks, parse_bluetooth_device, parse_bluetooth_status, parse_device_list,
    parse_wifi_networks, parse_wifi_status,
};
use hypr_settings::ordering::arrange_devices;
use hypr_settings::records::BluetoothDevice;

#[test]
fn wifi_status_reads_three_outputs() {
    let s = parse_wifi_status("enabled\n", "lo:loopback\nwlp2s0:wifi\neth0:ethernet\n", "Home Net\nWired\n");
    assert!(s.enabled);
    assert_eq!(s.interface, "wlp2s0");
    assert_eq!(s.connected_ssid.as_deref(), Some("Home Net"));
}

#[test]
fn wifi_status_defaults() {
    let s = parse_wifi_status("disabled\n", "eth0:ethernet\n", "  \n");
    assert!(!s.enabled);
    assert_eq!(s.interface, "wlan0");
    assert_eq!(s.connected_ssid, None);
}

#[test]
fn wifi_networks_in_listed_order() {
    let list = "Cafe:40:WPA2: \nHome:70:WPA2:*\n:55:WPA2: \nShort:1\nOpen:abc:: \n";
    let n = parse_wifi_networks(list, "Home\nWork\n");
    assert_eq!(n.len(), 3);
    assert_eq!(n[0].ssid, "Cafe");
    assert_eq!(n[0].signal_strength, 40);
    assert!(!n[0].saved);
    assert!(!n[0].in_use);
    assert_eq!(n[1].ssid, "Home");
    assert!(n[1].saved);
    assert!(n[1].in_use);
    assert!(n[1].connected);
    assert_eq!(n[2].ssid, "Open");
    assert_eq!(n[2].signal_strength, 0);
    assert_eq!(n[2].security, "");
}

#[test]
fn wifi_networks_saved_first_then_signal_then_unique() {
    let list = "A:30:WPA2: \nB:80:WPA2: \nHome:20:WPA2: \nB:60:WPA2: \nC:80:WPA2: \n";
    let n = list_wifi_networks(list, "Home\n");
    let names: Vec<&str> = n.iter().map(|x| x.ssid.as_str()).collect();
    assert_eq!(names, vec!["Home", "B", "C", "B", "A"]);
    let n = list_wifi_networks("X:50:: \nX:40:: \nY:10:: \n", "");
    let names: Vec<&str> = n.iter().map(|x| x.ssid.as_str()).collect();
    assert_eq!(names, vec!["X", "Y"]);
    assert_eq!(n[0].signal_strength, 50);
}

#[test]
fn bluetooth_status_reads_adapter() {
    let text = "Controller 00:11:22:33:44:55 (public)\n\tName: thinkpad\n\tPowered: yes\n\tDiscoverable: no\n\tDiscovering: yes\n";
    let s = parse_bluetooth_status(text);
    assert_eq!(s.adapter_name, "thinkpad");
    assert!(s.enabled);
    assert!(!s.discoverable);
    assert!(s.discovering);
}

#[test]
fn bluetooth_status_defaults() {
    let s = parse_bluetooth_status("");
    assert_eq!(s.adapter_name, "Unknown");
    assert!(!s.enabled);
}

#[test]
fn device_list_reads_address_and_name() {
    let d = parse_device_list("Device AA:BB:CC:DD:EE:FF WH-1000XM4  Headphones\nDevice 11:22\nController x y z\n");
    assert_eq!(d, vec![("AA:BB:CC:DD:EE:FF".to_string(), "WH-1000XM4 Headphones".to_string())]);
}

#[test]
fn device_info_fills_flags() {
    let info = "Device AA:BB\n\tIcon: audio-headset\n\tPaired: yes\n\tTrusted: no\n\tConnected: yes\n\tRSSI: -60\n";
    let d = parse_bluetooth_device("AA:BB", "Phones", info);
    assert_eq!(d.mac_address, "AA:BB");
    assert_eq!(d.name, "Phones");
    assert_eq!(d.device_type, "audio-headset");
    assert!(d.paired);
    assert!(!d.trusted);
    assert!(d.connected);
    assert_eq!(d.rssi, Some(-60));
    let d = parse_bluetooth_device("x", "y", "RSSI: 0x12\n");
    assert_eq!(d.rssi, None);
    assert_eq!(d.device_type, "Unknown");
}

fn device(name: &str, connected: bool, paired: bool) -> BluetoothDevice {
    BluetoothDevice {
        mac_address: String::new(),
        name: name.to_string(),
        device_type: String::new(),
        connected,
        paired,
        trusted: false,
        rssi: None,
    }
}

#[test]
fn devices_connected_then_paired_then_name() {
    let v = vec![
        device("zeta", false, false),
        device("beta", false, true),
        device("alpha", false, false),
        device("gamma", true, false),
        device("Alpha", false, false),
    ];
    let names: Vec<String> = arrange_devices(v).into_iter().map(|d| d.name).collect();
    assert_eq!(names, vec!["gamma", "beta", "Alpha", "alpha", "zeta"]);
}

#[test]
fn adapter_name_label_taken_out_everywhere() {
    let s = parse_bluetooth_status("\tName: My Name: box\n");
    assert_eq!(s.adapter_name, "My  box");
}
