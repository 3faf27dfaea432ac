use hypr_settings::commands::{
    connect_bluetooth_device, connect_wifi, disconnect_bluetooth_device, disconnect_wifi,
    forget_wifi, pair_bluetooth_device, refresh_wifi_networks, set_gsetting,
    start_bluetooth_discovery, stop_bluetooth_discovery, toggle_bluetooth, toggle_wifi,
    trust_bluetooth_device, unpair_bluetooth_device,
};

#[test]
fn connect_wifi_with_and_without_password() {
    let c = connect_wifi("Home", Some("secret"));
    assert_eq!(c.program, "nmcli");
    assert_eq!(c.args, vec!["device", "wifi", "connect", "Home", "password", "secret"]);
    assert_eq!(c.outcome(true, ""), Ok("Connected to Home".to_string()));
    assert_eq!(c.outcome(false, "no network"), Err("Failed to connect: no network".to_string()));
    assert_eq!(c.spawn_error("not found"), "Failed to connect to WiFi: not found");
    let c = connect_wifi("Home", None);
    assert_eq!(c.args, vec!["device", "wifi", "connect", "Home"]);
}

#[test]
fn wifi_connection_commands() {
    let c = disconnect_wifi("Cafe");
    assert_eq!(c.args, vec!["connection", "down", "Cafe"]);
    assert_eq!(c.outcome(true, ""), Ok("Disconnected from Cafe".to_string()));
    let c = forget_wifi("Cafe");
    assert_eq!(c.args, vec!["connection", "delete", "Cafe"]);
    assert_eq!(c.outcome(true, ""), Ok("Forgot network Cafe".to_string()));
    assert_eq!(c.spawn_error("x"), "Failed to forget WiFi network: x");
}

#[test]
fn radio_switches() {
    let c = toggle_wifi(false);
    assert_eq!(c.args, vec!["radio", "wifi", "off"]);
    assert_eq!(c.outcome(true, ""), Ok("WiFi turned off".to_string()));
    let c = toggle_bluetooth(true);
    assert_eq!(c.program, "bluetoothctl");
    assert_eq!(c.args, vec!["power", "on"]);
    assert_eq!(c.outcome(false, "busy"), Err("Failed to toggle Bluetooth: busy".to_string()));
}

#[test]
fn rescan_runs_under_prefix() {
    let c = refresh_wifi_networks("pkexec");
    assert_eq!(c.program, "pkexec");
    assert_eq!(c.args, vec!["nmcli", "device", "wifi", "rescan"]);
    assert_eq!(c.outcome(true, ""), Ok("WiFi networks refreshed".to_string()));
    assert_eq!(c.outcome(false, "denied"), Err("Failed to refresh WiFi networks: denied".to_string()));
}

#[test]
fn bluetooth_device_commands() {
    assert_eq!(start_bluetooth_discovery().args, vec!["scan", "on"]);
    assert_eq!(stop_bluetooth_discovery().outcome(true, ""), Ok("Discovery stopped".to_string()));
    let mac = "AA:BB:CC:DD:EE:FF";
    assert_eq!(pair_bluetooth_device(mac).outcome(true, ""), Ok(format!("Device {} paired successfully", mac)));
    assert_eq!(unpair_bluetooth_device(mac).args, vec!["remove", mac]);
    assert_eq!(connect_bluetooth_device(mac).outcome(true, ""), Ok(format!("Connected to device {}", mac)));
    assert_eq!(
        disconnect_bluetooth_device(mac).outcome(false, "e"),
        Err("Failed to disconnect from device: e".to_string())
    );
}

#[test]
fn trust_and_untrust() {
    let c = trust_bluetooth_device("AA", false);
    assert_eq!(c.args, vec!["untrust", "AA"]);
    assert_eq!(c.outcome(true, ""), Ok("Device AA untrusted successfully".to_string()));
    assert_eq!(c.outcome(false, "e"), Err("Failed to untrust device: e".to_string()));
    let c = trust_bluetooth_device("AA", true);
    assert_eq!(c.outcome(true, ""), Ok("Device AA trusted successfully".to_string()));
}

#[test]
fn gsetting_write() {
    let c = set_gsetting("org.gnome.desktop.interface", "gtk-theme", "Adwaita");
    assert_eq!(c.program, "gsettings");
    assert_eq!(c.args, vec!["set", "org.gnome.desktop.interface", "gtk-theme", "Adwaita"]);
    assert_eq!(
        c.outcome(false, "bad key"),
        Err("Failed to set gsetting org.gnome.desktop.interface.gtk-theme: bad key".to_string())
    );
}
