//! The one-shot commands of the system tools (network manager, Bluetooth
//! control, desktop settings): their arguments and what they report.
use vstd::prelude::*;
use crate::text::{concat2, concat3, lines_view};

verus! {

/// A one-shot command of a system tool, with what it reports.
pub struct ToolCommand {
    pub program: String,
    pub args: Vec<String>,
    /// What success reports.
    pub success: String,
    /// What a failure reports, before the tool's error output.
    pub failure: String,
    /// What a failure to start the tool reports, before the reason.
    pub spawn_failure: String,
}

pub struct ToolCommandView {
    pub program: Seq<char>,
    pub args: Seq<Seq<char>>,
    pub success: Seq<char>,
    pub failure: Seq<char>,
    pub spawn_failure: Seq<char>,
}

impl View for ToolCommand {
    type V = ToolCommandView;

    open spec fn view(&self) -> ToolCommandView {
        ToolCommandView {
            program: self.program@,
            args: lines_view(self.args@),
            success: self.success@,
            failure: self.failure@,
            spawn_failure: self.spawn_failure@,
        }
    }
}

pub open spec fn tool(
    program: Seq<char>,
    args: Seq<Seq<char>>,
    success: Seq<char>,
    failure: Seq<char>,
    spawn_failure: Seq<char>,
) -> ToolCommandView {
    ToolCommandView { program, args, success, failure, spawn_failure }
}

impl ToolCommand {
    /// What the command reports once the tool has run: its success message,
    /// or its failure message followed by the tool's error output.
    pub fn outcome(&self, succeeded: bool, error_output: &str) -> (r: Result<String, String>)
        ensures
            match r {
                Ok(m) => succeeded && m@ == self@.success,
                Err(e) => !succeeded && e@ == self@.failure + error_output@,
            },
    {
        if succeeded {
            Ok(String::from_str(self.success.as_str()))
        } else {
            Err(concat2(self.failure.as_str(), error_output))
        }
    }

    /// What the command reports when the tool could not be started.
    pub fn spawn_error(&self, reason: &str) -> (r: String)
        ensures
            r@ == self@.spawn_failure + reason@,
    {
        concat2(self.spawn_failure.as_str(), reason)
    }
}

fn words2(a: &str, b: &str) -> (r: Vec<String>)
    ensures
        lines_view(r@) == seq![a@, b@],
{
    let mut v: Vec<String> = Vec::new();
    v.push(String::from_str(a));
    v.push(String::from_str(b));
    assert(lines_view(v@) =~= seq![a@, b@]);
    v
}

fn words3(a: &str, b: &str, c: &str) -> (r: Vec<String>)
    ensures
        lines_view(r@) == seq![a@, b@, c@],
{
    let mut v = words2(a, b);
    let ghost before = lines_view(v@);
    v.push(String::from_str(c));
    assert(lines_view(v@) =~= before.push(c@));
    assert(before.push(c@) =~= seq![a@, b@, c@]);
    v
}

fn words4(a: &str, b: &str, c: &str, d: &str) -> (r: Vec<String>)
    ensures
        lines_view(r@) == seq![a@, b@, c@, d@],
{
    let mut v = words3(a, b, c);
    let ghost before = lines_view(v@);
    v.push(String::from_str(d));
    assert(lines_view(v@) =~= before.push(d@));
    assert(before.push(d@) =~= seq![a@, b@, c@, d@]);
    v
}

fn make(program: &str, args: Vec<String>, success: String, failure: &str, spawn_failure: &str) -> (r:
    ToolCommand)
    ensures
        r@ == tool(program@, lines_view(args@), success@, failure@, spawn_failure@),
{
    ToolCommand {
        program: String::from_str(program),
        args,
        success,
        failure: String::from_str(failure),
        spawn_failure: String::from_str(spawn_failure),
    }
}

/// "on" or "off".
pub open spec fn switch_word(enable: bool) -> Seq<char> {
    if enable {
        "on"@
    } else {
        "off"@
    }
}

fn switch(enable: bool) -> (r: &'static str)
    ensures
        r@ == switch_word(enable),
{
    if enable {
        "on"
    } else {
        "off"
    }
}

/// Joins a wireless network, with its password where one is given.
pub fn connect_wifi(ssid: &str, password: Option<&str>) -> (r: ToolCommand)
    ensures
        r@ == tool(
            "nmcli"@,
            seq!["device"@, "wifi"@, "connect"@, ssid@] + match password {
                Some(p) => seq!["password"@, p@],
                None => Seq::empty(),
            },
            "Connected to "@ + ssid@,
            "Failed to connect: "@,
            "Failed to connect to WiFi: "@,
        ),
{
    let mut args = words4("device", "wifi", "connect", ssid);
    let ghost base = lines_view(args@);
    match password {
        Some(p) => {
            args.push(String::from_str("password"));
            args.push(String::from_str(p));
            assert(lines_view(args@) =~= base + seq!["password"@, p@]);
        },
        None => {
            assert(lines_view(args@) =~= base + Seq::<Seq<char>>::empty());
        },
    }
    make(
        "nmcli",
        args,
        concat2("Connected to ", ssid),
        "Failed to connect: ",
        "Failed to connect to WiFi: ",
    )
}

/// Takes a wireless connection down.
pub fn disconnect_wifi(ssid: &str) -> (r: ToolCommand)
    ensures
        r@ == tool(
            "nmcli"@,
            seq!["connection"@, "down"@, ssid@],
            "Disconnected from "@ + ssid@,
            "Failed to disconnect: "@,
            "Failed to disconnect from WiFi: "@,
        ),
{
    make(
        "nmcli",
        words3("connection", "down", ssid),
        concat2("Disconnected from ", ssid),
        "Failed to disconnect: ",
        "Failed to disconnect from WiFi: ",
    )
}

/// Deletes a saved wireless connection.
pub fn forget_wifi(ssid: &str) -> (r: ToolCommand)
    ensures
        r@ == tool(
            "nmcli"@,
            seq!["connection"@, "delete"@, ssid@],
            "Forgot network "@ + ssid@,
            "Failed to forget network: "@,
            "Failed to forget WiFi network: "@,
        ),
{
    make(
        "nmcli",
        words3("connection", "delete", ssid),
        concat2("Forgot network ", ssid),
        "Failed to forget network: ",
        "Failed to forget WiFi network: ",
    )
}

/// Switches the wireless radio on or off.
pub fn toggle_wifi(enable: bool) -> (r: ToolCommand)
    ensures
        r@ == tool(
            "nmcli"@,
            seq!["radio"@, "wifi"@, switch_word(enable)],
            "WiFi turned "@ + switch_word(enable),
            "Failed to toggle WiFi: "@,
            "Failed to toggle WiFi: "@,
        ),
{
    let state = switch(enable);
    make(
        "nmcli",
        words3("radio", "wifi", state),
        concat2("WiFi turned ", state),
        "Failed to toggle WiFi: ",
        "Failed to toggle WiFi: ",
    )
}

/// Rescans for wireless networks, under the escalation prefix.
pub fn refresh_wifi_networks(privilege: &str) -> (r: ToolCommand)
    ensures
        r@ == tool(
            privilege@,
            seq!["nmcli"@, "device"@, "wifi"@, "rescan"@],
            "WiFi networks refreshed"@,
            "Failed to refresh WiFi networks: "@,
            "Failed to rescan WiFi networks: "@,
        ),
{
    make(
        privilege,
        words4("nmcli", "device", "wifi", "rescan"),
        String::from_str("WiFi networks refreshed"),
        "Failed to refresh WiFi networks: ",
        "Failed to rescan WiFi networks: ",
    )
}

/// Switches the Bluetooth adapter on or off.
pub fn toggle_bluetooth(enable: bool) -> (r: ToolCommand)
    ensures
        r@ == tool(
            "bluetoothctl"@,
            seq!["power"@, switch_word(enable)],
            "Bluetooth turned "@ + switch_word(enable),
            "Failed to toggle Bluetooth: "@,
            "Failed to toggle Bluetooth: "@,
        ),
{
    let state = switch(enable);
    make(
        "bluetoothctl",
        words2("power", state),
        concat2("Bluetooth turned ", state),
        "Failed to toggle Bluetooth: ",
        "Failed to toggle Bluetooth: ",
    )
}

/// Starts scanning for Bluetooth devices.
pub fn start_bluetooth_discovery() -> (r: ToolCommand)
    ensures
        r@ == tool(
            "bluetoothctl"@,
            seq!["scan"@, "on"@],
            "Discovery started"@,
            "Failed to start discovery: "@,
            "Failed to start discovery: "@,
        ),
{
    make(
        "bluetoothctl",
        words2("scan", "on"),
        String::from_str("Discovery started"),
        "Failed to start discovery: ",
        "Failed to start discovery: ",
    )
}

/// Stops scanning for Bluetooth devices.
pub fn stop_bluetooth_discovery() -> (r: ToolCommand)
    ensures
        r@ == tool(
            "bluetoothctl"@,
            seq!["scan"@, "off"@],
            "Discovery stopped"@,
            "Failed to stop discovery: "@,
            "Failed to stop discovery: "@,
        ),
{
    make(
        "bluetoothctl",
        words2("scan", "off"),
        String::from_str("Discovery stopped"),
        "Failed to stop discovery: ",
        "Failed to stop discovery: ",
    )
}

/// Pairs with a device.
pub fn pair_bluetooth_device(mac_address: &str) -> (r: ToolCommand)
    ensures
        r@ == tool(
            "bluetoothctl"@,
            seq!["pair"@, mac_address@],
            "Device "@ + mac_address@ + " paired successfully"@,
            "Failed to pair device: "@,
            "Failed to pair device: "@,
        ),
{
    make(
        "bluetoothctl",
        words2("pair", mac_address),
        concat3("Device ", mac_address, " paired successfully"),
        "Failed to pair device: ",
        "Failed to pair device: ",
    )
}

/// Removes a paired device.
pub fn unpair_bluetooth_device(mac_address: &str) -> (r: ToolCommand)
    ensures
        r@ == tool(
            "bluetoothctl"@,
            seq!["remove"@, mac_address@],
            "Device "@ + mac_address@ + " unpaired successfully"@,
            "Failed to unpair device: "@,
            "Failed to unpair device: "@,
        ),
{
    make(
        "bluetoothctl",
        words2("remove", mac_address),
        concat3("Device ", mac_address, " unpaired successfully"),
        "Failed to unpair device: ",
        "Failed to unpair device: ",
    )
}

/// Connects to a device.
pub fn connect_bluetooth_device(mac_address: &str) -> (r: ToolCommand)
    ensures
        r@ == tool(
            "bluetoothctl"@,
            seq!["connect"@, mac_address@],
            "Connected to device "@ + mac_address@,
            "Failed to connect to device: "@,
            "Failed to connect to device: "@,
        ),
{
    make(
        "bluetoothctl",
        words2("connect", mac_address),
        concat2("Connected to device ", mac_address),
        "Failed to connect to device: ",
        "Failed to connect to device: ",
    )
}

/// Disconnects from a device.
pub fn disconnect_bluetooth_device(mac_address: &str) -> (r: ToolCommand)
    ensures
        r@ == tool(
            "bluetoothctl"@,
            seq!["disconnect"@, mac_address@],
            "Disconnected from device "@ + mac_address@,
            "Failed to disconnect from device: "@,
            "Failed to disconnect from device: "@,
        ),
{
    make(
        "bluetoothctl",
        words2("disconnect", mac_address),
        concat2("Disconnected from device ", mac_address),
        "Failed to disconnect from device: ",
        "Failed to disconnect from device: ",
    )
}

/// "trust" or "untrust".
pub open spec fn trust_word(trust: bool) -> Seq<char> {
    if trust {
        "trust"@
    } else {
        "untrust"@
    }
}

/// Marks a device as trusted or not.
pub fn trust_bluetooth_device(mac_address: &str, trust: bool) -> (r: ToolCommand)
    ensures
        r@ == tool(
            "bluetoothctl"@,
            seq![trust_word(trust), mac_address@],
            "Device "@ + mac_address@ + " "@ + trust_word(trust) + "ed successfully"@,
            "Failed to "@ + trust_word(trust) + " device: "@,
            "Failed to "@ + trust_word(trust) + " device: "@,
        ),
{
    let action = if trust {
        "trust"
    } else {
        "untrust"
    };
    let mut success = concat3("Device ", mac_address, " ");
    success.append(action);
    success.append("ed successfully");
    let failure = concat3("Failed to ", action, " device: ");
    let r = ToolCommand {
        program: String::from_str("bluetoothctl"),
        args: words2(action, mac_address),
        success,
        spawn_failure: String::from_str(failure.as_str()),
        failure,
    };
    r
}

/// Sets a desktop setting.
pub fn set_gsetting(schema: &str, key: &str, value: &str) -> (r: ToolCommand)
    ensures
        r@ == tool(
            "gsettings"@,
            seq!["set"@, schema@, key@, value@],
            Seq::empty(),
            "Failed to set gsetting "@ + schema@ + "."@ + key@ + ": "@,
            "Failed to set gsetting "@ + schema@ + "."@ + key@ + ": "@,
        ),
{
    let mut failure = concat3("Failed to set gsetting ", schema, ".");
    failure.append(key);
    failure.append(": ");
    ToolCommand {
        program: String::from_str("gsettings"),
        args: words4("set", schema, key, value),
        success: String::new(),
        spawn_failure: String::from_str(failure.as_str()),
        failure,
    }
}

} // verus!
