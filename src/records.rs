//! The records handed to the user interface.
use vstd::prelude::*;
use crate::text::lines_view;

verus! {

/// A snapshot of a package operation, handed to the observer.
pub struct PackageOperation {
    /// The operation's name: "install", "remove", "update" or "system update".
    pub operation: String,
    pub package_name: Option<String>,
    /// From 0 to 100.
    pub progress: u32,
    pub status: String,
    pub output: Vec<String>,
    /// True for every record of an operation but its last.
    pub running: bool,
}

pub struct RecordView {
    pub operation: Seq<char>,
    pub package_name: Option<Seq<char>>,
    pub progress: u32,
    pub status: Seq<char>,
    pub output: Seq<Seq<char>>,
    pub running: bool,
}

pub open spec fn option_view(o: Option<String>) -> Option<Seq<char>> {
    match o {
        Some(s) => Some(s@),
        None => None,
    }
}

impl View for PackageOperation {
    type V = RecordView;

    open spec fn view(&self) -> RecordView {
        RecordView {
            operation: self.operation@,
            package_name: option_view(self.package_name),
            progress: self.progress,
            status: self.status@,
            output: lines_view(self.output@),
            running: self.running,
        }
    }
}

/// A copy of an optional string.
pub fn copy_option(o: &Option<String>) -> (r: Option<String>)
    ensures
        option_view(r) == option_view(*o),
{
    match o {
        Some(s) => Some(String::from_str(s.as_str())),
        None => None,
    }
}

/// A wireless network as the network manager lists it.
pub struct WifiNetwork {
    pub ssid: String,
    pub signal_strength: i32,
    pub security: String,
    pub connected: bool,
    pub saved: bool,
    pub in_use: bool,
}

/// The state of the wireless radio.
pub struct WifiStatus {
    pub enabled: bool,
    pub connected_ssid: Option<String>,
    pub interface: String,
}

/// A Bluetooth device known to the adapter.
pub struct BluetoothDevice {
    pub mac_address: String,
    pub name: String,
    pub device_type: String,
    pub connected: bool,
    pub paired: bool,
    pub trusted: bool,
    pub rssi: Option<i32>,
}

/// The state of the Bluetooth adapter.
pub struct BluetoothStatus {
    pub enabled: bool,
    pub discoverable: bool,
    pub discovering: bool,
    pub adapter_name: String,
}

/// The desktop's theme settings.
pub struct ThemeSettings {
    pub gtk_theme: String,
    pub icon_theme: String,
    pub font_name: String,
    pub font_size: i32,
    /// "default", "prefer-dark" or "prefer-light".
    pub color_scheme: String,
}

/// The themes and fonts that can be chosen.
pub struct AvailableThemes {
    pub gtk_themes: Vec<String>,
    pub icon_themes: Vec<String>,
    pub fonts: Vec<String>,
}

pub struct PackageView {
    pub name: Seq<char>,
    pub version: Seq<char>,
    pub description: Seq<char>,
    pub installed: bool,
    pub size: Option<Seq<char>>,
    pub repo: Option<Seq<char>>,
    pub updatable: Option<bool>,
    pub new_version: Option<Seq<char>>,
}

impl View for PackageInfo {
    type V = PackageView;

    open spec fn view(&self) -> PackageView {
        PackageView {
            name: self.name@,
            version: self.version@,
            description: self.description@,
            installed: self.installed,
            size: option_view(self.size),
            repo: option_view(self.repo),
            updatable: self.updatable,
            new_version: option_view(self.new_version),
        }
    }
}

/// A package, installed or found in a repository.
pub struct PackageInfo {
    pub name: String,
    pub version: String,
    pub description: String,
    pub installed: bool,
    pub size: Option<String>,
    pub repo: Option<String>,
    pub updatable: Option<bool>,
    pub new_version: Option<String>,
}

pub struct WifiNetworkView {
    pub ssid: Seq<char>,
    pub signal_strength: i32,
    pub security: Seq<char>,
    pub connected: bool,
    pub saved: bool,
    pub in_use: bool,
}

impl View for WifiNetwork {
    type V = WifiNetworkView;

    open spec fn view(&self) -> WifiNetworkView {
        WifiNetworkView {
            ssid: self.ssid@,
            signal_strength: self.signal_strength,
            security: self.security@,
            connected: self.connected,
            saved: self.saved,
            in_use: self.in_use,
        }
    }
}

pub struct WifiStatusView {
    pub enabled: bool,
    pub connected_ssid: Option<Seq<char>>,
    pub interface: Seq<char>,
}

impl View for WifiStatus {
    type V = WifiStatusView;

    open spec fn view(&self) -> WifiStatusView {
        WifiStatusView {
            enabled: self.enabled,
            connected_ssid: option_view(self.connected_ssid),
            interface: self.interface@,
        }
    }
}

pub struct BluetoothDeviceView {
    pub mac_address: Seq<char>,
    pub name: Seq<char>,
    pub device_type: Seq<char>,
    pub connected: bool,
    pub paired: bool,
    pub trusted: bool,
    pub rssi: Option<i32>,
}

impl View for BluetoothDevice {
    type V = BluetoothDeviceView;

    open spec fn view(&self) -> BluetoothDeviceView {
        BluetoothDeviceView {
            mac_address: self.mac_address@,
            name: self.name@,
            device_type: self.device_type@,
            connected: self.connected,
            paired: self.paired,
            trusted: self.trusted,
            rssi: self.rssi,
        }
    }
}

pub struct BluetoothStatusView {
    pub enabled: bool,
    pub discoverable: bool,
    pub discovering: bool,
    pub adapter_name: Seq<char>,
}

impl View for BluetoothStatus {
    type V = BluetoothStatusView;

    open spec fn view(&self) -> BluetoothStatusView {
        BluetoothStatusView {
            enabled: self.enabled,
            discoverable: self.discoverable,
            discovering: self.discovering,
            adapter_name: self.adapter_name@,
        }
    }
}

} // verus!
