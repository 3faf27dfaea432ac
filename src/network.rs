//! Reading the output of the network manager and of Bluetooth control.
use vstd::prelude::*;
use crate::font::{parse_i32, spec_parse_i32};
use crate::records::{
    BluetoothDevice, BluetoothDeviceView, BluetoothStatus, BluetoothStatusView, WifiNetwork,
    WifiNetworkView, WifiStatus, WifiStatusView,
};
use crate::scan::{
    contains_text, has_prefix, has_text, lemma_split_char_len, lines_of, split_char, split_lines,
    split_on, split_words, starts_with, trim, trimmed, words, remove_all, without_all,
};
use crate::ordering::{arrange_networks, dedup_networks, sorted_networks};
use crate::terminal::{join_words, joined};
use crate::text::{lines_view, str_eq};

verus! {

pub proof fn lemma_lines_of_nonempty(s: Seq<char>)
    requires
        s.len() > 0,
    ensures
        lines_of(s).len() >= 1,
{
    lemma_split_char_len(s.drop_last(), '\n');
    assert(s.drop_last() == s.drop_last());
}

/// The wireless interface: the first device line "name:wifi", else "wlan0".
pub open spec fn wifi_interface_in(lines: Seq<Seq<char>>) -> Seq<char>
    decreases lines.len(),
{
    if lines.len() == 0 {
        "wlan0"@
    } else {
        let p = split_char(lines[0], ':');
        if p.len() >= 2 && p[1] == "wifi"@ {
            p[0]
        } else {
            wifi_interface_in(lines.skip(1))
        }
    }
}

/// The active connection: the first line of the trimmed listing, if any.
pub open spec fn active_connection_in(text: Seq<char>) -> Option<Seq<char>> {
    if trimmed(text).len() == 0 {
        None
    } else {
        Some(lines_of(trimmed(text))[0])
    }
}

/// The radio's state, its interface and its active connection, from what the
/// network manager prints for each.
pub open spec fn spec_wifi_status(general: Seq<char>, devices: Seq<char>, active: Seq<char>) -> WifiStatusView {
    WifiStatusView {
        enabled: trimmed(general) == "enabled"@,
        connected_ssid: active_connection_in(active),
        interface: wifi_interface_in(lines_of(devices)),
    }
}

fn wifi_interface(devices: &str) -> (r: String)
    ensures
        r@ == wifi_interface_in(lines_of(devices@)),
{
    let lines = split_lines(devices);
    let ghost ls = lines_view(lines@);
    let mut i: usize = 0;
    assert(ls.skip(0) =~= ls);
    while i < lines.len()
        invariant
            ls == lines_view(lines@),
            ls == lines_of(devices@),
            i <= ls.len(),
            wifi_interface_in(ls) == wifi_interface_in(ls.skip(i as int)),
        decreases lines.len() - i,
    {
        assert(ls.skip(i as int)[0] == lines@[i as int]@);
        assert(ls.skip(i as int).skip(1) =~= ls.skip(i + 1));
        let parts = split_on(lines[i].as_str(), ':');
        if parts.len() >= 2 && str_eq(parts[1].as_str(), "wifi") {
            assert(lines_view(parts@)[1] == parts@[1]@);
            assert(lines_view(parts@)[0] == parts@[0]@);
            return String::from_str(parts[0].as_str());
        }
        i = i + 1;
    }
    assert(ls.skip(i as int).len() == 0);
    String::from_str("wlan0")
}

fn active_connection(active: &str) -> (r: Option<String>)
    ensures
        match r {
            Some(s) => active_connection_in(active@) == Some(s@),
            None => active_connection_in(active@) is None,
        },
{
    let t = trim(active);
    if t.unicode_len() == 0 {
        None
    } else {
        proof {
            lemma_lines_of_nonempty(t@);
        }
        let lines = split_lines(t.as_str());
        Some(String::from_str(lines[0].as_str()))
    }
}

/// Reads the state of the wireless radio.
pub fn parse_wifi_status(general: &str, devices: &str, active: &str) -> (r: WifiStatus)
    ensures
        r@ == spec_wifi_status(general@, devices@, active@),
{
    let g = trim(general);
    WifiStatus {
        enabled: str_eq(g.as_str(), "enabled"),
        connected_ssid: active_connection(active),
        interface: wifi_interface(devices),
    }
}

/// A network from a line "ssid:signal:security:in-use"; none for a short line
/// or a hidden network (empty name).
pub open spec fn network_entry(line: Seq<char>, saved: Seq<Seq<char>>) -> Option<WifiNetworkView> {
    let p = split_char(line, ':');
    if p.len() >= 4 && p[0].len() > 0 {
        Some(
            WifiNetworkView {
                ssid: p[0],
                signal_strength: match spec_parse_i32(p[1]) {
                    Some(v) => v,
                    None => 0,
                },
                security: p[2],
                connected: p[3] == "*"@,
                saved: saved.contains(p[0]),
                in_use: p[3] == "*"@,
            },
        )
    } else {
        None
    }
}

pub open spec fn networks_in(lines: Seq<Seq<char>>, saved: Seq<Seq<char>>) -> Seq<WifiNetworkView>
    decreases lines.len(),
{
    if lines.len() == 0 {
        Seq::empty()
    } else {
        let prev = networks_in(lines.drop_last(), saved);
        match network_entry(lines.last(), saved) {
            Some(n) => prev.push(n),
            None => prev,
        }
    }
}

pub open spec fn networks_view(v: Seq<WifiNetwork>) -> Seq<WifiNetworkView> {
    v.map_values(|n: WifiNetwork| n@)
}

fn is_listed(names: &Vec<String>, name: &str) -> (r: bool)
    ensures
        r == lines_view(names@).contains(name@),
{
    let mut i: usize = 0;
    while i < names.len()
        invariant
            i <= names@.len(),
            forall|j: int| 0 <= j < i ==> names@[j]@ != name@,
        decreases names.len() - i,
    {
        if str_eq(names[i].as_str(), name) {
            assert(lines_view(names@)[i as int] == name@);
            return true;
        }
        i = i + 1;
    }
    assert(forall|j: int|
        0 <= j < lines_view(names@).len() ==> #[trigger] lines_view(names@)[j] != name@);
    false
}

fn network(line: &str, saved: &Vec<String>) -> (r: Option<WifiNetwork>)
    ensures
        match r {
            Some(n) => network_entry(line@, lines_view(saved@)) == Some(n@),
            None => network_entry(line@, lines_view(saved@)) is None,
        },
{
    let p = split_on(line, ':');
    if p.len() < 4 || p[0].unicode_len() == 0 {
        return None;
    }
    let signal_strength = match parse_i32(p[1].as_str()) {
        Some(v) => v,
        None => 0,
    };
    let in_use = str_eq(p[3].as_str(), "*");
    Some(
        WifiNetwork {
            ssid: String::from_str(p[0].as_str()),
            signal_strength,
            security: String::from_str(p[2].as_str()),
            connected: in_use,
            saved: is_listed(saved, p[0].as_str()),
            in_use,
        },
    )
}

/// Reads the visible networks, in the order listed, marking those whose name
/// is among the saved connections.
pub fn parse_wifi_networks(list: &str, saved: &str) -> (r: Vec<WifiNetwork>)
    ensures
        networks_view(r@) == networks_in(lines_of(list@), lines_of(saved@)),
{
    let saved_names = split_lines(saved);
    let lines = split_lines(list);
    let ghost ls = lines_view(lines@);
    let mut out: Vec<WifiNetwork> = Vec::new();
    let mut i: usize = 0;
    while i < lines.len()
        invariant
            i <= lines@.len(),
            ls == lines_view(lines@),
            lines_view(saved_names@) == lines_of(saved@),
            networks_view(out@) == networks_in(ls.subrange(0, i as int), lines_of(saved@)),
        decreases lines.len() - i,
    {
        let ghost prefix = ls.subrange(0, i as int);
        let ghost next = ls.subrange(0, i + 1);
        assert(next.drop_last() =~= prefix);
        assert(next.last() == lines@[i as int]@);
        match network(lines[i].as_str(), &saved_names) {
            Some(n) => {
                let ghost before = networks_view(out@);
                out.push(n);
                assert(networks_view(out@) =~= before.push(n@));
            },
            None => {},
        }
        i = i + 1;
    }
    assert(ls.subrange(0, lines@.len() as int) =~= ls);
    out
}

/// Whether the setting on a line reads "yes".
pub open spec fn says_yes(line: Seq<char>) -> bool {
    has_text(line, "yes"@)
}

/// A line with its label taken out, trimmed.
pub open spec fn after_label(line: Seq<char>, label: Seq<char>) -> Seq<char> {
    trimmed(without_all(line, label))
}

/// One line of the adapter's description applied to the state read so far.
pub open spec fn adapter_step(st: BluetoothStatusView, raw: Seq<char>) -> BluetoothStatusView {
    let l = trimmed(raw);
    if has_prefix(l, "Name:"@) {
        BluetoothStatusView { adapter_name: after_label(l, "Name:"@), ..st }
    } else if has_prefix(l, "Powered:"@) {
        BluetoothStatusView { enabled: says_yes(l), ..st }
    } else if has_prefix(l, "Discoverable:"@) {
        BluetoothStatusView { discoverable: says_yes(l), ..st }
    } else if has_prefix(l, "Discovering:"@) {
        BluetoothStatusView { discovering: says_yes(l), ..st }
    } else {
        st
    }
}

/// The adapter's state after the given lines: the last line of each kind wins.
pub open spec fn adapter_state(lines: Seq<Seq<char>>) -> BluetoothStatusView
    decreases lines.len(),
{
    if lines.len() == 0 {
        BluetoothStatusView {
            enabled: false,
            discoverable: false,
            discovering: false,
            adapter_name: "Unknown"@,
        }
    } else {
        adapter_step(adapter_state(lines.drop_last()), lines.last())
    }
}

fn label_value(line: &str, label: &str) -> (r: String)
    requires
        label@.len() > 0,
    ensures
        r@ == after_label(line@, label@),
{
    trim(remove_all(line, label).as_str())
}

/// Reads the Bluetooth adapter's state from its description.
pub fn parse_bluetooth_status(text: &str) -> (r: BluetoothStatus)
    ensures
        r@ == adapter_state(lines_of(text@)),
{
    let lines = split_lines(text);
    let ghost ls = lines_view(lines@);
    let mut st = BluetoothStatus {
        enabled: false,
        discoverable: false,
        discovering: false,
        adapter_name: String::from_str("Unknown"),
    };
    let mut i: usize = 0;
    while i < lines.len()
        invariant
            i <= lines@.len(),
            ls == lines_view(lines@),
            st@ == adapter_state(ls.subrange(0, i as int)),
        decreases lines.len() - i,
    {
        let ghost prefix = ls.subrange(0, i as int);
        let ghost next = ls.subrange(0, i + 1);
        assert(next.drop_last() =~= prefix);
        assert(next.last() == lines@[i as int]@);
        let l = trim(lines[i].as_str());
        let l = l.as_str();
        proof {
            reveal_strlit("Name:");
        }
        if starts_with(l, "Name:") {
            st.adapter_name = label_value(l, "Name:");
        } else if starts_with(l, "Powered:") {
            st.enabled = contains_text(l, "yes");
        } else if starts_with(l, "Discoverable:") {
            st.discoverable = contains_text(l, "yes");
        } else if starts_with(l, "Discovering:") {
            st.discovering = contains_text(l, "yes");
        }
        i = i + 1;
    }
    assert(ls.subrange(0, lines@.len() as int) =~= ls);
    st
}

/// A device from a line "Device <address> <name...>": its address and its
/// name, the remaining words joined by single spaces.
pub open spec fn device_entry(line: Seq<char>) -> Option<(Seq<char>, Seq<char>)> {
    let w = words(line);
    if has_prefix(line, "Device "@) && w.len() >= 3 {
        Some((w[1], joined(w.subrange(2, w.len() as int))))
    } else {
        None
    }
}

pub open spec fn devices_in(lines: Seq<Seq<char>>) -> Seq<(Seq<char>, Seq<char>)>
    decreases lines.len(),
{
    if lines.len() == 0 {
        Seq::empty()
    } else {
        let prev = devices_in(lines.drop_last());
        match device_entry(lines.last()) {
            Some(d) => prev.push(d),
            None => prev,
        }
    }
}

pub open spec fn pairs_view(v: Seq<(String, String)>) -> Seq<(Seq<char>, Seq<char>)> {
    v.map_values(|p: (String, String)| (p.0@, p.1@))
}

/// Reads the address and name of each device that the adapter lists.
pub fn parse_device_list(text: &str) -> (r: Vec<(String, String)>)
    ensures
        pairs_view(r@) == devices_in(lines_of(text@)),
{
    let lines = split_lines(text);
    let ghost ls = lines_view(lines@);
    let mut out: Vec<(String, String)> = Vec::new();
    let mut i: usize = 0;
    while i < lines.len()
        invariant
            i <= lines@.len(),
            ls == lines_view(lines@),
            pairs_view(out@) == devices_in(ls.subrange(0, i as int)),
        decreases lines.len() - i,
    {
        let ghost prefix = ls.subrange(0, i as int);
        let ghost next = ls.subrange(0, i + 1);
        assert(next.drop_last() =~= prefix);
        assert(next.last() == lines@[i as int]@);
        let line = lines[i].as_str();
        if starts_with(line, "Device ") {
            let mut w = split_words(line);
            if w.len() >= 3 {
                let ghost wv = lines_view(w@);
                let address = String::from_str(w[1].as_str());
                let rest = w.split_off(2);
                assert(lines_view(rest@) =~= wv.subrange(2, wv.len() as int));
                let name = join_words(&rest);
                let ghost before = pairs_view(out@);
                out.push((address, name));
                assert(pairs_view(out@) =~= before.push((address@, name@)));
            }
        }
        i = i + 1;
    }
    assert(ls.subrange(0, lines@.len() as int) =~= ls);
    out
}

/// One line of a device's description applied to what is known of it.
pub open spec fn device_step(d: BluetoothDeviceView, raw: Seq<char>) -> BluetoothDeviceView {
    let l = trimmed(raw);
    if has_prefix(l, "Connected:"@) {
        BluetoothDeviceView { connected: says_yes(l), ..d }
    } else if has_prefix(l, "Paired:"@) {
        BluetoothDeviceView { paired: says_yes(l), ..d }
    } else if has_prefix(l, "Trusted:"@) {
        BluetoothDeviceView { trusted: says_yes(l), ..d }
    } else if has_prefix(l, "Icon:"@) {
        BluetoothDeviceView { device_type: after_label(l, "Icon:"@), ..d }
    } else if has_prefix(l, "RSSI:"@) {
        BluetoothDeviceView { rssi: spec_parse_i32(trimmed(split_char(l, ':')[1])), ..d }
    } else {
        d
    }
}

pub open spec fn device_state(
    address: Seq<char>,
    name: Seq<char>,
    lines: Seq<Seq<char>>,
) -> BluetoothDeviceView
    decreases lines.len(),
{
    if lines.len() == 0 {
        BluetoothDeviceView {
            mac_address: address,
            name,
            device_type: "Unknown"@,
            connected: false,
            paired: false,
            trusted: false,
            rssi: None,
        }
    } else {
        device_step(device_state(address, name, lines.drop_last()), lines.last())
    }
}

proof fn lemma_labelled_split(l: Seq<char>, label: Seq<char>)
    requires
        has_prefix(l, label),
        label.len() >= 1,
        label.last() == ':',
    ensures
        split_char(l, ':').len() >= 2,
{
    let k = label.len() as int;
    lemma_split_pieces_grow(l, k);
}

/// A prefix that ends with a separator already splits into two pieces, and
/// more characters never remove a piece.
proof fn lemma_split_pieces_grow(l: Seq<char>, k: int)
    requires
        1 <= k <= l.len(),
        l[k - 1] == ':',
    ensures
        split_char(l, ':').len() >= 2,
    decreases l.len(),
{
    lemma_split_char_len(l.drop_last(), ':');
    if l.len() > k {
        lemma_split_pieces_grow(l.drop_last(), k);
    }
}

/// Reads what a device's description says of it.
pub fn parse_bluetooth_device(address: &str, name: &str, info: &str) -> (r: BluetoothDevice)
    ensures
        r@ == device_state(address@, name@, lines_of(info@)),
{
    let lines = split_lines(info);
    let ghost ls = lines_view(lines@);
    let mut d = BluetoothDevice {
        mac_address: String::from_str(address),
        name: String::from_str(name),
        device_type: String::from_str("Unknown"),
        connected: false,
        paired: false,
        trusted: false,
        rssi: None,
    };
    let mut i: usize = 0;
    while i < lines.len()
        invariant
            i <= lines@.len(),
            ls == lines_view(lines@),
            d@ == device_state(address@, name@, ls.subrange(0, i as int)),
        decreases lines.len() - i,
    {
        let ghost prefix = ls.subrange(0, i as int);
        let ghost next = ls.subrange(0, i + 1);
        assert(next.drop_last() =~= prefix);
        assert(next.last() == lines@[i as int]@);
        let l = trim(lines[i].as_str());
        let l = l.as_str();
        proof {
            reveal_strlit("Icon:");
        }
        if starts_with(l, "Connected:") {
            d.connected = contains_text(l, "yes");
        } else if starts_with(l, "Paired:") {
            d.paired = contains_text(l, "yes");
        } else if starts_with(l, "Trusted:") {
            d.trusted = contains_text(l, "yes");
        } else if starts_with(l, "Icon:") {
            d.device_type = label_value(l, "Icon:");
        } else if starts_with(l, "RSSI:") {
            proof {
                reveal_strlit("RSSI:");
                lemma_labelled_split(l@, "RSSI:"@);
            }
            let parts = split_on(l, ':');
            let value = trim(parts[1].as_str());
            d.rssi = parse_i32(value.as_str());
        }
        i = i + 1;
    }
    assert(ls.subrange(0, lines@.len() as int) =~= ls);
    d
}

/// The visible networks for display: saved ones first, then by signal, each
/// name once.
pub fn list_wifi_networks(list: &str, saved: &str) -> (r: Vec<WifiNetwork>)
    ensures
        networks_view(r@) == dedup_networks(
            sorted_networks(networks_in(lines_of(list@), lines_of(saved@))),
        ),
{
    arrange_networks(parse_wifi_networks(list, saved))
}

} // verus!
