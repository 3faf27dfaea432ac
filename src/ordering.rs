//! The orders in which networks, devices and names are shown.
use vstd::prelude::*;
use crate::network::networks_view;
use crate::text::{lines_view, str_eq};
use crate::records::{BluetoothDevice, BluetoothDeviceView, WifiNetwork, WifiNetworkView};

verus! {

/// Whether `a` comes strictly before `b` in character order, as `str`
/// comparison orders text.
pub open spec fn text_less(a: Seq<char>, b: Seq<char>) -> bool
    decreases a.len(),
{
    if a.len() == 0 {
        b.len() > 0
    } else if b.len() == 0 {
        false
    } else if a[0] != b[0] {
        (a[0] as u32) < (b[0] as u32)
    } else {
        text_less(a.skip(1), b.skip(1))
    }
}

pub fn str_less(a: &str, b: &str) -> (r: bool)
    ensures
        r == text_less(a@, b@),
{
    let n = a.unicode_len();
    let m = b.unicode_len();
    let mut i: usize = 0;
    assert(a@.skip(0) =~= a@);
    assert(b@.skip(0) =~= b@);
    while i < n && i < m
        invariant
            n == a@.len(),
            m == b@.len(),
            i <= n,
            i <= m,
            text_less(a@, b@) == text_less(a@.skip(i as int), b@.skip(i as int)),
        decreases n - i,
    {
        let x = a.get_char(i);
        let y = b.get_char(i);
        if x != y {
            return (x as u32) < (y as u32);
        }
        assert(a@.skip(i as int).skip(1) =~= a@.skip(i + 1));
        assert(b@.skip(i as int).skip(1) =~= b@.skip(i + 1));
        i = i + 1;
    }
    i == n && i < m
}

/// Whether network `a` is shown before network `b`: saved networks first,
/// then the stronger signal.
pub open spec fn network_before(a: WifiNetworkView, b: WifiNetworkView) -> bool {
    (a.saved && !b.saved) || (a.saved == b.saved && a.signal_strength > b.signal_strength)
}

/// Whether device `a` is shown before device `b`: connected devices first,
/// then paired ones, then by name.
pub open spec fn device_before(a: BluetoothDeviceView, b: BluetoothDeviceView) -> bool {
    if a.connected != b.connected {
        a.connected
    } else if a.paired != b.paired {
        a.paired
    } else {
        text_less(a.name, b.name)
    }
}

/// `x` placed into `s` after every element it does not come before.
pub open spec fn insert_network(s: Seq<WifiNetworkView>, x: WifiNetworkView) -> Seq<WifiNetworkView>
    decreases s.len(),
{
    if s.len() > 0 && network_before(x, s.last()) {
        insert_network(s.drop_last(), x).push(s.last())
    } else {
        s.push(x)
    }
}

/// The networks in display order; networks that tie keep their order.
pub open spec fn sorted_networks(s: Seq<WifiNetworkView>) -> Seq<WifiNetworkView>
    decreases s.len(),
{
    if s.len() == 0 {
        s
    } else {
        insert_network(sorted_networks(s.drop_last()), s.last())
    }
}

/// The networks without any that repeats the name of the one kept before it.
pub open spec fn dedup_networks(s: Seq<WifiNetworkView>) -> Seq<WifiNetworkView>
    decreases s.len(),
{
    if s.len() == 0 {
        s
    } else {
        let d = dedup_networks(s.drop_last());
        if d.len() > 0 && d.last().ssid == s.last().ssid {
            d
        } else {
            d.push(s.last())
        }
    }
}

pub open spec fn insert_device(s: Seq<BluetoothDeviceView>, x: BluetoothDeviceView) -> Seq<
    BluetoothDeviceView,
>
    decreases s.len(),
{
    if s.len() > 0 && device_before(x, s.last()) {
        insert_device(s.drop_last(), x).push(s.last())
    } else {
        s.push(x)
    }
}

/// The devices in display order; devices that tie keep their order.
pub open spec fn sorted_devices(s: Seq<BluetoothDeviceView>) -> Seq<BluetoothDeviceView>
    decreases s.len(),
{
    if s.len() == 0 {
        s
    } else {
        insert_device(sorted_devices(s.drop_last()), s.last())
    }
}

pub open spec fn devices_view(v: Seq<BluetoothDevice>) -> Seq<BluetoothDeviceView> {
    v.map_values(|d: BluetoothDevice| d@)
}

proof fn lemma_insert_network_at(s: Seq<WifiNetworkView>, x: WifiNetworkView, p: int)
    requires
        0 <= p <= s.len(),
        forall|j: int| p <= j < s.len() ==> network_before(x, #[trigger] s[j]),
        p == 0 || !network_before(x, s[p - 1]),
    ensures
        insert_network(s, x) == s.insert(p, x),
    decreases s.len(),
{
    if s.len() > p {
        lemma_insert_network_at(s.drop_last(), x, p);
        assert(s.drop_last().insert(p, x).push(s.last()) =~= s.insert(p, x));
    } else {
        assert(s.push(x) =~= s.insert(p, x));
    }
}

proof fn lemma_insert_device_at(s: Seq<BluetoothDeviceView>, x: BluetoothDeviceView, p: int)
    requires
        0 <= p <= s.len(),
        forall|j: int| p <= j < s.len() ==> device_before(x, #[trigger] s[j]),
        p == 0 || !device_before(x, s[p - 1]),
    ensures
        insert_device(s, x) == s.insert(p, x),
    decreases s.len(),
{
    if s.len() > p {
        lemma_insert_device_at(s.drop_last(), x, p);
        assert(s.drop_last().insert(p, x).push(s.last()) =~= s.insert(p, x));
    } else {
        assert(s.push(x) =~= s.insert(p, x));
    }
}

fn network_goes_before(a: &WifiNetwork, b: &WifiNetwork) -> (r: bool)
    ensures
        r == network_before(a@, b@),
{
    (a.saved && !b.saved) || (a.saved == b.saved && a.signal_strength > b.signal_strength)
}

fn device_goes_before(a: &BluetoothDevice, b: &BluetoothDevice) -> (r: bool)
    ensures
        r == device_before(a@, b@),
{
    if a.connected != b.connected {
        a.connected
    } else if a.paired != b.paired {
        a.paired
    } else {
        str_less(a.name.as_str(), b.name.as_str())
    }
}

/// Puts networks in display order, keeping the order of networks that tie,
/// then drops each that repeats the name of the one kept before it.
pub fn arrange_networks(v: Vec<WifiNetwork>) -> (r: Vec<WifiNetwork>)
    ensures
        networks_view(r@) == dedup_networks(sorted_networks(networks_view(v@))),
{
    let ghost all = networks_view(v@);
    assert(all.skip(0) =~= all);
    let mut rest = v;
    let total = rest.len();
    let mut sorted: Vec<WifiNetwork> = Vec::new();
    let mut k: usize = 0;
    while rest.len() > 0
        invariant
            k <= all.len(),
            all.len() == total,
            k + rest@.len() == all.len(),
            networks_view(rest@) == all.skip(k as int),
            networks_view(sorted@) == sorted_networks(all.subrange(0, k as int)),
        decreases rest.len(),
    {
        let ghost before = rest@;
        let x = rest.remove(0);
        assert(networks_view(before)[0] == x@);
        assert(all.skip(k as int)[0] == all[k as int]);
        assert(networks_view(rest@) =~= networks_view(before).skip(1));
        assert(all.skip(k as int).skip(1) =~= all.skip(k + 1));
        let mut p: usize = sorted.len();
        while p > 0 && network_goes_before(&x, &sorted[p - 1])
            invariant
                p <= sorted@.len(),
                forall|j: int| p <= j < sorted@.len() ==> network_before(x@, #[trigger] sorted@[j]@),
            decreases p,
        {
            p = p - 1;
        }
        let ghost s = networks_view(sorted@);
        assert(forall|j: int| 0 <= j < s.len() ==> #[trigger] s[j] == sorted@[j]@);
        proof {
            lemma_insert_network_at(s, x@, p as int);
        }
        assert(all.subrange(0, k + 1).drop_last() =~= all.subrange(0, k as int));
        sorted.insert(p, x);
        assert(networks_view(sorted@) =~= s.insert(p as int, x@));
        k = k + 1;
    }
    assert(all.subrange(0, k as int) =~= all);
    let ghost ordered = networks_view(sorted@);
    assert(ordered.skip(0) =~= ordered);
    let mut out: Vec<WifiNetwork> = Vec::new();
    let mut rest = sorted;
    let total = rest.len();
    let mut i: usize = 0;
    while rest.len() > 0
        invariant
            i <= ordered.len(),
            ordered.len() == total,
            i + rest@.len() == ordered.len(),
            networks_view(rest@) == ordered.skip(i as int),
            networks_view(out@) == dedup_networks(ordered.subrange(0, i as int)),
        decreases rest.len(),
    {
        let ghost before = rest@;
        let x = rest.remove(0);
        assert(networks_view(before)[0] == x@);
        assert(ordered.skip(i as int)[0] == ordered[i as int]);
        assert(networks_view(rest@) =~= networks_view(before).skip(1));
        assert(ordered.skip(i as int).skip(1) =~= ordered.skip(i + 1));
        assert(ordered.subrange(0, i + 1).drop_last() =~= ordered.subrange(0, i as int));
        let n = out.len();
        let repeat = n > 0 && str_eq(out[n - 1].ssid.as_str(), x.ssid.as_str());
        if !repeat {
            let ghost before = networks_view(out@);
            out.push(x);
            assert(networks_view(out@) =~= before.push(x@));
        } else {
            assert(networks_view(out@).last() == out@[n - 1]@);
        }
        i = i + 1;
    }
    assert(ordered.subrange(0, i as int) =~= ordered);
    out
}

/// Puts devices in display order, keeping the order of devices that tie.
pub fn arrange_devices(v: Vec<BluetoothDevice>) -> (r: Vec<BluetoothDevice>)
    ensures
        devices_view(r@) == sorted_devices(devices_view(v@)),
{
    let ghost all = devices_view(v@);
    assert(all.skip(0) =~= all);
    let mut rest = v;
    let total = rest.len();
    let mut sorted: Vec<BluetoothDevice> = Vec::new();
    let mut k: usize = 0;
    while rest.len() > 0
        invariant
            k <= all.len(),
            all.len() == total,
            k + rest@.len() == all.len(),
            devices_view(rest@) == all.skip(k as int),
            devices_view(sorted@) == sorted_devices(all.subrange(0, k as int)),
        decreases rest.len(),
    {
        let ghost before = rest@;
        let x = rest.remove(0);
        assert(devices_view(before)[0] == x@);
        assert(all.skip(k as int)[0] == all[k as int]);
        assert(devices_view(rest@) =~= devices_view(before).skip(1));
        assert(all.skip(k as int).skip(1) =~= all.skip(k + 1));
        let mut p: usize = sorted.len();
        while p > 0 && device_goes_before(&x, &sorted[p - 1])
            invariant
                p <= sorted@.len(),
                forall|j: int| p <= j < sorted@.len() ==> device_before(x@, #[trigger] sorted@[j]@),
            decreases p,
        {
            p = p - 1;
        }
        let ghost s = devices_view(sorted@);
        assert(forall|j: int| 0 <= j < s.len() ==> #[trigger] s[j] == sorted@[j]@);
        proof {
            lemma_insert_device_at(s, x@, p as int);
        }
        assert(all.subrange(0, k + 1).drop_last() =~= all.subrange(0, k as int));
        sorted.insert(p, x);
        assert(devices_view(sorted@) =~= s.insert(p as int, x@));
        k = k + 1;
    }
    assert(all.subrange(0, k as int) =~= all);
    sorted
}

pub open spec fn insert_text(s: Seq<Seq<char>>, x: Seq<char>) -> Seq<Seq<char>>
    decreases s.len(),
{
    if s.len() > 0 && text_less(x, s.last()) {
        insert_text(s.drop_last(), x).push(s.last())
    } else {
        s.push(x)
    }
}

/// The texts in character order.
pub open spec fn sorted_texts(s: Seq<Seq<char>>) -> Seq<Seq<char>>
    decreases s.len(),
{
    if s.len() == 0 {
        s
    } else {
        insert_text(sorted_texts(s.drop_last()), s.last())
    }
}

/// The texts without any that repeats the one kept before it.
pub open spec fn dedup_texts(s: Seq<Seq<char>>) -> Seq<Seq<char>>
    decreases s.len(),
{
    if s.len() == 0 {
        s
    } else {
        let d = dedup_texts(s.drop_last());
        if d.len() > 0 && d.last() == s.last() {
            d
        } else {
            d.push(s.last())
        }
    }
}

proof fn lemma_insert_text_at(s: Seq<Seq<char>>, x: Seq<char>, p: int)
    requires
        0 <= p <= s.len(),
        forall|j: int| p <= j < s.len() ==> text_less(x, #[trigger] s[j]),
        p == 0 || !text_less(x, s[p - 1]),
    ensures
        insert_text(s, x) == s.insert(p, x),
    decreases s.len(),
{
    if s.len() > p {
        lemma_insert_text_at(s.drop_last(), x, p);
        assert(s.drop_last().insert(p, x).push(s.last()) =~= s.insert(p, x));
    } else {
        assert(s.push(x) =~= s.insert(p, x));
    }
}

/// Puts texts in character order, like `sort` on strings.
pub fn sort_texts(v: Vec<String>) -> (r: Vec<String>)
    ensures
        lines_view(r@) == sorted_texts(lines_view(v@)),
{
    let ghost all = lines_view(v@);
    assert(all.skip(0) =~= all);
    let mut rest = v;
    let total = rest.len();
    let mut sorted: Vec<String> = Vec::new();
    let mut k: usize = 0;
    while rest.len() > 0
        invariant
            k <= all.len(),
            all.len() == total,
            k + rest@.len() == all.len(),
            lines_view(rest@) == all.skip(k as int),
            lines_view(sorted@) == sorted_texts(all.subrange(0, k as int)),
        decreases rest.len(),
    {
        let ghost before = rest@;
        let x = rest.remove(0);
        assert(lines_view(before)[0] == x@);
        assert(all.skip(k as int)[0] == all[k as int]);
        assert(lines_view(rest@) =~= lines_view(before).skip(1));
        assert(all.skip(k as int).skip(1) =~= all.skip(k + 1));
        let mut p: usize = sorted.len();
        while p > 0 && str_less(x.as_str(), sorted[p - 1].as_str())
            invariant
                p <= sorted@.len(),
                forall|j: int| p <= j < sorted@.len() ==> text_less(x@, #[trigger] sorted@[j]@),
            decreases p,
        {
            p = p - 1;
        }
        let ghost s = lines_view(sorted@);
        assert(forall|j: int| 0 <= j < s.len() ==> #[trigger] s[j] == sorted@[j]@);
        proof {
            lemma_insert_text_at(s, x@, p as int);
        }
        assert(all.subrange(0, k + 1).drop_last() =~= all.subrange(0, k as int));
        sorted.insert(p, x);
        assert(lines_view(sorted@) =~= s.insert(p as int, x@));
        k = k + 1;
    }
    assert(all.subrange(0, k as int) =~= all);
    sorted
}

/// Drops each text equal to the one kept before it, like `dedup` on strings.
pub fn dedup_text_list(v: Vec<String>) -> (r: Vec<String>)
    ensures
        lines_view(r@) == dedup_texts(lines_view(v@)),
{
    let ghost all = lines_view(v@);
    assert(all.skip(0) =~= all);
    let mut rest = v;
    let total = rest.len();
    let mut out: Vec<String> = Vec::new();
    let mut i: usize = 0;
    while rest.len() > 0
        invariant
            i <= all.len(),
            all.len() == total,
            i + rest@.len() == all.len(),
            lines_view(rest@) == all.skip(i as int),
            lines_view(out@) == dedup_texts(all.subrange(0, i as int)),
        decreases rest.len(),
    {
        let ghost before = rest@;
        let x = rest.remove(0);
        assert(lines_view(before)[0] == x@);
        assert(all.skip(i as int)[0] == all[i as int]);
        assert(lines_view(rest@) =~= lines_view(before).skip(1));
        assert(all.skip(i as int).skip(1) =~= all.skip(i + 1));
        assert(all.subrange(0, i + 1).drop_last() =~= all.subrange(0, i as int));
        let n = out.len();
        let repeat = n > 0 && str_eq(out[n - 1].as_str(), x.as_str());
        if !repeat {
            let ghost prev = lines_view(out@);
            out.push(x);
            assert(lines_view(out@) =~= prev.push(x@));
        } else {
            assert(lines_view(out@).last() == out@[n - 1]@);
        }
        i = i + 1;
    }
    assert(all.subrange(0, i as int) =~= all);
    out
}

} // verus!
