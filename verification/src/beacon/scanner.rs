//! Beacon scanning: which manufacturer-data entry of an advertisement is a
//! beacon, and how the peripherals seen afterwards are matched to the
//! beacons found, by the Bluetooth address the beacons carry.
use super::{parse_beacon, BeaconView, DeviceBeacon};
use crate::protocol::types::mac_text;
use vstd::prelude::*;
use vstd::string::*;

verus! {

/// A device found by its beacon, with what the peripheral list told about
/// it; `I` identifies the peripheral to the Bluetooth stack.
#[derive(Debug)]
pub struct DiscoveredDevice<I> {
    pub beacon: DeviceBeacon,
    pub local_name: Option<String>,
    pub ble_address: Option<String>,
    pub rssi: Option<i16>,
    pub peripheral_id: I,
}

impl<I> DiscoveredDevice<I> {
    /// A device known only by its beacon.
    pub fn new(beacon: DeviceBeacon, peripheral_id: I) -> (d: Self)
        ensures
            d.beacon == beacon,
            d.peripheral_id == peripheral_id,
            d.local_name is None,
            d.ble_address is None,
            d.rssi is None,
    {
        DiscoveredDevice { beacon, local_name: None, ble_address: None, rssi: None, peripheral_id }
    }
}

/// The views of a list of byte strings.
pub open spec fn entry_views(entries: Seq<Vec<u8>>) -> Seq<Seq<u8>> {
    entries.map_values(|e: Vec<u8>| e@)
}

/// Whether entry `k` is the first that is a beacon.
pub open spec fn is_first_beacon(entries: Seq<Seq<u8>>, k: int) -> bool {
    &&& 0 <= k < entries.len()
    &&& parse_beacon(entries[k]) is Some
    &&& forall|j: int| 0 <= j < k ==> parse_beacon(#[trigger] entries[j]) is None
}

/// The beacon of an advertisement: the first of its manufacturer-data
/// entries that parses as one.
pub fn first_beacon(entries: &Vec<Vec<u8>>) -> (r: Option<DeviceBeacon>)
    ensures
        match r {
            Some(b) => exists|k: int|
                #[trigger] is_first_beacon(entry_views(entries@), k) && parse_beacon(
                    entries@[k]@,
                ) == Some(b@),
            None => forall|j: int|
                0 <= j < entries@.len() ==> parse_beacon(#[trigger] entries@[j]@) is None,
        },
{
    let mut i: usize = 0;
    while i < entries.len()
        invariant
            i <= entries@.len(),
            forall|j: int| 0 <= j < i ==> parse_beacon(#[trigger] entries@[j]@) is None,
        decreases entries@.len() - i,
    {
        match DeviceBeacon::from_manufacturer_data(entries[i].as_slice()) {
            Some(b) => {
                let ghost v = entry_views(entries@);
                assert forall|j: int| 0 <= j < i implies parse_beacon(#[trigger] v[j]) is None by {
                    assert(v[j] == entries@[j]@);
                }
                assert(v[i as int] == entries@[i as int]@);
                assert(is_first_beacon(v, i as int));
                return Some(b);
            },
            None => {},
        }
        i += 1;
    }
    None
}

/// The address text a beacon is matched by: its address, or empty text
/// when it carries none.
pub open spec fn beacon_key(b: BeaconView) -> Seq<char> {
    match b.bt_address {
        Some(a) => mac_text(a),
        None => ""@,
    }
}

/// Whether the entry `e` is a beacon whose address text is that of the
/// beacon `d`.
pub open spec fn entry_matches(e: Seq<u8>, d: BeaconView) -> bool {
    match parse_beacon(e) {
        Some(b) => match d.bt_address {
            Some(a) => mac_text(a) == beacon_key(b),
            None => false,
        },
        None => false,
    }
}

/// Whether one of the first `upto` entries is a beacon whose address text
/// is that of the beacon `d`.
pub open spec fn matched_by(entries: Seq<Seq<u8>>, upto: int, d: BeaconView) -> bool {
    exists|k: int| 0 <= k < upto && k < entries.len() && #[trigger] entry_matches(entries[k], d)
}

/// Whether `f` is `d` with the peripheral's name, address and signal
/// strength when `matched`, else `d` itself.
pub open spec fn attached<I>(
    f: DiscoveredDevice<I>,
    d: DiscoveredDevice<I>,
    matched: bool,
    local_name: Option<String>,
    address: String,
    rssi: Option<i16>,
) -> bool {
    &&& f.beacon == d.beacon
    &&& f.peripheral_id == d.peripheral_id
    &&& if matched {
        &&& f.local_name == local_name
        &&& f.ble_address == Some(address)
        &&& f.rssi == rssi
    } else {
        &&& f.local_name == d.local_name
        &&& f.ble_address == d.ble_address
        &&& f.rssi == d.rssi
    }
}

fn clone_name(n: &Option<String>) -> (r: Option<String>)
    ensures
        r == *n,
{
    match n {
        Some(s) => Some(s.clone()),
        None => None,
    }
}

fn same_address(b: &DeviceBeacon, key: &String) -> (r: bool)
    ensures
        r == (b@.bt_address matches Some(a) && mac_text(a) == key@),
{
    match b.bt_address_string() {
        Some(s) => s == *key,
        None => false,
    }
}

/// Gives every found device whose beacon address matches a beacon in the
/// peripheral's manufacturer data that peripheral's name, address and
/// signal strength.
pub fn attach_peripheral<I>(
    devices: &mut Vec<DiscoveredDevice<I>>,
    entries: &Vec<Vec<u8>>,
    local_name: Option<String>,
    address: String,
    rssi: Option<i16>,
)
    ensures
        final(devices)@.len() == old(devices)@.len(),
        forall|i: int|
            0 <= i < old(devices)@.len() ==> attached(
                #[trigger] final(devices)@[i],
                old(devices)@[i],
                matched_by(entry_views(entries@), entries@.len() as int, old(devices)@[i].beacon@),
                local_name,
                address,
                rssi,
            ),
{
    let ghost start = devices@;
    let ghost ev = entry_views(entries@);
    let n = devices.len();
    let mut k: usize = 0;
    while k < entries.len()
        invariant
            k <= entries@.len(),
            ev == entry_views(entries@),
            devices@.len() == n,
            start.len() == n,
            forall|i: int|
                0 <= i < n ==> attached(
                    #[trigger] devices@[i],
                    start[i],
                    matched_by(ev, k as int, start[i].beacon@),
                    local_name,
                    address,
                    rssi,
                ),
        decreases entries@.len() - k,
    {
        assert(ev[k as int] == entries@[k as int]@);
        match DeviceBeacon::from_manufacturer_data(entries[k].as_slice()) {
            Some(b) => {
                let key = match b.bt_address_string() {
                    Some(s) => s,
                    None => String::from_str(""),
                };
                assert(key@ == beacon_key(b@));
                let mut j: usize = 0;
                while j < n
                    invariant
                        j <= n,
                        k < entries@.len(),
                        ev == entry_views(entries@),
                        ev[k as int] == entries@[k as int]@,
                        parse_beacon(ev[k as int]) == Some(b@),
                        key@ == beacon_key(b@),
                        devices@.len() == n,
                        start.len() == n,
                        forall|i: int|
                            0 <= i < n ==> attached(
                                #[trigger] devices@[i],
                                start[i],
                                matched_by(ev, if i < j { k + 1 } else { k as int }, start[i].beacon@),
                                local_name,
                                address,
                                rssi,
                            ),
                    decreases n - j,
                {
                    let hit = same_address(&devices[j].beacon, &key);
                    proof {
                        let d = start[j as int].beacon@;
                        assert(devices@[j as int].beacon == start[j as int].beacon);
                        if hit {
                            assert(entry_matches(ev[k as int], d));
                            assert(matched_by(ev, k + 1, d));
                        } else {
                            if matched_by(ev, k + 1, d) {
                                let w = choose|w: int|
                                    0 <= w < k + 1 && w < ev.len() && #[trigger] entry_matches(
                                        ev[w],
                                        d,
                                    );
                                if w < k {
                                    assert(matched_by(ev, k as int, d));
                                }
                            }
                        }
                    }
                    if hit {
                        let mut dev = devices.remove(j);
                        dev.local_name = clone_name(&local_name);
                        dev.ble_address = Some(address.clone());
                        dev.rssi = rssi;
                        devices.insert(j, dev);
                    }
                    proof {
                        assert forall|i: int| 0 <= i < n implies attached(
                            #[trigger] devices@[i],
                            start[i],
                            matched_by(ev, if i < j + 1 { k + 1 } else { k as int }, start[i].beacon@),
                            local_name,
                            address,
                            rssi,
                        ) by {
                            if i != j {
                            }
                        }
                    }
                    j += 1;
                }
            },
            None => {
                proof {
                    assert forall|i: int| 0 <= i < n implies matched_by(ev, k + 1, start[i].beacon@)
                        == matched_by(ev, k as int, start[i].beacon@) by {
                        if matched_by(ev, k + 1, start[i].beacon@) {
                            let d = start[i].beacon@;
                            let w = choose|w: int|
                                0 <= w < k + 1 && w < ev.len() && #[trigger] entry_matches(ev[w], d);
                            assert(w != k);
                        }
                    }
                }
            },
        }
        k += 1;
    }
}

} // verus!
