//! DeviceBeacon: the proprietary beacon that Oraimo/SpaceBuds devices embed in
//! the BLE Manufacturer Specific Data field (AD type 0xFF).
//!
//! The beacon encodes a version (1-4), a 16-bit little-endian product ID, the
//! Bluetooth MAC address (XOR-obfuscated with 0xAD in V2/V3/V4), connection
//! and auth flags, and, in V1, battery levels with charging bits; V2 adds a
//! brand ID.
//!
//! | Version | Data length | Notes                              |
//! |---------|-------------|------------------------------------|
//! | V1      | 13 bytes    | battery levels + charging          |
//! | V2      | 13 bytes    | brand ID, MAC XOR'd                |
//! | V3      | 8 bytes     | minimal, MAC XOR'd, no battery     |
//! | V4      | 27/13/9     | extended, MAC XOR'd                |
//!
//! The version is told apart by length: 8 bytes is V3; for 9, 13 and 27
//! bytes the low nibble of byte 0 decides (1 = V1 at 13 bytes, V4 at 9 or
//! 27; 2 = V2; anything else is read as V4).
use crate::protocol::types::mac_text;
use crate::protocol::types::format_mac;
use vstd::prelude::*;
use vstd::string::*;

pub mod scanner;

verus! {

/// Manufacturer IDs observed on these devices in the wild.
pub const ORAIMO_MANUFACTURER_IDS: [u16; 1] = [0x00E0];

/// Result of parsing a DeviceBeacon from manufacturer data.
#[derive(Debug, Clone)]
pub struct DeviceBeacon {
    /// Beacon format version (1-4)
    pub version: u8,
    /// Product ID (e.g. 64 = SpaceBuds Neo 2, 65 = SpaceBuds 2)
    pub product_id: u16,
    /// Bluetooth MAC address (de-obfuscated)
    pub bt_address: Option<[u8; 6]>,
    /// Whether the device is currently connected (to a phone)
    pub connected: bool,
    /// Whether authentication is required
    pub need_auth: bool,
    /// Whether the device uses a custom SPP UUID
    pub use_custom_spp_uuid: bool,
    /// Brand ID (V2 only)
    pub brand_id: Option<u32>,
    /// Left bud battery level 0-100 (V1 only)
    pub left_battery: Option<u8>,
    /// Right bud battery level 0-100 (V1 only)
    pub right_battery: Option<u8>,
    /// Case battery level 0-100 (V1 only)
    pub case_battery: Option<u8>,
    /// Left bud charging (V1 only)
    pub left_charging: Option<bool>,
    /// Right bud charging (V1 only)
    pub right_charging: Option<bool>,
    /// Case charging (V1 only)
    pub case_charging: Option<bool>,
}

/// The content of a beacon, with the address as a byte sequence.
pub struct BeaconView {
    pub version: u8,
    pub product_id: u16,
    pub bt_address: Option<Seq<u8>>,
    pub connected: bool,
    pub need_auth: bool,
    pub use_custom_spp_uuid: bool,
    pub brand_id: Option<u32>,
    pub left_battery: Option<u8>,
    pub right_battery: Option<u8>,
    pub case_battery: Option<u8>,
    pub left_charging: Option<bool>,
    pub right_charging: Option<bool>,
    pub case_charging: Option<bool>,
}

impl View for DeviceBeacon {
    type V = BeaconView;

    open spec fn view(&self) -> BeaconView {
        BeaconView {
            version: self.version,
            product_id: self.product_id,
            bt_address: match self.bt_address {
                Some(a) => Some(a@),
                None => None,
            },
            connected: self.connected,
            need_auth: self.need_auth,
            use_custom_spp_uuid: self.use_custom_spp_uuid,
            brand_id: self.brand_id,
            left_battery: self.left_battery,
            right_battery: self.right_battery,
            case_battery: self.case_battery,
            left_charging: self.left_charging,
            right_charging: self.right_charging,
            case_charging: self.case_charging,
        }
    }
}

/// A little-endian 16-bit value.
pub open spec fn le16(lo: u8, hi: u8) -> u16 {
    (lo as int + 256 * hi as int) as u16
}

/// Each byte XOR'd with a key.
pub open spec fn xor_seq(s: Seq<u8>, key: u8) -> Seq<u8> {
    Seq::new(s.len(), |i: int| s[i] ^ key)
}

/// Bits 2-3 of a flags byte read 1: connected to a phone.
pub open spec fn flags_connected(flags: u8) -> bool {
    ((flags >> 2u8) & 0x03u8) == 1
}

/// The battery level of a V1 battery byte: its low seven bits, held to at
/// most 100 percent.
pub open spec fn v1_level(raw: u8) -> u8 {
    if (raw & 0x7Fu8) > 100 { 100u8 } else { raw & 0x7Fu8 }
}

/// V1 layout: [ver][pid:2][mac:6 plain][flags][left][right][case]; each
/// battery byte has the charging bit at 0x80 and the level in the low seven
/// bits, read as a percentage of at most 100.
pub open spec fn beacon_v1(d: Seq<u8>) -> BeaconView {
    BeaconView {
        version: 1,
        product_id: le16(d[1], d[2]),
        bt_address: Some(d.subrange(3, 9)),
        connected: flags_connected(d[9]),
        need_auth: (d[9] & 0x01u8) != 0,
        use_custom_spp_uuid: false,
        brand_id: None,
        left_battery: Some(v1_level(d[10])),
        right_battery: Some(v1_level(d[11])),
        case_battery: Some(v1_level(d[12])),
        left_charging: Some((d[10] & 0x80u8) != 0),
        right_charging: Some((d[11] & 0x80u8) != 0),
        case_charging: Some((d[12] & 0x80u8) != 0),
    }
}

/// V2 layout: [ver][pid:2][mac:6 xor][flags][brand:3 little-endian].
pub open spec fn beacon_v2(d: Seq<u8>) -> BeaconView {
    BeaconView {
        version: 2,
        product_id: le16(d[1], d[2]),
        bt_address: Some(xor_seq(d.subrange(3, 9), 0xAD)),
        connected: flags_connected(d[9]),
        need_auth: (d[9] & 0x01u8) != 0,
        use_custom_spp_uuid: ((d[9] >> 4u8) & 0x01u8) != 0,
        brand_id: Some((d[10] as int + 256 * d[11] as int + 65536 * d[12] as int) as u32),
        left_battery: None,
        right_battery: None,
        case_battery: None,
        left_charging: None,
        right_charging: None,
        case_charging: None,
    }
}

/// V3 layout: [pid:2][mac:6 xor].
pub open spec fn beacon_v3(d: Seq<u8>) -> BeaconView {
    BeaconView {
        version: 3,
        product_id: le16(d[0], d[1]),
        bt_address: Some(xor_seq(d.subrange(2, 8), 0xAD)),
        connected: false,
        need_auth: false,
        use_custom_spp_uuid: false,
        brand_id: None,
        left_battery: None,
        right_battery: None,
        case_battery: None,
        left_charging: None,
        right_charging: None,
        case_charging: None,
    }
}

/// Product IDs whose beacons report "connected" whenever byte 0 exceeds 1.
pub open spec fn special_pid(pid: u16) -> bool {
    pid == 19 || pid == 21 || pid == 25 || pid == 32 || pid == 33 || pid == 34 || pid == 20
        || pid == 6 || pid == 12288 || pid == 12289 || pid == 17
}

/// V4 layout: [ver][pid:2][mac:6 xor][flags?...]; the flags are byte 9 when
/// present, byte 0 otherwise.
pub open spec fn beacon_v4(d: Seq<u8>) -> BeaconView {
    let pid = le16(d[1], d[2]);
    BeaconView {
        version: 4,
        product_id: pid,
        bt_address: Some(xor_seq(d.subrange(3, 9), 0xAD)),
        connected: if special_pid(pid) && d[0] > 1 {
            true
        } else {
            flags_connected(if d.len() > 9 { d[9] } else { d[0] })
        },
        need_auth: false,
        use_custom_spp_uuid: false,
        brand_id: None,
        left_battery: None,
        right_battery: None,
        case_battery: None,
        left_charging: None,
        right_charging: None,
        case_charging: None,
    }
}

/// The beacon that manufacturer data encodes, if any.
pub open spec fn parse_beacon(d: Seq<u8>) -> Option<BeaconView> {
    if d.len() == 8 {
        Some(beacon_v3(d))
    } else if d.len() == 9 || d.len() == 13 || d.len() == 27 {
        let version = d[0] & 0x0Fu8;
        if version == 1 {
            if d.len() == 27 || d.len() == 9 {
                Some(beacon_v4(d))
            } else {
                Some(beacon_v1(d))
            }
        } else if version == 2 {
            if d.len() >= 13 {
                Some(beacon_v2(d))
            } else {
                None
            }
        } else {
            Some(beacon_v4(d))
        }
    } else {
        None
    }
}

/// Whenever a beacon carries a flags byte (data longer than nine bytes),
/// "connected" is bits 2-3 of byte 9 reading 1, whatever the other bytes
/// hold; the one exception is a V4 beacon of a listed product whose first
/// byte exceeds 1, which always reads as connected.
pub proof fn law_connected_from_flags_byte(d: Seq<u8>)
    requires
        d.len() > 9,
        parse_beacon(d) is Some,
        !(parse_beacon(d).unwrap().version == 4 && special_pid(le16(d[1], d[2])) && d[0] > 1),
    ensures
        parse_beacon(d).unwrap().connected == (((d[9] >> 2u8) & 0x03u8) == 1u8),
{
}

/// A V4 beacon of a listed product whose first byte exceeds 1 reads as
/// connected, whatever its flags.
pub proof fn law_listed_products_connected(d: Seq<u8>)
    requires
        parse_beacon(d) is Some,
        parse_beacon(d).unwrap().version == 4,
        special_pid(le16(d[1], d[2])),
        d[0] > 1,
    ensures
        parse_beacon(d).unwrap().connected,
{
}

/// Human-readable product name for a product ID.
pub open spec fn product_name_text(pid: u16) -> Seq<char> {
    if pid == 64 {
        "SpaceBuds Neo 2"@
    } else if pid == 65 {
        "SpaceBuds 2"@
    } else if pid == 4100 {
        "OpenSnap Hayato"@
    } else if pid == 4101 {
        "OPN671"@
    } else if pid == 55 {
        "627S"@
    } else {
        "Oraimo SpaceBuds"@
    }
}

fn le16_of(lo: u8, hi: u8) -> (v: u16)
    ensures
        v == le16(lo, hi),
{
    (lo as u16) + (hi as u16) * 256
}

fn connected_of(flags: u8) -> (c: bool)
    ensures
        c == flags_connected(flags),
{
    ((flags >> 2u8) & 0x03u8) == 1
}

fn level_of_v1(raw: u8) -> (l: u8)
    ensures
        l == v1_level(raw),
        l <= 100,
{
    let level = raw & 0x7F;
    if level > 100 {
        100
    } else {
        level
    }
}

fn mac_at(data: &[u8], start: usize) -> (a: [u8; 6])
    requires
        start + 6 <= data@.len(),
    ensures
        a@ == data@.subrange(start as int, start + 6),
{
    let a = [
        data[start],
        data[start + 1],
        data[start + 2],
        data[start + 3],
        data[start + 4],
        data[start + 5],
    ];
    assert(a@ =~= data@.subrange(start as int, start + 6));
    a
}

impl DeviceBeacon {
    /// Parses a DeviceBeacon from manufacturer-specific data bytes; `None`
    /// when the data is not a beacon.
    pub fn from_manufacturer_data(data: &[u8]) -> (r: Option<Self>)
        ensures
            r is Some == parse_beacon(data@) is Some,
            r matches Some(b) ==> parse_beacon(data@) == Some(b@),
    {
        if data.is_empty() {
            return None;
        }
        let len = data.len();
        match len {
            8 => Self::parse_v3(data),
            9 | 13 | 27 => {
                let version = data[0] & 0x0F;
                match version {
                    1 => {
                        if len == 27 || len == 9 {
                            Self::parse_v4(data)
                        } else {
                            Self::parse_v1(data)
                        }
                    },
                    2 => Self::parse_v2(data),
                    _ => Self::parse_v4(data),
                }
            },
            _ => None,
        }
    }

    /// V1 (13 bytes): plain MAC, flags and battery levels.
    fn parse_v1(data: &[u8]) -> (r: Option<Self>)
        ensures
            data@.len() < 13 ==> r is None,
            data@.len() >= 13 ==> (r matches Some(b) && b@ == beacon_v1(data@)),
    {
        if data.len() < 13 {
            return None;
        }
        let product_id = le16_of(data[1], data[2]);
        let bt_addr = mac_at(data, 3);
        let flags = data[9];
        let need_auth = (flags & 0x01) != 0;
        let connected = connected_of(flags);
        let left_raw = data[10];
        let right_raw = data[11];
        let case_raw = data[12];
        let b = Self {
            version: 1,
            product_id,
            bt_address: Some(bt_addr),
            connected,
            need_auth,
            use_custom_spp_uuid: false,
            brand_id: None,
            left_battery: Some(level_of_v1(left_raw)),
            right_battery: Some(level_of_v1(right_raw)),
            case_battery: Some(level_of_v1(case_raw)),
            left_charging: Some((left_raw & 0x80) != 0),
            right_charging: Some((right_raw & 0x80) != 0),
            case_charging: Some((case_raw & 0x80) != 0),
        };
        Some(b)
    }

    /// V2 (13 bytes): XOR'd MAC, flags and a 24-bit brand ID.
    fn parse_v2(data: &[u8]) -> (r: Option<Self>)
        ensures
            data@.len() < 13 ==> r is None,
            data@.len() >= 13 ==> (r matches Some(b) && b@ == beacon_v2(data@)),
    {
        if data.len() < 13 {
            return None;
        }
        let product_id = le16_of(data[1], data[2]);
        let mut bt_addr = mac_at(data, 3);
        deobfuscate_bt_address(&mut bt_addr);
        let flags = data[9];
        let need_auth = (flags & 0x01) != 0;
        let connected = connected_of(flags);
        let use_custom_spp_uuid = ((flags >> 4u8) & 0x01) != 0;
        let brand_id: u32 = (data[10] as u32) + (data[11] as u32) * 256 + (data[12] as u32)
            * 65536;
        let b = Self {
            version: 2,
            product_id,
            bt_address: Some(bt_addr),
            connected,
            need_auth,
            use_custom_spp_uuid,
            brand_id: Some(brand_id),
            left_battery: None,
            right_battery: None,
            case_battery: None,
            left_charging: None,
            right_charging: None,
            case_charging: None,
        };
        assert(b@.bt_address == Some(xor_seq(data@.subrange(3, 9), 0xAD)));
        Some(b)
    }

    /// V3 (8 bytes): product ID and XOR'd MAC only.
    fn parse_v3(data: &[u8]) -> (r: Option<Self>)
        ensures
            data@.len() < 8 ==> r is None,
            data@.len() >= 8 ==> (r matches Some(b) && b@ == beacon_v3(data@)),
    {
        if data.len() < 8 {
            return None;
        }
        let product_id = le16_of(data[0], data[1]);
        let mut bt_addr = mac_at(data, 2);
        deobfuscate_bt_address(&mut bt_addr);
        let b = Self {
            version: 3,
            product_id,
            bt_address: Some(bt_addr),
            connected: false,
            need_auth: false,
            use_custom_spp_uuid: false,
            brand_id: None,
            left_battery: None,
            right_battery: None,
            case_battery: None,
            left_charging: None,
            right_charging: None,
            case_charging: None,
        };
        assert(b@.bt_address == Some(xor_seq(data@.subrange(2, 8), 0xAD)));
        Some(b)
    }

    /// V4 (27, 13 or 9 bytes): XOR'd MAC and a connection flag.
    fn parse_v4(data: &[u8]) -> (r: Option<Self>)
        ensures
            data@.len() < 9 ==> r is None,
            data@.len() >= 9 ==> (r matches Some(b) && b@ == beacon_v4(data@)),
    {
        if data.len() < 9 {
            return None;
        }
        let product_id = le16_of(data[1], data[2]);
        let mut bt_addr = mac_at(data, 3);
        deobfuscate_bt_address(&mut bt_addr);
        let is_special_pid = matches!(
            product_id,
            19 | 21 | 25 | 32 | 33 | 34 | 20 | 6 | 12288 | 12289 | 17
        );
        let connected = if is_special_pid && data[0] > 1 {
            true
        } else {
            let flags = if data.len() > 9 {
                data[9]
            } else {
                data[0]
            };
            connected_of(flags)
        };
        let b = Self {
            version: 4,
            product_id,
            bt_address: Some(bt_addr),
            connected,
            need_auth: false,
            use_custom_spp_uuid: false,
            brand_id: None,
            left_battery: None,
            right_battery: None,
            case_battery: None,
            left_charging: None,
            right_charging: None,
            case_charging: None,
        };
        assert(b@.bt_address == Some(xor_seq(data@.subrange(3, 9), 0xAD)));
        Some(b)
    }

    /// The address as `XX:XX:XX:XX:XX:XX` in upper-case hex.
    pub fn bt_address_string(&self) -> (r: Option<String>)
        ensures
            match self.bt_address {
                Some(a) => r matches Some(s) && s@ == mac_text(a@),
                None => r is None,
            },
    {
        match &self.bt_address {
            Some(addr) => Some(format_mac(addr)),
            None => None,
        }
    }

    /// Human-readable product name for known product IDs.
    pub fn product_name(&self) -> (r: &'static str)
        ensures
            r@ == product_name_text(self.product_id),
    {
        match self.product_id {
            64 => "SpaceBuds Neo 2",
            65 => "SpaceBuds 2",
            4100 => "OpenSnap Hayato",
            4101 => "OPN671",
            55 => "627S",
            _ => "Oraimo SpaceBuds",
        }
    }
}

/// XORs every byte of `data` with `key`.
pub fn xor_bytes(data: &mut [u8], key: u8)
    ensures
        final(data)@ == xor_seq(old(data)@, key),
{
    let n = data.len();
    let mut i: usize = 0;
    while i < n
        invariant
            n == data@.len(),
            i <= n,
            data@.len() == old(data)@.len(),
            forall|k: int| 0 <= k < i ==> data@[k] == old(data)@[k] ^ key,
            forall|k: int| i <= k < n ==> data@[k] == old(data)@[k],
        decreases n - i,
    {
        let b = data[i];
        data[i] = b ^ key;
        i = i + 1;
    }
    assert(data@ =~= xor_seq(old(data)@, key));
}

/// De-obfuscates a Bluetooth address by XORing each byte with 0xAD.
pub fn deobfuscate_bt_address(addr: &mut [u8])
    ensures
        final(addr)@ == xor_seq(old(addr)@, 0xAD),
{
    xor_bytes(addr, 0xAD);
}

/// XORing with the same key twice gives the bytes back: de-obfuscation is its
/// own inverse.
pub proof fn lemma_xor_involution(s: Seq<u8>, key: u8)
    ensures
        xor_seq(xor_seq(s, key), key) == s,
{
    assert forall|i: int| 0 <= i < s.len() implies #[trigger] xor_seq(xor_seq(s, key), key)[i]
        == s[i] by {
        let b = s[i];
        assert((b ^ key) ^ key == b) by (bit_vector);
    }
    assert(xor_seq(xor_seq(s, key), key) =~= s);
}

} // verus!
