//! Controllers for one-shot device operations. Each one knows the request
//! it sends and how to read the reply; the transport carries the bytes.
use crate::device::SpaceBuds;
use crate::protocol::constants::{
    CMD_FACTORY_RESET, CMD_FIND_DEVICE, CMD_HANDSHAKE, CMD_KEY_SETTINGS, CMD_WORK_MODE, ID_BATTERY,
    ID_WORK_MODE,
};
use crate::protocol::packet::{query_payload, query_payload_bytes, Packet};
use crate::protocol::tlv::{tlv_entries, tlv_find_bytes, tlv_find_int, TlvParser};
use vstd::prelude::*;

verus! {

/// A percentage capped at 100.
pub open spec fn capped(v: u8) -> u8 {
    if v > 100 {
        100
    } else {
        v
    }
}

/// The byte at `i`, capped at 100, when there is one.
pub open spec fn capped_at(d: Seq<u8>, i: int) -> Option<u8> {
    if i < d.len() {
        Some(capped(d[i]))
    } else {
        None
    }
}

/// The (left, right, case) levels of a battery reply: the first battery
/// entry of a handshake reply gives up to three bytes, each capped at 100.
pub open spec fn battery_reply(p: crate::protocol::packet::PacketView) -> Option<
    (Option<u8>, Option<u8>, Option<u8>),
> {
    if p.cmd_id != CMD_HANDSHAKE {
        None
    } else {
        match tlv_find_bytes(p.payload, 0, ID_BATTERY).0 {
            Some(e) => Some((capped_at(e, 0), capped_at(e, 1), capped_at(e, 2))),
            None => None,
        }
    }
}

fn cap_at(d: &[u8], i: usize) -> (r: Option<u8>)
    ensures
        r == capped_at(d@, i as int),
{
    if i < d.len() {
        let v = d[i];
        Some(
            if v > 100 {
                100
            } else {
                v
            },
        )
    } else {
        None
    }
}

/// Reads battery levels.
pub struct BatteryController {
    buds: SpaceBuds,
}

impl BatteryController {
    pub fn new(buds: SpaceBuds) -> (c: Self)
        ensures
            c.buds() == buds,
    {
        Self { buds }
    }

    /// The device handle.
    pub closed spec fn buds(&self) -> SpaceBuds {
        self.buds
    }

    /// The handshake payload that asks for the battery levels.
    pub fn levels_query(&self) -> (payload: Vec<u8>)
        ensures
            payload@ == query_payload(seq![ID_BATTERY]),
    {
        let ids: [u8; 1] = [ID_BATTERY];
        let r = query_payload_bytes(&ids);
        assert(ids@ =~= seq![ID_BATTERY]);
        r
    }

    /// Reads (left, right, case) levels from a reply; `None` when the reply
    /// is not a handshake reply with a battery entry.
    pub fn parse_levels(&self, packet: &Packet) -> (r: Option<(Option<u8>, Option<u8>, Option<u8>)>)
        ensures
            r == battery_reply(packet@),
    {
        if packet.cmd_id != CMD_HANDSHAKE {
            return None;
        }
        let mut parser = TlvParser::new(packet.payload.as_slice());
        match parser.get_bytes(ID_BATTERY) {
            Some(data) => Some((cap_at(data, 0), cap_at(data, 1), cap_at(data, 2))),
            None => None,
        }
    }
}

/// Reads arbitrary device-info entries.
pub struct DeviceInfoController {
    buds: SpaceBuds,
}

impl DeviceInfoController {
    pub fn new(buds: SpaceBuds) -> (c: Self)
        ensures
            c.buds() == buds,
    {
        Self { buds }
    }

    /// The device handle.
    pub closed spec fn buds(&self) -> SpaceBuds {
        self.buds
    }

    /// The handshake payload that asks for the given info tags.
    pub fn multiple_query(&self, tags: &[u8]) -> (payload: Vec<u8>)
        ensures
            payload@ == query_payload(tags@),
    {
        query_payload_bytes(tags)
    }

    /// Every (tag, value) entry of a reply payload, in order.
    pub fn parse_multiple(&self, payload: &[u8]) -> (entries: Vec<(u8, Vec<u8>)>)
        ensures
            entries@.len() == tlv_entries(payload@, 0).len(),
            forall|i: int|
                0 <= i < entries@.len() ==> (#[trigger] entries@[i]).0 == tlv_entries(
                    payload@,
                    0,
                )[i].0 && entries@[i].1@ == tlv_entries(payload@, 0)[i].1,
    {
        let mut parser = TlvParser::new(payload);
        let raw = parser.collect_all();
        let mut entries: Vec<(u8, Vec<u8>)> = Vec::new();
        let mut i: usize = 0;
        while i < raw.len()
            invariant
                i <= raw@.len(),
                raw@.len() == tlv_entries(payload@, 0).len(),
                forall|k: int|
                    0 <= k < raw@.len() ==> (#[trigger] raw@[k]).0 == tlv_entries(payload@, 0)[k].0
                        && raw@[k].1@ == tlv_entries(payload@, 0)[k].1,
                entries@.len() == i,
                forall|k: int|
                    0 <= k < i ==> (#[trigger] entries@[k]).0 == tlv_entries(payload@, 0)[k].0
                        && entries@[k].1@ == tlv_entries(payload@, 0)[k].1,
            decreases raw@.len() - i,
        {
            let (tag, value) = raw[i];
            entries.push((tag, vstd::slice::slice_to_vec(value)));
            i = i + 1;
        }
        entries
    }
}

/// Performs a factory reset.
pub struct FactoryResetController {
    buds: SpaceBuds,
}

impl FactoryResetController {
    pub fn new(buds: SpaceBuds) -> (c: Self)
        ensures
            c.buds() == buds,
    {
        Self { buds }
    }

    /// The device handle.
    pub closed spec fn buds(&self) -> SpaceBuds {
        self.buds
    }

    /// The reset command and its (empty) payload. The earbuds will likely
    /// disconnect and reboot.
    pub fn reset_request(&self) -> (r: (u8, Vec<u8>))
        ensures
            r.0 == CMD_FACTORY_RESET,
            r.1@ == Seq::<u8>::empty(),
    {
        (CMD_FACTORY_RESET, Vec::new())
    }
}

/// Starts or stops the "find my earbuds" beep.
pub struct FindDeviceController {
    buds: SpaceBuds,
}

impl FindDeviceController {
    pub fn new(buds: SpaceBuds) -> (c: Self)
        ensures
            c.buds() == buds,
    {
        Self { buds }
    }

    /// The device handle.
    pub closed spec fn buds(&self) -> SpaceBuds {
        self.buds
    }

    /// The beep command: payload 1 starts it, 0 stops it.
    pub fn set_enabled_request(&self, enable: bool) -> (r: (u8, Vec<u8>))
        ensures
            r.0 == CMD_FIND_DEVICE,
            r.1@ == seq![if enable { 1u8 } else { 0u8 }],
    {
        let payload = vec![
            if enable {
                1
            } else {
                0
            },
        ];
        assert(payload@ =~= seq![if enable { 1u8 } else { 0u8 }]);
        (CMD_FIND_DEVICE, payload)
    }
}

/// Remaps touch gestures.
pub struct KeySettingsController {
    buds: SpaceBuds,
}

impl KeySettingsController {
    pub fn new(buds: SpaceBuds) -> (c: Self)
        ensures
            c.buds() == buds,
    {
        Self { buds }
    }

    /// The device handle.
    pub closed spec fn buds(&self) -> SpaceBuds {
        self.buds
    }

    /// The command that binds a gesture to a function: `[key_type, 1,
    /// key_function]`.
    pub fn configure_key_request(&self, key_type: u8, key_function: u8) -> (r: (u8, Vec<u8>))
        ensures
            r.0 == CMD_KEY_SETTINGS,
            r.1@ == seq![key_type, 1u8, key_function],
    {
        let payload = vec![key_type, 1, key_function];
        assert(payload@ =~= seq![key_type, 1u8, key_function]);
        (CMD_KEY_SETTINGS, payload)
    }
}

/// The game-mode flag of a work-mode reply: `Some(value == 1)` for a
/// handshake reply carrying the work-mode entry.
pub open spec fn game_mode_reply(p: crate::protocol::packet::PacketView) -> Option<bool> {
    if p.cmd_id != CMD_HANDSHAKE {
        None
    } else {
        match tlv_find_int(p.payload, 0, ID_WORK_MODE).0 {
            Some(v) => Some(v == 1),
            None => None,
        }
    }
}

/// Switches game (low latency) mode.
pub struct WorkModeController {
    buds: SpaceBuds,
}

impl WorkModeController {
    pub fn new(buds: SpaceBuds) -> (c: Self)
        ensures
            c.buds() == buds,
    {
        Self { buds }
    }

    /// The device handle.
    pub closed spec fn buds(&self) -> SpaceBuds {
        self.buds
    }

    /// The work-mode command: payload 1 for game mode, 0 for normal mode.
    pub fn set_game_mode_request(&self, enable: bool) -> (r: (u8, Vec<u8>))
        ensures
            r.0 == CMD_WORK_MODE,
            r.1@ == seq![if enable { 1u8 } else { 0u8 }],
    {
        let payload = vec![
            if enable {
                1
            } else {
                0
            },
        ];
        assert(payload@ =~= seq![if enable { 1u8 } else { 0u8 }]);
        (CMD_WORK_MODE, payload)
    }

    /// The handshake query for the current work mode.
    pub fn game_mode_query(&self) -> (r: (u8, Vec<u8>))
        ensures
            r.0 == CMD_HANDSHAKE,
            r.1@ == query_payload(seq![ID_WORK_MODE]),
    {
        let ids: [u8; 1] = [ID_WORK_MODE];
        let payload = query_payload_bytes(&ids);
        assert(ids@ =~= seq![ID_WORK_MODE]);
        (CMD_HANDSHAKE, payload)
    }

    /// Reads the work-mode reply: `Some(true)` for game mode, `Some(false)`
    /// for normal mode, `None` for any other packet.
    pub fn parse_game_mode(&self, packet: &Packet) -> (r: Option<bool>)
        ensures
            r == game_mode_reply(packet@),
    {
        if packet.cmd_id != CMD_HANDSHAKE {
            return None;
        }
        let mut parser = TlvParser::new(packet.payload.as_slice());
        match parser.get_int(ID_WORK_MODE) {
            Some(v) => Some(v == 1),
            None => None,
        }
    }
}

} // verus!
