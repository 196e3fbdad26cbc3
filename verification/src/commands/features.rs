//! Feature toggles (adaptive ANC, dual-device) and key-setting queries.
use super::BleCommand;
use crate::error::Error;
use crate::protocol::constants::{
    CMD_DUAL_DEVICE, CMD_ENV_ADAPTIVE, CMD_HANDSHAKE, ID_DUAL_DEVICE, ID_ENV_ADAPTIVE,
    ID_KEY_SETTINGS,
};
use crate::protocol::tlv::{tlv_find_bytes, tlv_find_int, TlvParser};
use std::collections::HashMap;
use vstd::prelude::*;

verus! {

broadcast use vstd::std_specs::hash::group_hash_axioms;

/// Feature requests.
#[derive(Debug, Clone, Copy, PartialEq, Eq, Structural)]
pub enum FeatureCommand {
    GetAdaptiveAnc,
    SetAdaptiveAnc(bool),
    GetDualDevice,
    SetDualDevice(bool),
    GetKeySettings,
}

/// Decoded feature responses.
#[derive(Debug, Clone)]
pub enum FeatureResponse {
    AdaptiveAnc(bool),
    DualDevice(bool),
    /// Gesture (key type) to function.
    KeySettings(HashMap<u8, u8>),
    Ack,
}

/// The command byte of a feature request.
pub open spec fn feature_cmd_id(c: FeatureCommand) -> u8 {
    match c {
        FeatureCommand::GetAdaptiveAnc => CMD_HANDSHAKE,
        FeatureCommand::GetDualDevice => CMD_HANDSHAKE,
        FeatureCommand::GetKeySettings => CMD_HANDSHAKE,
        FeatureCommand::SetAdaptiveAnc(_) => CMD_ENV_ADAPTIVE,
        FeatureCommand::SetDualDevice(_) => CMD_DUAL_DEVICE,
    }
}

/// The payload of a feature request.
pub open spec fn feature_payload(c: FeatureCommand) -> Seq<u8> {
    match c {
        FeatureCommand::GetAdaptiveAnc => seq![0xFFu8, 0x00u8, ID_ENV_ADAPTIVE, 0x00u8],
        FeatureCommand::SetAdaptiveAnc(e) => seq![if e { 1u8 } else { 0u8 }],
        FeatureCommand::GetDualDevice => seq![0xFFu8, 0x00u8, ID_DUAL_DEVICE, 0x00u8],
        FeatureCommand::SetDualDevice(e) => seq![0x01u8, 0x02u8, if e { 1u8 } else { 0u8 }],
        FeatureCommand::GetKeySettings => seq![ID_KEY_SETTINGS, 0x00u8],
    }
}

/// A switch reads as on when its entry holds 1; a missing entry reads 0.
pub open spec fn switch_on(d: Seq<u8>, tag: u8) -> bool {
    tlv_find_int(d, 0, tag).0.unwrap_or(0) == 1
}

/// Key mappings read from a key-settings value from offset `i` on: records
/// `[key_type, len, value...]` while more than two bytes remain; a record
/// of length 1 maps its key type to its value, later records win.
pub open spec fn key_map_from(e: Seq<u8>, i: int, m: Map<u8, u8>) -> Map<u8, u8>
    decreases e.len() + 256 - i,
{
    if 0 <= i && i + 2 < e.len() {
        let len = e[i + 1] as int;
        let m2 = if len == 1 && i + 3 <= e.len() {
            m.insert(e[i], e[i + 2])
        } else {
            m
        };
        key_map_from(e, i + 2 + len, m2)
    } else {
        m
    }
}

/// The key mappings of a key-settings response.
pub open spec fn key_settings_of(d: Seq<u8>) -> Map<u8, u8> {
    match tlv_find_bytes(d, 0, ID_KEY_SETTINGS).0 {
        Some(e) => key_map_from(e, 0, Map::empty()),
        None => Map::empty(),
    }
}

/// Reads the key mappings of a key-settings value.
pub fn parse_key_settings(data: &[u8]) -> (map: HashMap<u8, u8>)
    ensures
        map@ == key_map_from(data@, 0, Map::empty()),
{
    let mut map: HashMap<u8, u8> = HashMap::new();
    let mut i: usize = 0;
    loop
        invariant_except_break
            i <= data@.len(),
            key_map_from(data@, 0, Map::empty()) == key_map_from(data@, i as int, map@),
        ensures
            map@ == key_map_from(data@, 0, Map::empty()),
        decreases data@.len() - i,
    {
        if data.len() - i <= 2 {
            break;
        }
        let key_type = data[i];
        let len = data[i + 1] as usize;
        let ghost before = map@;
        if len == 1 && data.len() - i >= 3 {
            map.insert(key_type, data[i + 2]);
        }
        assert(key_map_from(data@, i as int, before) == key_map_from(
            data@,
            i + 2 + len,
            map@,
        ));
        if len >= data.len() - i - 2 {
            break;
        }
        i = i + 2 + len;
    }
    map
}

/// What a switch request reads back as: the adaptive ANC request carries
/// one byte, and a device that reports it as its adaptive entry is read as
/// the requested state; likewise a device that reports the last byte of a
/// dual-device request as its dual-device entry.
pub proof fn law_switch_read_back(e: bool)
    ensures
        feature_payload(FeatureCommand::SetAdaptiveAnc(e)).len() == 1,
        switch_on(
            seq![ID_ENV_ADAPTIVE, 1u8] + feature_payload(FeatureCommand::SetAdaptiveAnc(e)),
            ID_ENV_ADAPTIVE,
        ) == e,
        switch_on(
            seq![ID_DUAL_DEVICE, 1u8, feature_payload(FeatureCommand::SetDualDevice(e)).last()],
            ID_DUAL_DEVICE,
        ) == e,
{
    let v = feature_payload(FeatureCommand::SetAdaptiveAnc(e));
    let a = seq![ID_ENV_ADAPTIVE, 1u8] + v;
    assert(a =~= seq![ID_ENV_ADAPTIVE, 1u8, v[0]]);
    assert(tlv_find_int(a, 0, ID_ENV_ADAPTIVE).0 == Some(v[0]));
    let b = seq![ID_DUAL_DEVICE, 1u8, feature_payload(FeatureCommand::SetDualDevice(e)).last()];
    assert(tlv_find_int(b, 0, ID_DUAL_DEVICE).0 == Some(b[2]));
}

fn switch_value(payload: &[u8], tag: u8) -> (on: bool)
    ensures
        on == switch_on(payload@, tag),
{
    let mut parser = TlvParser::new(payload);
    let val = match parser.get_int(tag) {
        Some(v) => v,
        None => 0,
    };
    val == 1
}

impl BleCommand for FeatureCommand {
    type Response = FeatureResponse;

    fn cmd_id(&self) -> (r: u8)
        ensures
            r == feature_cmd_id(*self),
    {
        match self {
            Self::GetAdaptiveAnc | Self::GetDualDevice | Self::GetKeySettings => CMD_HANDSHAKE,
            Self::SetAdaptiveAnc(_) => CMD_ENV_ADAPTIVE,
            Self::SetDualDevice(_) => CMD_DUAL_DEVICE,
        }
    }

    fn encode(&self) -> (r: Vec<u8>)
        ensures
            r@ == feature_payload(*self),
    {
        let r = match self {
            Self::GetAdaptiveAnc => vec![0xFF, 0x00, ID_ENV_ADAPTIVE, 0x00],
            Self::SetAdaptiveAnc(enabled) => vec![
                if *enabled {
                    0x01
                } else {
                    0x00
                },
            ],
            Self::GetDualDevice => vec![0xFF, 0x00, ID_DUAL_DEVICE, 0x00],
            Self::SetDualDevice(enabled) => vec![
                0x01,
                0x02,
                if *enabled {
                    0x01
                } else {
                    0x00
                },
            ],
            Self::GetKeySettings => vec![ID_KEY_SETTINGS, 0x00],
        };
        assert(r@ =~= feature_payload(*self));
        r
    }

    fn decode(&self, payload: &[u8]) -> (r: Result<FeatureResponse, Error>)
        ensures
            match self {
                FeatureCommand::GetAdaptiveAnc => r matches Ok(FeatureResponse::AdaptiveAnc(v))
                    && v == switch_on(payload@, ID_ENV_ADAPTIVE),
                FeatureCommand::GetDualDevice => r matches Ok(FeatureResponse::DualDevice(v)) && v
                    == switch_on(payload@, ID_DUAL_DEVICE),
                FeatureCommand::GetKeySettings => r matches Ok(FeatureResponse::KeySettings(m))
                    && m@ == key_settings_of(payload@),
                _ => r matches Ok(FeatureResponse::Ack),
            },
    {
        match self {
            Self::GetAdaptiveAnc => Ok(
                FeatureResponse::AdaptiveAnc(switch_value(payload, ID_ENV_ADAPTIVE)),
            ),
            Self::GetDualDevice => Ok(
                FeatureResponse::DualDevice(switch_value(payload, ID_DUAL_DEVICE)),
            ),
            Self::GetKeySettings => {
                let mut parser = TlvParser::new(payload);
                let map = match parser.get_bytes(ID_KEY_SETTINGS) {
                    Some(data) => parse_key_settings(data),
                    None => HashMap::new(),
                };
                Ok(FeatureResponse::KeySettings(map))
            },
            Self::SetAdaptiveAnc(_) | Self::SetDualDevice(_) => Ok(FeatureResponse::Ack),
        }
    }
}

} // verus!
