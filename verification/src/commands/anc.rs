//! Active noise cancellation: mode and level commands.
use super::BleCommand;
use crate::error::Error;
use crate::protocol::constants::{
    CMD_ANC_GAIN, CMD_ANC_MODE, CMD_HANDSHAKE, CMD_TRANS_GAIN, ID_ANC_GAIN, ID_ANC_MAX,
    ID_ANC_MODE, ID_TRANS_GAIN, ID_TRANS_MAX,
};
use crate::protocol::tlv::{tlv_find_int, TlvParser};
use crate::protocol::types::{anc_mode_of, anc_mode_value, AncMode};
use vstd::prelude::*;

verus! {

/// ANC requests.
#[derive(Debug, Clone, Copy, PartialEq, Eq, Structural)]
pub enum AncCommand {
    GetMode,
    SetMode(AncMode),
    GetLevel,
    SetLevel(u8),
    SetAncLevel(u8),
    SetTransparencyLevel(u8),
}

/// Decoded ANC responses.
#[derive(Debug, Clone, Copy, PartialEq, Eq, Structural)]
pub enum AncResponse {
    Mode(AncMode),
    Level { current: u8, max: u8 },
    Ack,
}

/// The command byte of an ANC request.
pub open spec fn anc_cmd_id(c: AncCommand) -> u8 {
    match c {
        AncCommand::GetMode => CMD_HANDSHAKE,
        AncCommand::SetMode(_) => CMD_ANC_MODE,
        AncCommand::GetLevel => CMD_HANDSHAKE,
        AncCommand::SetLevel(_) => CMD_ANC_MODE,
        AncCommand::SetAncLevel(_) => CMD_ANC_GAIN,
        AncCommand::SetTransparencyLevel(_) => CMD_TRANS_GAIN,
    }
}

/// The payload of an ANC request.
pub open spec fn anc_payload(c: AncCommand) -> Seq<u8> {
    match c {
        AncCommand::GetMode => seq![0xFFu8, 0x00u8, ID_ANC_MODE, 0x00u8],
        AncCommand::SetMode(mode) => seq![anc_mode_value(mode)],
        AncCommand::GetLevel => seq![
            0xFFu8,
            0x00u8,
            ID_ANC_MODE,
            0x00u8,
            ID_ANC_GAIN,
            0x00u8,
            ID_ANC_MAX,
            0x00u8,
            ID_TRANS_GAIN,
            0x00u8,
            ID_TRANS_MAX,
            0x00u8,
        ],
        AncCommand::SetLevel(level) => seq![level],
        AncCommand::SetAncLevel(level) => seq![level],
        AncCommand::SetTransparencyLevel(level) => seq![level],
    }
}

/// The current level and maximum read from a level response: after the
/// mode entry, the ANC gain/max for ANC mode (1), the transparency
/// gain/max for transparency mode (2), and (0, 0) otherwise; a missing entry
/// reads as 0.
pub open spec fn anc_level_of(d: Seq<u8>) -> (u8, u8) {
    let (m, p1) = tlv_find_int(d, 0, ID_ANC_MODE);
    let mode = match m {
        Some(v) => v,
        None => 0u8,
    };
    if mode == 1 {
        let (c, p2) = tlv_find_int(d, p1, ID_ANC_GAIN);
        let (mx, _) = tlv_find_int(d, p2, ID_ANC_MAX);
        (c.unwrap_or(0), mx.unwrap_or(0))
    } else if mode == 2 {
        let (c, p2) = tlv_find_int(d, p1, ID_TRANS_GAIN);
        let (mx, _) = tlv_find_int(d, p2, ID_TRANS_MAX);
        (c.unwrap_or(0), mx.unwrap_or(0))
    } else {
        (0, 0)
    }
}

/// The decoded response of an ANC request.
pub open spec fn anc_decode(c: AncCommand, d: Seq<u8>) -> Result<AncResponse, Error> {
    match c {
        AncCommand::GetMode => match tlv_find_int(d, 0, ID_ANC_MODE).0 {
            None => Err(Error::Parse("ANC mode not found in response")),
            Some(v) => match anc_mode_of(v) {
                Some(m) => Ok(AncResponse::Mode(m)),
                None => Err(Error::UnknownAncMode(v)),
            },
        },
        AncCommand::GetLevel => Ok(
            AncResponse::Level { current: anc_level_of(d).0, max: anc_level_of(d).1 },
        ),
        _ => Ok(AncResponse::Ack),
    }
}

/// What a mode change reads back as: a device that reports the byte a
/// mode request sent as its ANC mode entry is read as that mode.
pub proof fn law_mode_read_back(m: AncMode)
    ensures
        anc_decode(
            AncCommand::GetMode,
            seq![ID_ANC_MODE, 1u8] + anc_payload(AncCommand::SetMode(m)),
        ) == Ok::<AncResponse, Error>(AncResponse::Mode(m)),
{
    let d = seq![ID_ANC_MODE, 1u8] + anc_payload(AncCommand::SetMode(m));
    assert(d.len() == 3);
    assert(d[2] == anc_mode_value(m));
    assert(tlv_find_int(d, 0, ID_ANC_MODE).0 == Some(anc_mode_value(m)));
}

/// What a level change reads back as: a level request carries just the
/// level, one byte, and a device that reports that byte as its gain entry
/// (ANC gain in noise-cancelling mode 1, transparency gain in mode 2),
/// followed by its maximum, is read as that level and maximum.
pub proof fn law_level_read_back(l: u8, mx: u8)
    ensures
        anc_payload(AncCommand::SetAncLevel(l)).len() == 1,
        anc_payload(AncCommand::SetTransparencyLevel(l)).len() == 1,
        anc_decode(
            AncCommand::GetLevel,
            seq![ID_ANC_MODE, 1u8, 1u8, ID_ANC_GAIN, 1u8] + anc_payload(AncCommand::SetAncLevel(l))
                + seq![ID_ANC_MAX, 1u8, mx],
        ) == Ok::<AncResponse, Error>(AncResponse::Level { current: l, max: mx }),
        anc_decode(
            AncCommand::GetLevel,
            seq![ID_ANC_MODE, 1u8, 2u8, ID_TRANS_GAIN, 1u8] + anc_payload(
                AncCommand::SetTransparencyLevel(l),
            ) + seq![ID_TRANS_MAX, 1u8, mx],
        ) == Ok::<AncResponse, Error>(AncResponse::Level { current: l, max: mx }),
{
    let a = seq![ID_ANC_MODE, 1u8, 1u8, ID_ANC_GAIN, 1u8] + anc_payload(AncCommand::SetAncLevel(l))
        + seq![ID_ANC_MAX, 1u8, mx];
    assert(a =~= seq![ID_ANC_MODE, 1u8, 1u8, ID_ANC_GAIN, 1u8, l, ID_ANC_MAX, 1u8, mx]);
    assert(tlv_find_int(a, 0, ID_ANC_MODE) == (Some(1u8), 3int));
    assert(tlv_find_int(a, 3, ID_ANC_GAIN) == (Some(l), 6int));
    assert(tlv_find_int(a, 6, ID_ANC_MAX) == (Some(mx), 9int));
    let t = seq![ID_ANC_MODE, 1u8, 2u8, ID_TRANS_GAIN, 1u8] + anc_payload(
        AncCommand::SetTransparencyLevel(l),
    ) + seq![ID_TRANS_MAX, 1u8, mx];
    assert(t =~= seq![ID_ANC_MODE, 1u8, 2u8, ID_TRANS_GAIN, 1u8, l, ID_TRANS_MAX, 1u8, mx]);
    assert(tlv_find_int(t, 0, ID_ANC_MODE) == (Some(2u8), 3int));
    assert(tlv_find_int(t, 3, ID_TRANS_GAIN) == (Some(l), 6int));
    assert(tlv_find_int(t, 6, ID_TRANS_MAX) == (Some(mx), 9int));
}

fn read_int_or_zero(parser: &mut TlvParser, tag: u8) -> (v: u8)
    ensures
        final(parser).data() == old(parser).data(),
        (v, final(parser).pos()) == ({
            let (r, p) = tlv_find_int(old(parser).data(), old(parser).pos(), tag);
            (r.unwrap_or(0), p)
        }),
{
    match parser.get_int(tag) {
        Some(v) => v,
        None => 0,
    }
}

impl BleCommand for AncCommand {
    type Response = AncResponse;

    fn cmd_id(&self) -> (r: u8)
        ensures
            r == anc_cmd_id(*self),
    {
        match self {
            Self::GetMode => CMD_HANDSHAKE,
            Self::SetMode(_) => CMD_ANC_MODE,
            Self::GetLevel => CMD_HANDSHAKE,
            Self::SetLevel(_) => CMD_ANC_MODE,
            Self::SetAncLevel(_) => CMD_ANC_GAIN,
            Self::SetTransparencyLevel(_) => CMD_TRANS_GAIN,
        }
    }

    fn encode(&self) -> (r: Vec<u8>)
        ensures
            r@ == anc_payload(*self),
    {
        let r = match self {
            Self::GetMode => vec![0xFF, 0x00, ID_ANC_MODE, 0x00],
            Self::SetMode(mode) => vec![mode.as_u8()],
            Self::GetLevel => vec![
                0xFF,
                0x00,
                ID_ANC_MODE,
                0x00,
                ID_ANC_GAIN,
                0x00,
                ID_ANC_MAX,
                0x00,
                ID_TRANS_GAIN,
                0x00,
                ID_TRANS_MAX,
                0x00,
            ],
            Self::SetLevel(level) => vec![*level],
            Self::SetAncLevel(level) => vec![*level],
            Self::SetTransparencyLevel(level) => vec![*level],
        };
        assert(r@ =~= anc_payload(*self));
        r
    }

    fn decode(&self, payload: &[u8]) -> (r: Result<AncResponse, Error>)
        ensures
            r == anc_decode(*self, payload@),
    {
        match self {
            Self::GetMode => {
                let mut parser = TlvParser::new(payload);
                let mode_id = match parser.get_int(ID_ANC_MODE) {
                    Some(v) => v,
                    None => return Err(Error::Parse("ANC mode not found in response")),
                };
                match AncMode::from_u8(mode_id) {
                    Some(mode) => Ok(AncResponse::Mode(mode)),
                    None => Err(Error::UnknownAncMode(mode_id)),
                }
            },
            Self::GetLevel => {
                let mut parser = TlvParser::new(payload);
                let mode_id = read_int_or_zero(&mut parser, ID_ANC_MODE);
                let (current, max) = match mode_id {
                    1 => {
                        let c = read_int_or_zero(&mut parser, ID_ANC_GAIN);
                        let m = read_int_or_zero(&mut parser, ID_ANC_MAX);
                        (c, m)
                    },
                    2 => {
                        let c = read_int_or_zero(&mut parser, ID_TRANS_GAIN);
                        let m = read_int_or_zero(&mut parser, ID_TRANS_MAX);
                        (c, m)
                    },
                    _ => (0, 0),
                };
                Ok(AncResponse::Level { current, max })
            },
            Self::SetMode(_) | Self::SetLevel(_) | Self::SetAncLevel(_)
            | Self::SetTransparencyLevel(_) => Ok(AncResponse::Ack),
        }
    }
}

} // verus!
