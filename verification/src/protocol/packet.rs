//! Packets as they travel over the BLE write/notify characteristics.
//!
//! Wire format:
//!   [seq: 1][cmd_id: 1][msg_type: 1][fragment: 1][payload_len: 1][payload...]
use super::constants::{CMD_HANDSHAKE, HANDSHAKE_PREFIX};
use super::types::{message_type_of, message_type_value, MessageType};
use vstd::prelude::*;

verus! {

/// A BLE protocol packet sent to or received from the earbuds.
#[derive(Debug, Clone)]
pub struct Packet {
    pub seq: u8,
    pub cmd_id: u8,
    pub msg_type: MessageType,
    pub fragment: u8,
    pub payload: Vec<u8>,
}

/// The mathematical content of a packet.
pub struct PacketView {
    pub seq: u8,
    pub cmd_id: u8,
    pub msg_type: MessageType,
    pub fragment: u8,
    pub payload: Seq<u8>,
}

impl View for Packet {
    type V = PacketView;

    open spec fn view(&self) -> PacketView {
        PacketView {
            seq: self.seq,
            cmd_id: self.cmd_id,
            msg_type: self.msg_type,
            fragment: self.fragment,
            payload: self.payload@,
        }
    }
}

/// The bytes of a packet on the wire. The length byte holds the payload
/// length modulo 256.
pub open spec fn packet_bytes(p: PacketView) -> Seq<u8> {
    seq![
        p.seq,
        p.cmd_id,
        message_type_value(p.msg_type),
        p.fragment,
        (p.payload.len() % 256) as u8,
    ] + p.payload
}

/// The packet that a byte string encodes: at least five bytes with a known
/// message type; the payload is everything after the header (the length
/// byte is not consulted).
pub open spec fn parse_packet(d: Seq<u8>) -> Option<PacketView> {
    if d.len() < 5 {
        None
    } else {
        match message_type_of(d[2]) {
            Some(mt) => Some(
                PacketView {
                    seq: d[0],
                    cmd_id: d[1],
                    msg_type: mt,
                    fragment: d[3],
                    payload: d.subrange(5, d.len() as int),
                },
            ),
            None => None,
        }
    }
}

/// Payload of a handshake query for some info IDs: `FF 00` followed by
/// `id 00` for each ID.
pub open spec fn query_payload(ids: Seq<u8>) -> Seq<u8>
    decreases ids.len(),
{
    if ids.len() == 0 {
        seq![0xFFu8, 0x00u8]
    } else {
        query_payload(ids.drop_last()) + seq![ids.last(), 0x00u8]
    }
}

impl Packet {
    /// A request packet; the sequence number keeps its low four bits.
    pub fn new_request(seq: u8, cmd_id: u8, payload: Vec<u8>) -> (p: Self)
        ensures
            p.seq == seq & 0x0F,
            p.seq < 16,
            p.cmd_id == cmd_id,
            p.msg_type == MessageType::Request,
            p.fragment == 0,
            p.payload@ == payload@,
    {
        let s = seq & 0x0F;
        assert(s < 16) by (bit_vector)
            requires
                s == seq & 0x0F,
        ;
        Self { seq: s, cmd_id, msg_type: MessageType::Request, fragment: 0x00, payload }
    }

    /// A response packet; the sequence number keeps its low four bits.
    pub fn new_response(seq: u8, cmd_id: u8, payload: Vec<u8>) -> (p: Self)
        ensures
            p.seq == seq & 0x0F,
            p.seq < 16,
            p.cmd_id == cmd_id,
            p.msg_type == MessageType::Response,
            p.fragment == 0,
            p.payload@ == payload@,
    {
        let s = seq & 0x0F;
        assert(s < 16) by (bit_vector)
            requires
                s == seq & 0x0F,
        ;
        Self { seq: s, cmd_id, msg_type: MessageType::Response, fragment: 0x00, payload }
    }

    /// The packet's bytes on the wire.
    pub fn to_bytes(&self) -> (bytes: Vec<u8>)
        ensures
            bytes@ == packet_bytes(self@),
    {
        let len_byte: u8 = (self.payload.len() % 256) as u8;
        let mut bytes = vec![self.seq, self.cmd_id, self.msg_type.as_u8(), self.fragment, len_byte];
        let mut i: usize = 0;
        while i < self.payload.len()
            invariant
                i <= self.payload@.len(),
                bytes@ == seq![
                    self.seq,
                    self.cmd_id,
                    message_type_value(self.msg_type),
                    self.fragment,
                    len_byte,
                ] + self.payload@.subrange(0, i as int),
            decreases self.payload@.len() - i,
        {
            bytes.push(self.payload[i]);
            i = i + 1;
            assert(bytes@ =~= seq![
                self.seq,
                self.cmd_id,
                message_type_value(self.msg_type),
                self.fragment,
                len_byte,
            ] + self.payload@.subrange(0, i as int));
        }
        assert(self.payload@.subrange(0, i as int) =~= self.payload@);
        bytes
    }

    /// Decodes a packet: `None` for fewer than five bytes or an unknown
    /// message type.
    pub fn from_bytes(data: &[u8]) -> (r: Option<Self>)
        ensures
            r is Some == parse_packet(data@) is Some,
            r matches Some(p) ==> parse_packet(data@) == Some(p@),
    {
        if data.len() < 5 {
            return None;
        }
        let msg_type = match MessageType::from_u8(data[2]) {
            Some(m) => m,
            None => return None,
        };
        let mut payload: Vec<u8> = Vec::new();
        let mut i: usize = 5;
        while i < data.len()
            invariant
                5 <= i <= data@.len(),
                payload@ == data@.subrange(5, i as int),
            decreases data@.len() - i,
        {
            payload.push(data[i]);
            i = i + 1;
            assert(payload@ =~= data@.subrange(5, i as int));
        }
        let p = Self { seq: data[0], cmd_id: data[1], msg_type, fragment: data[3], payload };
        assert(parse_packet(data@) == Some(p@));
        Some(p)
    }

    /// A handshake query (sequence number 0) asking for the given info IDs.
    pub fn handshake_query(info_ids: &[u8]) -> (p: Self)
        ensures
            p.seq == 0,
            p.cmd_id == CMD_HANDSHAKE,
            p.msg_type == MessageType::Request,
            p.fragment == 0,
            p.payload@ == query_payload(info_ids@),
    {
        let payload = query_payload_bytes(info_ids);
        let p = Self::new_request(0, CMD_HANDSHAKE, payload);
        assert(0u8 & 0x0F == 0) by (bit_vector);
        p
    }
}

/// Builds the payload of a handshake query for the given info IDs.
pub fn query_payload_bytes(info_ids: &[u8]) -> (payload: Vec<u8>)
    ensures
        payload@ == query_payload(info_ids@),
{
    let mut payload = vec![HANDSHAKE_PREFIX[0], HANDSHAKE_PREFIX[1]];
    let mut i: usize = 0;
    assert(payload@ =~= query_payload(info_ids@.subrange(0, 0)));
    while i < info_ids.len()
        invariant
            i <= info_ids@.len(),
            payload@ == query_payload(info_ids@.subrange(0, i as int)),
        decreases info_ids@.len() - i,
    {
        payload.push(info_ids[i]);
        payload.push(0x00);
        let ghost prev = info_ids@.subrange(0, i as int);
        i = i + 1;
        assert(info_ids@.subrange(0, i as int).drop_last() =~= prev);
        assert(payload@ =~= query_payload(info_ids@.subrange(0, i as int)));
    }
    assert(info_ids@.subrange(0, i as int) =~= info_ids@);
    payload
}

/// Decoding the bytes of any packet gives that packet back.
pub proof fn lemma_packet_roundtrip(p: PacketView)
    ensures
        parse_packet(packet_bytes(p)) == Some(p),
{
    let b = packet_bytes(p);
    assert(b.subrange(5, b.len() as int) =~= p.payload);
    assert(message_type_of(message_type_value(p.msg_type)) == Some(p.msg_type));
}

/// Bytes that decode to a packet and whose length byte matches the payload
/// encode exactly that packet.
pub proof fn lemma_bytes_roundtrip(d: Seq<u8>)
    requires
        parse_packet(d) is Some,
        d[4] as int == (d.len() - 5) % 256,
    ensures
        packet_bytes(parse_packet(d).unwrap()) == d,
{
    let p = parse_packet(d).unwrap();
    assert(message_type_value(p.msg_type) == d[2]);
    assert(packet_bytes(p) =~= d);
}

} // verus!
