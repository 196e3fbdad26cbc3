use spacepods::protocol::constants::{CMD_HANDSHAKE, ID_ANC_MODE, ID_BATTERY};
use spacepods::protocol::gestures::{GestureFunction, TouchGesture, TouchSensitivity};
use spacepods::protocol::packet::{query_payload_bytes, Packet};
use spacepods::protocol::tlv::TlvParser;
use spacepods::protocol::types::{format_mac, AncMode, BatteryLevel, ConnectionState, MacAddress, MessageType};

#[test]
fn request_packet_masks_sequence_and_encodes_header() {
    let p = Packet::new_request(0x13, 0x2C, vec![1]);
    assert_eq!(p.seq, 0x03);
    assert_eq!(p.to_bytes(), vec![0x03, 0x2C, 0x01, 0x00, 0x01, 0x01]);
}

#[test]
fn response_packet_type_byte() {
    let p = Packet::new_response(2, 0x27, vec![]);
    assert_eq!(p.to_bytes(), vec![0x02, 0x27, 0x02, 0x00, 0x00]);
}

#[test]
fn packet_roundtrip_through_bytes() {
    let p = Packet::new_request(5, 0x20, vec![10, 1, 6, 4]);
    let back = Packet::from_bytes(&p.to_bytes()).unwrap();
    assert_eq!(back.seq, 5);
    assert_eq!(back.cmd_id, 0x20);
    assert_eq!(back.msg_type, MessageType::Request);
    assert_eq!(back.payload, vec![10, 1, 6, 4]);
}

#[test]
fn packet_from_short_or_unknown_type_is_none() {
    assert!(Packet::from_bytes(&[1, 2, 1, 0]).is_none());
    assert!(Packet::from_bytes(&[1, 2, 9, 0, 0]).is_none());
}

#[test]
fn handshake_query_builds_tlv_request() {
    let p = Packet::handshake_query(&[ID_BATTERY, ID_ANC_MODE]);
    assert_eq!(p.cmd_id, CMD_HANDSHAKE);
    assert_eq!(p.seq, 0);
    assert_eq!(p.payload, vec![0xFF, 0x00, 0x01, 0x00, 0x0C, 0x00]);
    assert_eq!(query_payload_bytes(&[4]), vec![0xFF, 0x00, 0x04, 0x00]);
}

#[test]
fn tlv_parser_walks_entries() {
    let data = [0x0C, 0x01, 0x02, 0x11, 0x02, 0x05, 0x06, 0x13];
    let mut p = TlvParser::new(&data);
    assert_eq!(p.next(), Some((0x0C, &[0x02][..])));
    assert_eq!(p.next(), Some((0x11, &[0x05, 0x06][..])));
    assert!(!p.is_exhausted());
    assert_eq!(p.next(), None);
}

#[test]
fn tlv_get_int_and_bytes() {
    let data = [0x01, 0x00, 0x0C, 0x01, 0x02, 0x04, 0x03, 10, 1, 2];
    assert_eq!(TlvParser::new(&data).get_int(0x0C), Some(2));
    assert_eq!(TlvParser::new(&data).get_int(0x01), None);
    assert_eq!(TlvParser::new(&data).get_bytes(0x04), Some(&[10u8, 1, 2][..]));
    assert_eq!(TlvParser::new(&data).get_bytes(0x09), None);
    let all = TlvParser::new(&data).collect_all();
    assert_eq!(all.len(), 3);
    let mut done = TlvParser::new(&data);
    done.collect_all();
    assert!(done.is_exhausted());
}

#[test]
fn anc_mode_values_roundtrip() {
    for v in 0u8..3 {
        assert_eq!(AncMode::from_u8(v).unwrap().as_u8(), v);
    }
    assert!(AncMode::from_u8(3).is_none());
    assert_eq!(AncMode::Transparency.to_string(), "TRANSPARENCY");
    assert_eq!(AncMode::Active.to_string(), "ANC");
}

#[test]
fn message_type_values() {
    assert_eq!(MessageType::from_u8(1), Some(MessageType::Request));
    assert_eq!(MessageType::Response.as_u8(), 2);
    assert!(MessageType::from_u8(0).is_none());
}

#[test]
fn mac_address_text() {
    assert_eq!(format_mac(&[0xAA, 0x0B, 0xCC, 0x01, 0xEE, 0xFF]), "AA:0B:CC:01:EE:FF");
    let m = MacAddress::from_bytes(&[1, 2, 3, 4, 5, 6]).unwrap();
    assert_eq!(m.to_string(), "01:02:03:04:05:06");
    assert!(MacAddress::from_bytes(&[1, 2, 3]).is_none());
}

#[test]
fn battery_level_caps_and_text() {
    let b = BatteryLevel::new(Some(120), Some(80), None);
    assert_eq!(b.left, Some(100));
    assert_eq!(b.right, Some(80));
    assert!(b.is_known());
    assert!(!BatteryLevel::new(None, None, None).is_known());
}

#[test]
fn connection_state_text() {
    assert_eq!(ConnectionState::Connected.to_string(), "Connected");
    assert_eq!(ConnectionState::Disconnected.to_string(), "Disconnected");
}

#[test]
fn gesture_values_roundtrip() {
    assert_eq!(TouchGesture::from_u8(7), Some(TouchGesture::LeftLongPress));
    assert_eq!(TouchGesture::RightDoubleTap.as_u8(), 4);
    assert!(TouchGesture::from_u8(0).is_none());
    assert_eq!(GestureFunction::from_u8(9), Some(GestureFunction::AncModeSwitch));
    assert_eq!(GestureFunction::Nothing.as_u8(), 0);
    assert_eq!(TouchSensitivity::from_u8(2), Some(TouchSensitivity::High));
    assert!(TouchSensitivity::from_u8(3).is_none());
}

#[test]
fn battery_level_display_text() {
    assert_eq!(BatteryLevel::new(Some(80), Some(75), Some(40)).to_string(), "L:80%  R:75%  Case:40%");
    assert_eq!(BatteryLevel::new(None, Some(5), None).to_string(), "R:5%");
    assert_eq!(BatteryLevel::new(None, None, None).to_string(), "Unknown");
}

#[test]
fn failed_state_text() {
    assert_eq!(ConnectionState::Failed("boom".to_string()).to_string(), "Failed: boom");
}
