use spacepods::commands::anc::{AncCommand, AncResponse};
use spacepods::commands::eq::{eq_presets, gain_to_u8, special_presets, u8_to_gain, EqCommand, EqController, EqPreset, EqResponse, EqState};
use spacepods::commands::features::{parse_key_settings, FeatureCommand, FeatureResponse};
use spacepods::commands::{BatteryController, BleCommand, DeviceInfoController, FactoryResetController, FindDeviceCommand, FindDeviceController, KeySettingsController, RawCommand, WorkModeController};
use spacepods::device::SpaceBuds;
use spacepods::protocol::packet::Packet;
use spacepods::protocol::types::AncMode;
use spacepods::Error;

#[test]
fn anc_get_mode_encodes_and_decodes() {
    let cmd = AncCommand::GetMode;
    assert_eq!(cmd.cmd_id(), 0x27);
    assert_eq!(cmd.encode(), vec![0xFF, 0x00, 0x0C, 0x00]);
    match cmd.decode(&[0x0C, 0x01, 0x02]) {
        Ok(AncResponse::Mode(m)) => assert_eq!(m, AncMode::Transparency),
        _ => panic!("expected a mode"),
    }
}

#[test]
fn anc_get_mode_errors() {
    assert!(matches!(AncCommand::GetMode.decode(&[]), Err(Error::Parse(_))));
    assert!(matches!(AncCommand::GetMode.decode(&[0x0C, 0x01, 0x07]), Err(Error::UnknownAncMode(7))));
}

#[test]
fn anc_get_level_reads_gain_of_current_mode() {
    let payload = [0x0C, 0x01, 0x01, 0x11, 0x01, 0x03, 0x13, 0x01, 0x05, 0x12, 0x01, 0x02, 0x14, 0x01, 0x04];
    match AncCommand::GetLevel.decode(&payload) {
        Ok(AncResponse::Level { current, max }) => {
            assert_eq!((current, max), (3, 5));
        }
        _ => panic!("expected a level"),
    }
    let trans = [0x0C, 0x01, 0x02, 0x12, 0x01, 0x02, 0x14, 0x01, 0x04];
    match AncCommand::GetLevel.decode(&trans) {
        Ok(AncResponse::Level { current, max }) => assert_eq!((current, max), (2, 4)),
        _ => panic!("expected a level"),
    }
    match AncCommand::GetLevel.decode(&[0x0C, 0x01, 0x00]) {
        Ok(AncResponse::Level { current, max }) => assert_eq!((current, max), (0, 0)),
        _ => panic!("expected a level"),
    }
}

#[test]
fn anc_set_commands() {
    assert_eq!(AncCommand::SetMode(AncMode::Active).encode(), vec![1]);
    assert_eq!(AncCommand::SetMode(AncMode::Active).cmd_id(), 0x2C);
    assert_eq!(AncCommand::SetAncLevel(4).cmd_id(), 0x30);
    assert_eq!(AncCommand::SetTransparencyLevel(4).cmd_id(), 0x31);
    assert_eq!(AncCommand::SetTransparencyLevel(4).encode(), vec![4]);
    assert!(matches!(AncCommand::SetAncLevel(1).decode(&[]), Ok(AncResponse::Ack)));
}

#[test]
fn eq_preset_lookup() {
    let p = EqPreset::find(2).unwrap();
    assert_eq!(p.name, "Rock");
    assert_eq!(EqPreset::find(13).unwrap().name, "Night Listening");
    assert!(EqPreset::find(7).is_none());
    assert_eq!(eq_presets().len(), 7);
    assert_eq!(special_presets().len(), 4);
}

#[test]
fn gains_description_truncates_toward_zero() {
    let night = EqPreset::find(13).unwrap();
    assert_eq!(EqPreset::gains_description(&night.gains), "Bass: -2dB, Mid: 0dB, Treble: -1dB");
    let bass = EqPreset::find(1).unwrap();
    assert_eq!(EqPreset::gains_description(&bass.gains), "Bass: 5dB, Mid: 0dB, Treble: 1dB");
}

#[test]
fn gain_wire_values() {
    assert_eq!(gain_to_u8(-2), 0xFE);
    assert_eq!(gain_to_u8(7), 7);
    assert_eq!(u8_to_gain(0xFE), -2);
    assert_eq!(u8_to_gain(0x80), -128);
    for g in -128i8..=127 {
        assert_eq!(u8_to_gain(gain_to_u8(g)), g);
    }
}

#[test]
fn eq_set_preset_payload() {
    let cmd = EqCommand::SetPreset(4);
    assert_eq!(cmd.cmd_id(), 0x20);
    assert_eq!(cmd.encode(), vec![10, 4, 0xFE, 0xFF, 0, 4, 3, 1, 1, 0, 0, 0]);
    assert_eq!(EqCommand::SetPreset(9).encode(), Vec::<u8>::new());
}

#[test]
fn eq_set_custom_pads_to_ten_bands() {
    let cmd = EqCommand::SetCustom(vec![1, -1, 2]);
    assert_eq!(cmd.encode(), vec![10, 6, 1, 0xFF, 2, 0, 0, 0, 0, 0, 0, 0]);
}

#[test]
fn eq_get_state_decodes_preset() {
    let payload = [0x04, 0x04, 10, 3, 2, 0xFE];
    match EqCommand::GetState.decode(&payload) {
        Ok(EqResponse::State(Some(state))) => {
            assert_eq!(state.mode, 3);
            assert_eq!(state.name, "Jazz");
            assert_eq!(state.description, "Smooth mids, detailed cymbals");
            assert_eq!(state.gains, vec![2, -2]);
            assert!(!state.is_custom());
        }
        _ => panic!("expected a state"),
    }
    match EqCommand::GetState.decode(&[0x04, 0x02, 10, 40]) {
        Ok(EqResponse::State(Some(state))) => {
            assert_eq!(state.name, "Unknown");
            assert_eq!(state.description, "Unknown preset");
            assert!(state.is_custom());
        }
        _ => panic!("expected a state"),
    }
    assert!(matches!(EqCommand::GetState.decode(&[0x04, 0x01, 10]), Ok(EqResponse::State(None))));
}

#[test]
fn eq_controller_checks() {
    assert!(matches!(EqController::preset_request(11), Ok(EqCommand::SetPreset(11))));
    assert!(matches!(EqController::preset_request(8), Err(Error::InvalidPreset(8))));
    assert!(matches!(EqController::state_from(EqResponse::Ack), Err(Error::Parse(_))));
    let st = EqState { mode: 1, name: "Bass Boost".into(), description: "x".into(), gains: vec![] };
    match EqController::state_from(EqResponse::State(Some(st))) {
        Ok(Some(s)) => assert_eq!(s.mode, 1),
        _ => panic!("expected a state"),
    }
}

#[test]
fn preset_listing_marks_special() {
    let list = EqController::list_presets();
    assert_eq!(list.len(), 11);
    assert_eq!(list[0].0, 0);
    assert_eq!(list[0].1, "Flat");
    assert_eq!(list[7].1, "Harman AE/OE (Special)");
}

#[test]
fn feature_commands_encode() {
    assert_eq!(FeatureCommand::SetDualDevice(true).encode(), vec![0x01, 0x02, 0x01]);
    assert_eq!(FeatureCommand::SetAdaptiveAnc(false).encode(), vec![0x00]);
    assert_eq!(FeatureCommand::GetKeySettings.encode(), vec![0x05, 0x00]);
    assert_eq!(FeatureCommand::GetDualDevice.encode(), vec![0xFF, 0x00, 0x19, 0x00]);
}

#[test]
fn feature_decodes() {
    match FeatureCommand::GetAdaptiveAnc.decode(&[0x21, 0x01, 0x01]) {
        Ok(FeatureResponse::AdaptiveAnc(v)) => assert!(v),
        _ => panic!("expected adaptive"),
    }
    match FeatureCommand::GetDualDevice.decode(&[0x19, 0x01, 0x02]) {
        Ok(FeatureResponse::DualDevice(v)) => assert!(!v),
        _ => panic!("expected dual"),
    }
}

#[test]
fn key_settings_sub_entries() {
    let data = [1, 1, 7, 2, 1, 4, 3, 2, 0];
    let map = parse_key_settings(&data);
    assert_eq!(map.get(&1), Some(&7));
    assert_eq!(map.get(&2), Some(&4));
    assert_eq!(map.len(), 2);
    assert!(parse_key_settings(&[]).is_empty());
    match FeatureCommand::GetKeySettings.decode(&[0x05, 0x06, 1, 1, 7, 6, 1, 2]) {
        Ok(FeatureResponse::KeySettings(m)) => {
            assert_eq!(m.get(&1), Some(&7));
            assert_eq!(m.get(&6), Some(&2));
        }
        _ => panic!("expected key settings"),
    }
}

#[test]
fn find_device_command() {
    let c = FindDeviceCommand { enable: true };
    assert_eq!(c.cmd_id(), 0x2A);
    assert_eq!(c.encode(), vec![1]);
}

#[test]
fn raw_command_passes_payload() {
    let c = RawCommand { cmd_id: 0x22, payload: vec![1, 1, 7] };
    assert_eq!(c.cmd_id(), 0x22);
    assert_eq!(c.encode(), vec![1, 1, 7]);
    assert!(c.decode(&[9]).is_ok());
}

#[test]
fn controllers_build_requests() {
    let battery = BatteryController::new(SpaceBuds::new_disconnected());
    assert_eq!(battery.levels_query(), vec![0xFF, 0x00, 0x01, 0x00]);
    let reply = Packet::new_response(0, 0x27, vec![0x01, 0x03, 120, 50, 7]);
    assert_eq!(battery.parse_levels(&reply), Some((Some(100), Some(50), Some(7))));
    let other = Packet::new_response(0, 0x2C, vec![0x01, 0x01, 5]);
    assert_eq!(battery.parse_levels(&other), None);

    let info = DeviceInfoController::new(SpaceBuds::new_disconnected());
    assert_eq!(info.multiple_query(&[2, 3]), vec![0xFF, 0x00, 2, 0x00, 3, 0x00]);
    let entries = info.parse_multiple(&[2, 1, 9, 3, 0]);
    assert_eq!(entries, vec![(2, vec![9]), (3, vec![])]);

    let reset = FactoryResetController::new(SpaceBuds::new_disconnected());
    assert_eq!(reset.reset_request().0, 0x24);

    let find = FindDeviceController::new(SpaceBuds::new_disconnected());
    assert_eq!(find.set_enabled_request(true), (0x2A, vec![1]));

    let keys = KeySettingsController::new(SpaceBuds::new_disconnected());
    assert_eq!(keys.configure_key_request(1, 7), (34, vec![1, 1, 7]));

    let work = WorkModeController::new(SpaceBuds::new_disconnected());
    assert_eq!(work.set_game_mode_request(true).0, 0x25);
    let game = Packet::new_response(0, 0x27, vec![0x08, 0x01, 0x01]);
    assert_eq!(work.parse_game_mode(&game), Some(true));
}

#[test]
fn custom_curve_reads_back() {
    let sent = EqCommand::SetCustom(vec![3, -4, 5]).encode();
    let mut reply = vec![0x04, sent.len() as u8];
    reply.extend_from_slice(&sent);
    match EqCommand::GetState.decode(&reply) {
        Ok(EqResponse::State(Some(state))) => {
            assert_eq!(state.mode, 6);
            assert_eq!(state.name, "Custom");
            assert_eq!(state.gains, vec![3, -4, 5, 0, 0, 0, 0, 0, 0, 0]);
        }
        _ => panic!("expected a state"),
    }
}

#[test]
fn preset_reads_back() {
    let sent = EqCommand::SetPreset(12).encode();
    let mut reply = vec![0x04, sent.len() as u8];
    reply.extend_from_slice(&sent);
    match EqCommand::GetState.decode(&reply) {
        Ok(EqResponse::State(Some(state))) => {
            assert_eq!(state.mode, 12);
            assert_eq!(state.name, "Podcast");
            assert_eq!(state.gains, vec![-1, 0, 2, 5, 2, -1, -2, 0, 0, 0]);
        }
        _ => panic!("expected a state"),
    }
}

#[test]
fn mode_reads_back() {
    for m in [AncMode::Off, AncMode::Active, AncMode::Transparency] {
        let mut reply = vec![0x0C, 0x01];
        reply.extend_from_slice(&AncCommand::SetMode(m).encode());
        match AncCommand::GetMode.decode(&reply) {
            Ok(AncResponse::Mode(got)) => assert_eq!(got, m),
            _ => panic!("expected a mode"),
        }
    }
}
