use spacepods::commands::anc::{AncCommand, AncResponse};
use spacepods::commands::features::FeatureResponse;
use spacepods::device::{awaits_reply, next_reconnect_delay_secs, AncController, FeatureController, LinkEvent};
use spacepods::protocol::types::{AncMode, ConnectionState};
use spacepods::{ConnectionConfig, Error, SpaceBuds, SpaceBudsBuilder};
use std::collections::HashMap;
use std::time::Duration;

#[test]
fn default_config_values() {
    let c = ConnectionConfig::default();
    assert_eq!(c.scan_timeout, Duration::from_secs(10));
    assert_eq!(c.max_retries, 3);
    assert_eq!(c.reconnect_delay, Duration::from_secs(1));
}

#[test]
fn builder_sets_fields() {
    let (buds, auto) = SpaceBuds::builder()
        .scan_timeout(Duration::from_secs(5))
        .max_retries(7)
        .reconnect_delay(Duration::from_millis(250))
        .auto_connect(true)
        .build();
    assert!(auto);
    let c = buds.config();
    assert_eq!(c.scan_timeout, Duration::from_secs(5));
    assert_eq!(c.max_retries, 7);
    assert_eq!(c.reconnect_delay, Duration::from_millis(250));
    assert_eq!(buds.state(), ConnectionState::Disconnected);
    let (_, auto2) = SpaceBudsBuilder::default().build();
    assert!(!auto2);
}

#[test]
fn link_events_drive_state() {
    let mut buds = SpaceBuds::new_disconnected();
    buds.record(LinkEvent::ScanStarted);
    assert_eq!(buds.state(), ConnectionState::Scanning);
    buds.record(LinkEvent::ConnectStarted);
    assert_eq!(buds.state(), ConnectionState::Connecting);
    buds.record(LinkEvent::Connected);
    assert_eq!(buds.state(), ConnectionState::Connected);
    buds.record(LinkEvent::ReconnectStarted);
    assert_eq!(buds.state(), ConnectionState::Reconnecting);
    buds.record(LinkEvent::Disconnected);
    assert_eq!(buds.state(), ConnectionState::Disconnected);
}

#[test]
fn only_handshake_waits_for_reply() {
    assert!(awaits_reply(0x27));
    assert!(!awaits_reply(0x2C));
}

#[test]
fn reconnect_delay_doubles_up_to_thirty() {
    assert_eq!(next_reconnect_delay_secs(1), 2);
    assert_eq!(next_reconnect_delay_secs(15), 30);
    assert_eq!(next_reconnect_delay_secs(16), 30);
    assert_eq!(next_reconnect_delay_secs(30), 30);
}

#[test]
fn anc_controller_reply_checks() {
    assert_eq!(AncController::mode_from(AncResponse::Mode(AncMode::Active)).unwrap(), AncMode::Active);
    match AncController::mode_from(AncResponse::Ack) {
        Err(Error::Parse(m)) => assert_eq!(m, "Unexpected response type for get_mode"),
        _ => panic!("expected a parse error"),
    }
    assert_eq!(AncController::level_from(AncResponse::Level { current: 2, max: 5 }).unwrap(), (2, 5));
    match AncController::level_from(AncResponse::Mode(AncMode::Off)) {
        Err(Error::Parse(m)) => assert_eq!(m, "Unexpected response type for get_level"),
        _ => panic!("expected a parse error"),
    }
}

#[test]
fn anc_level_decisions() {
    assert_eq!(AncController::level_to_send(3, 0), None);
    assert_eq!(AncController::level_to_send(9, 5), Some(5));
    assert_eq!(AncController::level_to_send(2, 5), Some(2));
    assert_eq!(AncController::level_command(2, AncMode::Active), Some(AncCommand::SetAncLevel(2)));
    assert_eq!(AncController::level_command(2, AncMode::Transparency), Some(AncCommand::SetTransparencyLevel(2)));
    assert_eq!(AncController::level_command(2, AncMode::Off), None);
}

#[test]
fn feature_controller_reply_checks() {
    assert!(FeatureController::adaptive_anc_from(FeatureResponse::AdaptiveAnc(true)).unwrap());
    assert!(matches!(FeatureController::adaptive_anc_from(FeatureResponse::Ack), Err(Error::Parse(_))));
    assert!(!FeatureController::dual_device_from(FeatureResponse::DualDevice(false)).unwrap());
    match FeatureController::dual_device_from(FeatureResponse::AdaptiveAnc(true)) {
        Err(Error::Parse(m)) => assert_eq!(m, "Unexpected response for get_dual_device"),
        _ => panic!("expected a parse error"),
    }
    let mut m = HashMap::new();
    m.insert(1u8, 7u8);
    assert_eq!(FeatureController::key_settings_from(FeatureResponse::KeySettings(m)).unwrap().get(&1), Some(&7));
    assert!(FeatureController::key_settings_from(FeatureResponse::Ack).is_err());
}
