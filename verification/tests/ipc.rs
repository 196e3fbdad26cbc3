use spacepods::commands::eq::EqState;
use spacepods::ipc::{
    adaptive_reply, anc_reply, connect_reply, disconnect_reply, raw_reply, dual_reply, eq_reply, invalid_command_reply, is_pong, level_reply,
    parse_anc_mode, scan_failed_reply, AncInfo, ClientSession, CommandPlan, DeviceStatus, FeatureInfo, RequestIds,
    ScannedDevice, ServiceCommand, ServiceReply, DEFAULT_SOCKET_PATH,
};
use spacepods::protocol::types::{AncMode, BatteryLevel, ConnectionState};
use spacepods::Error;

fn success_text(r: &ServiceReply) -> Option<String> {
    match r {
        ServiceReply::Success(m) => m.clone(),
        ServiceReply::Failure(_) => None,
    }
}

fn failure_text(r: &ServiceReply) -> Option<String> {
    match r {
        ServiceReply::Failure(m) => Some(m.clone()),
        ServiceReply::Success(_) => None,
    }
}

#[test]
fn socket_path() {
    assert_eq!(DEFAULT_SOCKET_PATH, "/tmp/spacepods.sock");
}

#[test]
fn default_status_is_disconnected() {
    let s = DeviceStatus::default_disconnected();
    assert!(!s.connection.connected);
    assert_eq!(s.connection.state, ConnectionState::Disconnected);
    assert_eq!(s.anc, AncInfo { mode: AncMode::Off, level: 0, max_level: 0 });
    assert!(s.eq.is_none());
    assert!(s.battery.left.is_none());
    assert!(s.key_settings.is_none());
}

#[test]
fn anc_mode_words() {
    assert_eq!(parse_anc_mode("off"), Some(AncMode::Off));
    assert_eq!(parse_anc_mode("0"), Some(AncMode::Off));
    assert_eq!(parse_anc_mode("anc"), Some(AncMode::Active));
    assert_eq!(parse_anc_mode("on"), Some(AncMode::Active));
    assert_eq!(parse_anc_mode("2"), Some(AncMode::Transparency));
    assert_eq!(parse_anc_mode("Transparency"), None);
}

#[test]
fn session_subscription() {
    let mut s = ClientSession::new();
    let p = s.plan(&ServiceCommand::Subscribe);
    assert!(s.subscribed);
    match p {
        CommandPlan::Reply(r) => assert_eq!(success_text(&r).unwrap(), "Subscribed to status updates"),
        _ => panic!("expected a reply"),
    }
    let p = s.plan(&ServiceCommand::Unsubscribe);
    assert!(!s.subscribed);
    match p {
        CommandPlan::Reply(r) => assert_eq!(success_text(&r).unwrap(), "Unsubscribed from status updates"),
        _ => panic!("expected a reply"),
    }
}

#[test]
fn session_plans() {
    let mut s = ClientSession::new();
    match s.plan(&ServiceCommand::Ping) {
        CommandPlan::Reply(r) => assert_eq!(success_text(&r).unwrap(), "pong"),
        _ => panic!("expected pong"),
    }
    assert!(matches!(s.plan(&ServiceCommand::GetStatus), CommandPlan::ReportStatus));
    assert!(matches!(s.plan(&ServiceCommand::Scan { timeout_secs: 5 }), CommandPlan::Scan(5)));
    assert!(matches!(s.plan(&ServiceCommand::SetAncMode { mode: "1".into() }), CommandPlan::SetAnc(AncMode::Active)));
    match s.plan(&ServiceCommand::SetAncMode { mode: "loud".into() }) {
        CommandPlan::Reply(r) => assert_eq!(failure_text(&r).unwrap(), "Invalid ANC mode: loud"),
        _ => panic!("expected a refusal"),
    }
    assert!(matches!(s.plan(&ServiceCommand::SetLevel { level: 4 }), CommandPlan::SetLevel(4)));
    assert!(matches!(s.plan(&ServiceCommand::SetEqPreset { preset: 2 }), CommandPlan::SetEq(2)));
    assert!(matches!(s.plan(&ServiceCommand::SetDualDevice { enabled: true }), CommandPlan::SetDual(true)));
    assert!(matches!(s.plan(&ServiceCommand::Disconnect), CommandPlan::Disconnect));
    match s.plan(&ServiceCommand::Custom { command_id: 0x2A, payload: vec![0x01] }) {
        CommandPlan::SendRaw(id, payload) => {
            assert_eq!(id, 0x2A);
            assert_eq!(payload, vec![0x01]);
        }
        _ => panic!("expected a raw send"),
    }
    assert!(!s.subscribed);
}

#[test]
fn disconnect_and_raw_replies() {
    assert_eq!(success_text(&disconnect_reply(Ok(()))).unwrap(), "Disconnected");
    assert_eq!(failure_text(&disconnect_reply(Err("busy".into()))).unwrap(), "Disconnect failed: busy");
    assert_eq!(success_text(&raw_reply(Ok(()))).unwrap(), "Command sent");
    assert_eq!(failure_text(&raw_reply(Err("gone".into()))).unwrap(), "Failed to send command: gone");
}

#[test]
fn replies_word_outcomes() {
    assert_eq!(success_text(&connect_reply(None)).unwrap(), "Already connected");
    assert_eq!(success_text(&connect_reply(Some(Ok(())))).unwrap(), "Connected");
    assert_eq!(failure_text(&connect_reply(Some(Err("x".into())))).unwrap(), "Connection failed: x");
    assert_eq!(failure_text(&scan_failed_reply("no adapter")).unwrap(), "Scan failed: no adapter");
    assert_eq!(success_text(&anc_reply("on", Ok(()))).unwrap(), "ANC mode set to on");
    assert_eq!(failure_text(&anc_reply("on", Err("e".into()))).unwrap(), "Failed to set ANC mode: e");
    assert_eq!(success_text(&level_reply(12, Ok(true))).unwrap(), "Level set to 12");
    assert_eq!(failure_text(&level_reply(12, Ok(false))).unwrap(), "Cannot set level when ANC is off");
    assert_eq!(success_text(&eq_reply(3, Ok(()))).unwrap(), "EQ preset set to 3");
    assert_eq!(success_text(&adaptive_reply(false, Ok(()))).unwrap(), "Adaptive ANC disabled");
    assert_eq!(success_text(&dual_reply(true, Ok(()))).unwrap(), "Dual device enabled");
    assert_eq!(failure_text(&dual_reply(true, Err("z".into()))).unwrap(), "Failed to set dual device: z");
    assert_eq!(failure_text(&invalid_command_reply("bad json")).unwrap(), "Invalid command: bad json");
}

#[test]
fn pong_check() {
    assert!(is_pong(&Some("pong".to_string())));
    assert!(!is_pong(&Some("ping".to_string())));
    assert!(!is_pong(&None));
}

#[test]
fn reply_into_result() {
    assert_eq!(ServiceReply::Success(Some("ok".into())).into_result().unwrap(), Some("ok".to_string()));
    match ServiceReply::Failure("nope".into()).into_result() {
        Err(Error::Ipc(m)) => assert_eq!(m, "nope"),
        _ => panic!("expected an IPC error"),
    }
}

#[test]
fn request_ids_count_from_one() {
    let mut ids = RequestIds::new();
    assert_eq!(ids.next_id(), 1);
    assert_eq!(ids.next_id(), 2);
}

#[test]
fn status_updates_touch_one_part() {
    let mut s = DeviceStatus::default_disconnected();
    s.apply_battery(BatteryLevel::new(Some(90), None, Some(120)));
    assert_eq!(s.battery.left, Some(90));
    assert_eq!(s.battery.case, Some(100));
    assert!(!s.connection.connected);
    s.apply_level(3, 5);
    assert_eq!((s.anc.level, s.anc.max_level), (3, 5));
    s.apply_anc_mode(AncMode::Transparency);
    assert_eq!(s.anc.mode, AncMode::Transparency);
    assert_eq!(s.anc.level, 3);
    s.apply_adaptive_anc(true);
    s.apply_dual_device(false);
    assert_eq!(s.features, FeatureInfo { adaptive_anc: Some(true), dual_device: Some(false) });
    s.apply_eq(EqState { mode: 2, name: "Rock".into(), description: "d".into(), gains: vec![1] });
    assert_eq!(s.eq.as_ref().unwrap().name, "Rock");
    s.apply_full_refresh(Some("AA".into()), AncInfo { mode: AncMode::Active, level: 1, max_level: 4 }, None, FeatureInfo { adaptive_anc: None, dual_device: None }, BatteryLevel::new(None, None, None));
    assert!(s.connection.connected);
    assert_eq!(s.connection.state, ConnectionState::Connected);
    assert_eq!(s.eq.as_ref().unwrap().name, "Rock");
    s.mark_disconnected();
    assert!(!s.connection.connected);
    assert_eq!(s.connection.address, Some("AA".to_string()));
}

#[test]
fn scanned_device_defaults() {
    let d = ScannedDevice::from_peripheral(None, "11:22".into());
    assert_eq!(d.name, "Unknown");
    assert_eq!(d.address, "11:22");
    assert!(!d.already_connected);
    let n = ScannedDevice::from_peripheral(Some("Buds".into()), "x".into());
    assert_eq!(n.name, "Buds");
}
