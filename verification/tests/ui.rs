use spacepods::ipc::ScannedDevice;
use spacepods::ipc::ServiceCommand;
use spacepods::ui::controls::{header_margin_top, needs_header, sidebar_pages, tone_volume_request, find_button_label, find_click, find_status_text, finding_after, mode_after_change, mode_controls, FindClick, DeviceSwitch, action_position, key_setting_payload, left_slots, right_slots, KeyAction, Level, LevelChoice, Log, Section};
use spacepods::ui::eq::{band_labels, builtin_presets, delete_custom_preset, gain_label, overwrite_custom_preset, save_custom_preset, CustomPreset};
use spacepods::ui::setup::{
    beacon_version_label, detail_line, display_name, error_status_text, format_last_used, friendly_error, found_label,
    rssi_css, rssi_label, scan_battery_line, scan_status_text, sort_by_proximity,
};
use spacepods::ui::storage::{add_known_device, get_last_connected_device, remove_known_device, AppSettings, KnownDevice};
use spacepods::ui::tray::{TrayGroup, TrayMenuItem, anc_mode_name, anc_mode_options, eq_preset_name, eq_preset_options, tooltip_text, SpacePodsTray, TrayCommand};

fn known(name: &str, address: &str, t: u64) -> KnownDevice {
    KnownDevice { name: name.into(), address: address.into(), last_connected: t }
}

#[test]
fn settings_defaults() {
    let s = AppSettings::default();
    assert_eq!(s.last_anc_mode, 1);
    assert_eq!(s.last_anc_level, 3);
    assert_eq!(s.last_eq_preset, 0);
    assert!(!s.autostart && !s.disclaimer_dismissed);
}

#[test]
fn connecting_moves_device_to_front() {
    let list = vec![known("A", "a", 300), known("B", "b", 200), known("C", "c", 100)];
    let r = add_known_device(list, "C2".into(), "c".into(), 400);
    let names: Vec<&str> = r.iter().map(|d| d.name.as_str()).collect();
    assert_eq!(names, vec!["C2", "A", "B"]);
    assert_eq!(r[0].last_connected, 400);
}

#[test]
fn remembered_list_is_cut_to_ten() {
    let mut list = Vec::new();
    for i in 0..12u64 {
        list.push(known("D", &format!("addr{}", i), 100 - i));
    }
    let r = add_known_device(list, "New".into(), "new".into(), 1000);
    assert_eq!(r.len(), 10);
    assert_eq!(r[0].address, "new");
    assert_eq!(r[9].address, "addr8");
}

#[test]
fn equal_times_keep_their_order() {
    let list = vec![known("A", "a", 50), known("B", "b", 50)];
    let r = add_known_device(list, "N".into(), "n".into(), 50);
    let addrs: Vec<&str> = r.iter().map(|d| d.address.as_str()).collect();
    assert_eq!(addrs, vec!["a", "b", "n"]);
}

#[test]
fn forgetting_and_last_device() {
    let list = vec![known("A", "a", 3), known("B", "b", 2), known("A2", "a", 1)];
    let r = remove_known_device(list, "a");
    assert_eq!(r.len(), 1);
    assert_eq!(r[0].name, "B");
    assert_eq!(get_last_connected_device(r).unwrap().name, "B");
    assert!(get_last_connected_device(Vec::new()).is_none());
}

#[test]
fn friendly_errors() {
    assert_eq!(friendly_error("Connection refused (os error 111)"), "SpacePods service isn't running.\nStart it with: spacepods service");
    assert_eq!(friendly_error("Operation TIMED OUT"), "The operation took too long.\nMake sure your earbuds are nearby and in pairing mode.");
    assert_eq!(friendly_error("Device not found after 3 retries"), "No SpaceBuds found.\nMake sure they're in pairing mode (LED flashing) and nearby.");
    assert_eq!(friendly_error("weird"), "Something went wrong.\n\nDetails: weird");
    assert_eq!(error_status_text("Adapter missing"), "A Bluetooth error occurred.: Adapter missing");
}

#[test]
fn signal_words() {
    assert_eq!(rssi_label(None), "");
    assert_eq!(rssi_label(Some(-50)), "Very close");
    assert_eq!(rssi_label(Some(-65)), "Near");
    assert_eq!(rssi_label(Some(-80)), "Far");
    assert_eq!(rssi_label(Some(-81)), "Distant");
    assert_eq!(rssi_css(Some(-70)), "warning");
    assert_eq!(rssi_css(Some(-90)), "dim-label");
}

#[test]
fn last_used_words() {
    assert_eq!(format_last_used(1000, 1030), "Just now");
    assert_eq!(format_last_used(1000, 1000 + 125), "2m ago");
    assert_eq!(format_last_used(1000, 1000 + 7200), "2h ago");
    assert_eq!(format_last_used(1000, 1000 + 3 * 86400), "3d ago");
    assert_eq!(format_last_used(2000, 1000), "Just now");
    // Past a week the months come from the timestamp itself.
    assert_eq!(format_last_used(86400 * 30 * 5, 86400 * 30 * 5 + 700000), "5mo ago");
    assert_eq!(format_last_used(86400 * 30 * 25, 86400 * 30 * 25 + 700000), "2y ago");
}

#[test]
fn scan_rows() {
    let mut d = ScannedDevice::new("BT-NAME".into(), "11:22".into());
    assert_eq!(display_name(&d), "SpaceBuds");
    assert_eq!(detail_line(&d), "BT-NAME");
    d.product_name = Some("SpaceBuds 2".into());
    assert_eq!(display_name(&d), "SpaceBuds 2");
    assert_eq!(detail_line(&d), "BT-NAME");
    d.product_name = Some("Oraimo SpaceBuds".into());
    assert_eq!(display_name(&d), "BT-NAME");
    assert_eq!(detail_line(&d), "11:22");
    assert!(scan_battery_line(&d).is_none());
    d.battery_right = Some(40);
    assert_eq!(scan_battery_line(&d).unwrap(), "L:?% / R:40%");
    d.battery_case = Some(9);
    assert_eq!(scan_battery_line(&d).unwrap(), "L:?% / R:40%  C:9%");
    assert_eq!(beacon_version_label(3), "V3");
    assert_eq!(found_label(2), "Found (2)");
    assert_eq!(scan_status_text(0), "No devices found — try again");
    assert_eq!(scan_status_text(3), "3 device(s) — sorted by proximity");
}

#[test]
fn proximity_order() {
    let mk = |name: &str, rssi: Option<i16>| {
        let mut d = ScannedDevice::new(name.into(), name.into());
        d.rssi = rssi;
        d
    };
    let list = vec![mk("far", Some(-90)), mk("near", Some(-40)), mk("unknown", None), mk("mid", Some(-60)), mk("near2", Some(-40))];
    let r = sort_by_proximity(list);
    let names: Vec<&str> = r.iter().map(|d| d.name.as_str()).collect();
    assert_eq!(names, vec!["near2", "near", "mid", "far", "unknown"]);
}

#[test]
fn tray_choices() {
    let mut t = SpacePodsTray::new();
    assert_eq!(t.select_anc_mode(2), TrayCommand::SetAncMode(2));
    assert_eq!(t.anc_mode, 2);
    assert_eq!(t.select_eq_preset(5), TrayCommand::SetEqPreset(5));
    assert_eq!(t.tooltip_text(), "ANC: Transparency  •  EQ: Treble Boost");
    t.set_anc_mode(7);
    assert_eq!(tooltip_text(t.anc_mode, t.eq_preset), "ANC: Off  •  EQ: Treble Boost");
    assert_eq!(anc_mode_name(1), "ANC");
    assert_eq!(eq_preset_name(9), "Flat");
    assert_eq!(anc_mode_options(), vec!["Off", "ANC", "Transparency"]);
    assert_eq!(eq_preset_options().len(), 6);
}

#[test]
fn gesture_menu() {
    let actions = KeyAction::all();
    assert_eq!(actions.len(), 10);
    assert_eq!(actions[1].label, "Toggle ANC");
    assert_eq!(action_position(&actions, 9), Some(1));
    assert_eq!(action_position(&actions, 1), Some(9));
    assert_eq!(action_position(&actions, 42), None);
    assert_eq!(left_slots()[3].key_type, 7);
    assert_eq!(right_slots()[0].key_type, 2);
    assert_eq!(key_setting_payload(3, 4), vec![3, 1, 4]);
    assert_eq!(Section::Health.label(), "Health");
    assert_eq!(Section::Settings.label(), "");
}

#[test]
fn level_buttons() {
    assert_eq!(LevelChoice::for_level(2), Some(LevelChoice::Low));
    assert_eq!(LevelChoice::for_level(3), Some(LevelChoice::Medium));
    assert_eq!(LevelChoice::for_level(5), Some(LevelChoice::High));
    assert_eq!(LevelChoice::for_level(0), None);
    assert_eq!(LevelChoice::for_level(LevelChoice::High.level()), Some(LevelChoice::High));
}

#[test]
fn app_log_level() {
    let mut log = Log::new();
    assert_eq!(log.level(), Level::Info);
    assert!(!log.shows(Level::Warn));
    log.set_level(Level::Full);
    assert_eq!(log.level(), Level::Full);
    assert!(log.shows(Level::Warn));
}

#[test]
fn eq_page_tables() {
    let presets = builtin_presets();
    assert_eq!(presets.len(), 6);
    assert_eq!(presets[2].name, "Rock");
    assert_eq!(presets[2].gains, [4, 3, -1, -1, 2, 4, 5]);
    assert_eq!(band_labels()[4], "2.5kHz");
    assert_eq!(gain_label(3), "+3 dB");
    assert_eq!(gain_label(0), "+0 dB");
    assert_eq!(gain_label(-12), "-12 dB");
    assert_eq!(gain_label(-128), "-128 dB");
}

#[test]
fn custom_presets() {
    let g1 = [1, 2, 3, 4, 5, 6, 7];
    let g2 = [0; 7];
    let list = save_custom_preset(Vec::new(), "Mine", g1);
    let list = save_custom_preset(list, "Other", g2);
    let list = save_custom_preset(list, "Mine", g2);
    let names: Vec<&str> = list.iter().map(|p| p.name.as_str()).collect();
    assert_eq!(names, vec!["Other", "Mine"]);
    assert_eq!(list[1].gains, g2);
    let unchanged = save_custom_preset(list, "", g1);
    assert_eq!(unchanged.len(), 2);
    let mut list = unchanged;
    assert!(overwrite_custom_preset(&mut list, "Other", g1));
    assert_eq!(list[0].gains, g1);
    assert!(!overwrite_custom_preset(&mut list, "Nope", g1));
    let list = delete_custom_preset(list, "Other");
    assert_eq!(list.len(), 1);
    let _: &CustomPreset = &list[0];
}

#[test]
fn page_switches() {
    match DeviceSwitch::AreaTap.request(true) {
        ServiceCommand::Custom { command_id, payload } => {
            assert_eq!(command_id, 0x34);
            assert_eq!(payload, vec![1]);
        }
        _ => panic!("expected a custom command"),
    }
    match DeviceSwitch::VoicePrompts.request(false) {
        ServiceCommand::Custom { command_id, payload } => {
            assert_eq!(command_id, 0x48);
            assert_eq!(payload, vec![0]);
        }
        _ => panic!("expected a custom command"),
    }
    assert_eq!(DeviceSwitch::LongEndurance.command_id(), 0x38);
    match tone_volume_request(4) {
        ServiceCommand::Custom { command_id, payload } => {
            assert_eq!(command_id, 0x46);
            assert_eq!(payload, vec![4]);
        }
        _ => panic!("expected a custom command"),
    }
}

#[test]
fn connected_address_appears_once() {
    // The old list holds the address twice; both old entries go.
    let list = vec![known("A", "a", 300), known("X1", "x", 200), known("B", "b", 150), known("X2", "x", 100)];
    let r = add_known_device(list, "X3".into(), "x".into(), 400);
    assert_eq!(r.len(), 3); // min(10, 1 + two others)
    assert_eq!(r.iter().filter(|d| d.address == "x").count(), 1);
    assert_eq!(r[0].name, "X3");
}

#[test]
fn anc_mode_controls() {
    let off = mode_controls(0);
    assert!(!off.levels && !off.adaptive);
    let anc = mode_controls(1);
    assert!(anc.levels && anc.adaptive);
    let trans = mode_controls(2);
    assert!(trans.levels && !trans.adaptive);
    assert_eq!(mode_after_change(0, 2, true), 2);
    assert_eq!(mode_after_change(0, 2, false), 0);
}

#[test]
fn find_button_steps() {
    assert_eq!(find_click(true, false, false), FindClick::Stop);
    assert_eq!(find_click(false, true, false), FindClick::Start);
    assert_eq!(find_click(false, false, false), FindClick::NeedEarbud);
    assert!(finding_after(FindClick::Start, true));
    assert!(!finding_after(FindClick::Start, false));
    assert!(!finding_after(FindClick::Stop, true));
    assert_eq!(find_button_label(true), "Stop Finding");
    assert_eq!(find_button_label(false), "Start Finding");
    assert_eq!(find_status_text(FindClick::Start, true, true), "Playing stereo beep on both earbuds...");
    assert_eq!(find_status_text(FindClick::Start, true, false), "Playing beep on LEFT earbud...");
    assert_eq!(find_status_text(FindClick::Start, false, true), "Playing beep on RIGHT earbud...");
    assert_eq!(find_status_text(FindClick::NeedEarbud, false, false), "Please select at least one earbud");
    assert_eq!(find_status_text(FindClick::Stop, true, true), "");
}

#[test]
fn tray_menu_entries() {
    let mut t = SpacePodsTray::new();
    t.set_anc_mode(2);
    t.set_eq_preset(4);
    let m = t.menu();
    assert_eq!(m.len(), 11);
    match &m[0] {
        TrayMenuItem::Action { label, command, .. } => {
            assert_eq!(*label, "Show SpacePods");
            assert_eq!(*command, TrayCommand::PresentWindow);
        }
        _ => panic!("expected the show entry"),
    }
    for i in [1usize, 4, 7, 9] {
        assert!(matches!(m[i], TrayMenuItem::Separator));
    }
    assert!(matches!(m[2], TrayMenuItem::Header { label: "ANC Mode", .. }));
    match &m[3] {
        TrayMenuItem::Choices { group, selected, options } => {
            assert_eq!(*group, TrayGroup::Anc);
            assert_eq!(*selected, 2);
            assert_eq!(options, &vec!["Off", "ANC", "Transparency"]);
        }
        _ => panic!("expected the ANC modes"),
    }
    assert!(matches!(m[5], TrayMenuItem::Header { label: "EQ Preset", .. }));
    match &m[6] {
        TrayMenuItem::Choices { group, selected, options } => {
            assert_eq!(*group, TrayGroup::Eq);
            assert_eq!(*selected, 4);
            assert_eq!(options, &vec!["Flat", "Bass Boost", "Rock", "Jazz", "Vocal", "Treble Boost"]);
        }
        _ => panic!("expected the EQ presets"),
    }
    assert!(matches!(m[8], TrayMenuItem::Action { label: "Hide window", command: TrayCommand::HideWindow, .. }));
    assert!(matches!(m[10], TrayMenuItem::Action { label: "Quit SpacePods", command: TrayCommand::Quit, .. }));
}

#[test]
fn sidebar_layout() {
    let pages = sidebar_pages();
    let ids: Vec<&str> = pages.iter().map(|p| p.id).collect();
    assert_eq!(ids, vec!["anc", "eq", "spatial", "gestures", "gaming", "find", "hearing", "settings"]);
    assert_eq!(pages[5].title, "Find Earbuds");
    assert_eq!(pages[7].section, Section::Settings);
    assert!(needs_header(None, Section::Audio));
    assert!(!needs_header(Some(Section::Audio), Section::Audio));
    assert!(needs_header(Some(Section::Audio), Section::Controls));
    assert!(!needs_header(Some(Section::Health), Section::Settings));
    assert_eq!(header_margin_top(None), 4);
    assert_eq!(header_margin_top(Some(Section::Audio)), 12);
}
