use spacepods::beacon::scanner::{attach_peripheral, first_beacon, DiscoveredDevice};
use spacepods::beacon::DeviceBeacon;
use spacepods::connection::{
    battery_from_characteristic, battery_from_manufacturer_data, battery_level_from, battery_subscribable,
    plan_characteristics, route_notification, DeviceScanner, Notification, SequenceCounter,
};
use spacepods::protocol::constants::{UUID_BATTERY_LEVEL, UUID_FAST_PAIR, UUID_NOTIFY, UUID_WRITE};
use spacepods::protocol::types::BatteryLevel;
use spacepods::Error;

const OTHER: u128 = 0x0000180a_0000_1000_8000_00805f9b34fb;

#[test]
fn spacebuds_services_recognised() {
    assert!(DeviceScanner::is_spacebuds(&[OTHER, UUID_FAST_PAIR]));
    assert!(DeviceScanner::is_spacebuds(&[UUID_WRITE]));
    assert!(!DeviceScanner::is_spacebuds(&[OTHER]));
    assert!(!DeviceScanner::is_spacebuds(&[]));
}

#[test]
fn battery_values() {
    assert_eq!(battery_from_characteristic(&[150]), Some(BatteryLevel::new(Some(100), Some(100), None)));
    assert_eq!(battery_from_characteristic(&[]), None);
    assert_eq!(battery_from_manufacturer_data(&[0x07, 10, 20, 30]), Some(BatteryLevel::new(Some(10), Some(20), Some(30))));
    assert_eq!(battery_from_manufacturer_data(&[0x05, 10, 20, 30]), None);
    assert_eq!(battery_level_from(&vec![vec![], vec![55]], &vec![vec![0x06, 1, 2, 3]]), BatteryLevel::new(Some(55), Some(55), None));
    assert_eq!(battery_level_from(&vec![], &vec![vec![1], vec![0x06, 1, 2, 3]]), BatteryLevel::new(Some(1), Some(2), Some(3)));
    assert_eq!(battery_level_from(&vec![], &vec![]), BatteryLevel::new(None, None, None));
}

#[test]
fn sequence_numbers_wrap() {
    let mut c = SequenceCounter::new();
    for expected in 0u16..=255 {
        assert_eq!(c.next_seq() as u16, expected);
    }
    assert_eq!(c.next_seq(), 0);
}

#[test]
fn characteristic_plan() {
    let plan = plan_characteristics(&[OTHER, UUID_NOTIFY, UUID_WRITE, UUID_BATTERY_LEVEL]).unwrap();
    assert_eq!((plan.write, plan.notify, plan.battery), (2, 1, Some(3)));
    assert!(matches!(plan_characteristics(&[UUID_NOTIFY]), Err(Error::WriteCharNotFound)));
    assert!(matches!(plan_characteristics(&[UUID_WRITE]), Err(Error::NotifyCharNotFound)));
    assert!(battery_subscribable(false, true));
    assert!(!battery_subscribable(false, false));
}

#[test]
fn notifications_are_routed() {
    assert!(matches!(route_notification(UUID_BATTERY_LEVEL, &[42]), Notification::Battery(b) if b.left == Some(42)));
    assert!(matches!(route_notification(UUID_BATTERY_LEVEL, &[]), Notification::Ignored));
    match route_notification(UUID_NOTIFY, &[1, 0x27, 2, 0, 1, 9]) {
        Notification::Response(p) => assert_eq!(p.payload, vec![9]),
        _ => panic!("expected a packet"),
    }
    assert!(matches!(route_notification(UUID_NOTIFY, &[1, 2]), Notification::Ignored));
    assert!(matches!(route_notification(OTHER, &[1, 0x27, 2, 0, 0]), Notification::Ignored));
}

#[test]
fn scan_decisions() {
    assert!(DeviceScanner::after_failed_attempt(1, 3).is_none());
    assert!(matches!(DeviceScanner::after_failed_attempt(3, 3), Some(Error::DeviceNotFound { retries: 3 })));
    assert!(DeviceScanner::needs_name_wait(&vec![Some("a".into()), None]));
    assert!(DeviceScanner::needs_name_wait(&vec![Some(String::new())]));
    assert!(!DeviceScanner::needs_name_wait(&vec![Some("a".into())]));
    assert!(DeviceScanner::same_address("AA:bb", "aa:BB"));
    assert!(DeviceScanner::is_reusable_connection(Some("aa:bb"), "AA:BB", &[UUID_WRITE, UUID_NOTIFY], &[]));
    assert!(!DeviceScanner::is_reusable_connection(Some("cc"), "AA:BB", &[UUID_WRITE, UUID_NOTIFY], &[]));
    assert!(DeviceScanner::is_reusable_connection(None, "x", &[UUID_WRITE], &[UUID_FAST_PAIR]));
    assert!(!DeviceScanner::is_reusable_connection(None, "x", &[UUID_WRITE], &[OTHER]));
}

#[test]
fn device_names_resolve() {
    assert_eq!(DeviceScanner::resolve_device_name(Some("Buds".into()), None, "AA".into()), "Buds");
    assert_eq!(DeviceScanner::resolve_device_name(Some(String::new()), Some(b"\0Neo\0\0".to_vec()), "AA".into()), "Neo");
    assert_eq!(DeviceScanner::resolve_device_name(None, Some(vec![0, 0]), "AA".into()), "AA");
    assert_eq!(DeviceScanner::resolve_device_name(None, Some(vec![0xFF, 0xFE]), "AA".into()), "AA");
    assert_eq!(DeviceScanner::resolve_device_name(None, None, "AA".into()), "AA");
}

fn v3_beacon(mac: [u8; 6]) -> Vec<u8> {
    let mut data = vec![64u8, 0];
    for b in mac.iter() {
        data.push(b ^ 0xAD);
    }
    data
}

#[test]
fn beacon_scan_matching() {
    let mac = [1, 2, 3, 4, 5, 6];
    let entries = vec![vec![9, 9], v3_beacon(mac)];
    let b = first_beacon(&entries).unwrap();
    assert_eq!(b.bt_address, Some(mac));
    assert!(first_beacon(&vec![vec![1, 2, 3]]).is_none());

    let other = DeviceBeacon::from_manufacturer_data(&v3_beacon([9; 6])).unwrap();
    let mut devices = vec![DiscoveredDevice::new(b, 1u32), DiscoveredDevice::new(other, 2u32)];
    attach_peripheral(&mut devices, &entries, Some("Neo".into()), "C0:FF:EE".into(), Some(-55));
    assert_eq!(devices[0].local_name, Some("Neo".to_string()));
    assert_eq!(devices[0].ble_address, Some("C0:FF:EE".to_string()));
    assert_eq!(devices[0].rssi, Some(-55));
    assert_eq!(devices[0].peripheral_id, 1);
    assert_eq!(devices[1].local_name, None);
    assert_eq!(devices[1].ble_address, None);
}
