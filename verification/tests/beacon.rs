use spacepods::beacon::{deobfuscate_bt_address, xor_bytes, DeviceBeacon};

#[test]
fn test_deobfuscate() {
    let mut addr = [0x00u8; 6];
    deobfuscate_bt_address(&mut addr);
    // 0x00 ^ 0xAD = 0xAD
    assert_eq!(addr, [0xAD; 6]);

    let mut addr2 = [0xADu8; 6];
    deobfuscate_bt_address(&mut addr2);
    // 0xAD ^ 0xAD = 0x00
    assert_eq!(addr2, [0x00; 6]);
}

#[test]
fn test_v3_parse() {
    // Sample V3 beacon: 8 bytes
    // bytes 0-1: product_id = 64 (SpaceBuds Neo 2) = 0x0040
    // bytes 2-7: xor'd MAC
    let pid: u16 = 64; // SpaceBuds Neo 2
    let mut data = vec![0u8; 8];
    data[0] = pid as u8;
    data[1] = (pid >> 8) as u8;
    // MAC: 11:22:33:44:55:66  XOR'd with 0xAD
    let mac: [u8; 6] = [0x11, 0x22, 0x33, 0x44, 0x55, 0x66];
    for (i, b) in mac.iter().enumerate() {
        data[2 + i] = b ^ 0xAD;
    }

    let beacon = DeviceBeacon::from_manufacturer_data(&data).unwrap();
    assert_eq!(beacon.version, 3);
    assert_eq!(beacon.product_id, 64);
    assert_eq!(beacon.bt_address, Some(mac));
}

#[test]
fn test_v1_parse() {
    // V1: 13 bytes, version=1
    let mut data = vec![0u8; 13];
    data[0] = 0x01; // version 1
    data[1] = 65; // product_id low
    data[2] = 0; // product_id high = 65 = SpaceBuds 2
    // MAC not XOR'd in V1
    let mac: [u8; 6] = [0xAA, 0xBB, 0xCC, 0xDD, 0xEE, 0xFF];
    data[3..9].copy_from_slice(&mac);
    data[9] = 0x04; // connected (bit 2 set)
    data[10] = 0x50; // left: not charging, 80%
    data[11] = 0x8F; // right: charging, 15%
    data[12] = 0x64; // case: not charging, 100%

    let beacon = DeviceBeacon::from_manufacturer_data(&data).unwrap();
    assert_eq!(beacon.version, 1);
    assert_eq!(beacon.product_id, 65);
    assert_eq!(beacon.bt_address, Some(mac));
    assert!(beacon.connected);
    assert!(!beacon.need_auth);
    assert_eq!(beacon.left_battery, Some(80));
    assert_eq!(beacon.left_charging, Some(false));
    assert_eq!(beacon.right_battery, Some(15));
    assert_eq!(beacon.right_charging, Some(true));
    assert_eq!(beacon.case_battery, Some(100));
    assert_eq!(beacon.case_charging, Some(false));
}

#[test]
fn test_invalid_data() {
    assert!(DeviceBeacon::from_manufacturer_data(&[]).is_none());
    assert!(DeviceBeacon::from_manufacturer_data(&[0x00, 0x01]).is_none());
    // 7 bytes — not a valid length
    assert!(DeviceBeacon::from_manufacturer_data(&[0u8; 7]).is_none());
}

#[test]
fn beacon_v2_reads_brand_and_xored_mac() {
    let mut data = vec![0u8; 13];
    data[0] = 0x02;
    data[1] = 0x41;
    data[2] = 0x00;
    let mac: [u8; 6] = [0x01, 0x02, 0x03, 0x04, 0x05, 0x06];
    for (i, b) in mac.iter().enumerate() {
        data[3 + i] = b ^ 0xAD;
    }
    let beacon = DeviceBeacon::from_manufacturer_data(&data).unwrap();
    assert_eq!(beacon.version, 2);
    assert_eq!(beacon.product_id, 0x41);
    assert_eq!(beacon.bt_address, Some(mac));
    assert_eq!(beacon.left_battery, None);
}

#[test]
fn beacon_address_and_product_name() {
    let pid: u16 = 64;
    let mut data = vec![0u8; 8];
    data[0] = pid as u8;
    data[1] = (pid >> 8) as u8;
    let mac: [u8; 6] = [0x11, 0x22, 0x33, 0x44, 0x55, 0x66];
    for (i, b) in mac.iter().enumerate() {
        data[2 + i] = b ^ 0xAD;
    }
    let beacon = DeviceBeacon::from_manufacturer_data(&data).unwrap();
    assert_eq!(beacon.bt_address_string(), Some("11:22:33:44:55:66".to_string()));
    assert_eq!(beacon.product_name(), "SpaceBuds Neo 2");
}

#[test]
fn xor_twice_restores_bytes() {
    let before = [1u8, 2, 3, 250];
    let mut data = before;
    xor_bytes(&mut data, 0x5A);
    assert_ne!(data, before);
    xor_bytes(&mut data, 0x5A);
    assert_eq!(data, before);
}

#[test]
fn beacon_v1_levels_stay_within_percent() {
    let mut data = vec![0u8; 13];
    data[0] = 0x01;
    data[1] = 65;
    data[10] = 0x7F; // left: not charging, raw level 127
    data[11] = 0xE5; // right: charging, raw level 101
    data[12] = 0x64; // case: not charging, 100

    let beacon = DeviceBeacon::from_manufacturer_data(&data).unwrap();
    assert_eq!(beacon.left_battery, Some(100));
    assert_eq!(beacon.left_charging, Some(false));
    assert_eq!(beacon.right_battery, Some(100));
    assert_eq!(beacon.right_charging, Some(true));
    assert_eq!(beacon.case_battery, Some(100));
}
