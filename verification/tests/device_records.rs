//! Device records: validity, equality, the persistence frame, and the
//! hexadecimal rendering of keys.

use vicmon::device::{mac_u64, Device, DeviceType, FRAME_LEN};

const ADDR: [u8; 6] = [0xAA, 0xBB, 0xCC, 0x01, 0x02, 0x03];
const KEY: [u8; 16] = [
    0x00, 0x11, 0x22, 0x33, 0x44, 0x55, 0x66, 0x77, 0x88, 0x99, 0xAA, 0xBB, 0xCC, 0xDD, 0xEE,
    0xFF,
];

#[test]
fn zero_address_is_invalid() {
    let d = Device::new(DeviceType::Inverter, [0; 6], KEY, None);
    assert!(!d.is_valid());
    let d2 = Device::new(DeviceType::Inverter, ADDR, KEY, None);
    assert!(d2.is_valid());
}

#[test]
fn getters_return_fields() {
    let d = Device::new(DeviceType::Bmv, ADDR, KEY, Some(9));
    assert_eq!(d.device_type(), DeviceType::Bmv);
    assert_eq!(*d.addr(), ADDR);
    assert_eq!(*d.key(), KEY);
    assert_eq!(d.pin(), Some(9));
}

#[test]
fn equality_is_by_fields() {
    let d = Device::new(DeviceType::Mppt, ADDR, KEY, Some(1));
    let same = Device::new(DeviceType::Mppt, ADDR, KEY, Some(1));
    assert_eq!(d, same);
    assert!(d != Device::new(DeviceType::Bmv, ADDR, KEY, Some(1)));
    let mut other_addr = ADDR;
    other_addr[5] = 0x04;
    assert!(d != Device::new(DeviceType::Mppt, other_addr, KEY, Some(1)));
    assert!(d != Device::new(DeviceType::Mppt, ADDR, KEY, None));
    assert!(d != Device::new(DeviceType::Mppt, ADDR, KEY, Some(2)));
}

#[test]
fn frame_round_trips_with_pin() {
    let d = Device::new(DeviceType::Inverter, ADDR, KEY, Some(123456));
    let frame = d.encode();
    assert_eq!(frame.len(), FRAME_LEN);
    let back = Device::decode(&frame).expect("well-formed frame");
    assert_eq!(back, d);
}

#[test]
fn frame_round_trips_without_pin() {
    let d = Device::new(DeviceType::Bmv, ADDR, KEY, None);
    let back = Device::decode(&d.encode()).expect("well-formed frame");
    assert_eq!(back, d);
}

#[test]
fn frame_round_trips_extreme_pin() {
    let d = Device::new(DeviceType::Mppt, ADDR, KEY, Some(u32::MAX));
    let back = Device::decode(&d.encode()).expect("well-formed frame");
    assert_eq!(back, d);
}

#[test]
fn decode_rejects_malformed_frames() {
    let d = Device::new(DeviceType::Inverter, ADDR, KEY, Some(7));
    let frame = d.encode();
    // Wrong length.
    assert!(Device::decode(&frame[..FRAME_LEN - 1]).is_none());
    assert!(Device::decode(&[]).is_none());
    // Unknown role byte.
    let mut bad_role = frame.clone();
    bad_role[0] = 9;
    assert!(Device::decode(&bad_role).is_none());
    // Unknown pin flag.
    let mut bad_flag = frame.clone();
    bad_flag[23] = 2;
    assert!(Device::decode(&bad_flag).is_none());
    // Clear flag with leftover pin bytes.
    let mut bad_pad = frame;
    bad_pad[23] = 0;
    assert!(Device::decode(&bad_pad).is_none());
}

#[test]
fn key_hex_renders_uppercase_pairs() {
    let d = Device::new(DeviceType::Inverter, ADDR, KEY, None);
    assert_eq!(d.key_hex(), "00112233445566778899AABBCCDDEEFF");
}

#[test]
fn storage_keys_are_short_role_names() {
    assert_eq!(DeviceType::Inverter.storage_key(), "inv");
    assert_eq!(DeviceType::Mppt.storage_key(), "mppt");
    assert_eq!(DeviceType::Bmv.storage_key(), "bmv");
}

#[test]
fn mac_u64_packs_little_endian() {
    assert_eq!(mac_u64(&[1, 0, 0, 0, 0, 0]), 1);
    assert_eq!(mac_u64(&[0, 0, 0, 0, 0, 1]), 0x100_0000_0000);
    assert_eq!(mac_u64(&ADDR), 0x030201CCBBAA);
    assert_eq!(mac_u64(&[0; 6]), 0);
}
