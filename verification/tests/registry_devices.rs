//! The registry: applying records, the reverse index, persistence and
//! reloading.

use vicmon::device::{Device, DeviceType};
use vicmon::registry::{Devices, KvStore, UpsertOutcome};

const ADDR_A: [u8; 6] = [0x10, 0x20, 0x30, 0x40, 0x50, 0x60];
const ADDR_B: [u8; 6] = [0x11, 0x21, 0x31, 0x41, 0x51, 0x61];
const ADDR_C: [u8; 6] = [0x12, 0x22, 0x32, 0x42, 0x52, 0x62];
const KEY_A: [u8; 16] = [0xA0; 16];
const KEY_B: [u8; 16] = [0xB0; 16];

fn registry_with_store() -> Devices {
    let mut reg = Devices::new();
    reg.load_from_nvs(KvStore::new());
    reg
}

#[test]
fn upsert_unchanged_record_is_a_no_op() {
    // An identical record reports "unchanged" for every role, and the
    // store is not written.
    for role in [DeviceType::Inverter, DeviceType::Mppt, DeviceType::Bmv] {
        let mut reg = registry_with_store();
        let d = Device::new(role, ADDR_A, KEY_A, Some(1));
        assert_eq!(reg.add_device(d), UpsertOutcome::Added);
        let stored_before = reg.store.as_ref().unwrap().entry(role).cloned();
        assert_eq!(reg.add_device(d), UpsertOutcome::Unchanged);
        let stored_after = reg.store.as_ref().unwrap().entry(role).cloned();
        assert_eq!(stored_before, stored_after);
        assert_eq!(*reg.device(role), d);
        assert_eq!(reg.num_devices(), 1);
    }
}

#[test]
fn upsert_zero_address_is_rejected() {
    // The zero sentinel is rejected for every role and nothing changes.
    for role in [DeviceType::Inverter, DeviceType::Mppt, DeviceType::Bmv] {
        let mut reg = registry_with_store();
        let zero = Device::new(role, [0; 6], KEY_A, None);
        assert_eq!(reg.add_device(zero), UpsertOutcome::Rejected);
        assert_eq!(reg.num_devices(), 0);
        assert!(reg.get_key(&[0; 6]).is_none());
        assert!(!reg.device(role).is_valid());
        assert!(reg.store.as_ref().unwrap().entry(role).is_none());
    }
}

#[test]
fn upsert_without_store_is_not_persisted() {
    let mut reg = Devices::new();
    let d = Device::new(DeviceType::Mppt, ADDR_A, KEY_A, None);
    assert_eq!(reg.add_device(d), UpsertOutcome::NotPersisted);
    // The in-memory state is still updated.
    assert_eq!(*reg.device(DeviceType::Mppt), d);
    assert_eq!(reg.get_key(&ADDR_A), Some(&KEY_A));
}

#[test]
fn upsert_same_address_reports_updated() {
    let mut reg = registry_with_store();
    let d1 = Device::new(DeviceType::Inverter, ADDR_A, KEY_A, Some(1));
    let d2 = Device::new(DeviceType::Inverter, ADDR_A, KEY_B, Some(2));
    assert_eq!(reg.add_device(d1), UpsertOutcome::Added);
    assert_eq!(reg.add_device(d2), UpsertOutcome::Updated);
    assert_eq!(reg.get_key(&ADDR_A), Some(&KEY_B));
    assert_eq!(reg.num_devices(), 1);
}

#[test]
fn load_all_reproduces_a_persisted_record() {
    // Round trip: a successful upsert with persistence, then a fresh
    // load, gives back the identical role, address, key and pin.
    let mut reg = registry_with_store();
    let inv = Device::new(DeviceType::Inverter, ADDR_A, KEY_A, Some(123456));
    let bmv = Device::new(DeviceType::Bmv, ADDR_B, KEY_B, None);
    assert_eq!(reg.add_device(inv), UpsertOutcome::Added);
    assert_eq!(reg.add_device(bmv), UpsertOutcome::Added);

    let store = reg.store.take().unwrap();
    let mut fresh = Devices::new();
    fresh.load_from_nvs(store);

    assert_eq!(*fresh.device(DeviceType::Inverter), inv);
    assert_eq!(*fresh.device(DeviceType::Bmv), bmv);
    assert!(!fresh.device(DeviceType::Mppt).is_valid());
    assert_eq!(fresh.num_devices(), 2);
    assert_eq!(fresh.get_key(&ADDR_A), Some(&KEY_A));
    assert_eq!(fresh.get_pin(&ADDR_A), Some(123456));
    assert_eq!(fresh.get_pin(&ADDR_B), None);
}

#[test]
fn load_skips_corrupt_and_mismatched_entries() {
    // One bad entry leaves its role unconfigured and never aborts the
    // others.
    let mut store = KvStore::new();
    let good = Device::new(DeviceType::Mppt, ADDR_A, KEY_A, None);
    store.set_entry(DeviceType::Mppt, good.encode());
    store.set_entry(DeviceType::Inverter, vec![1, 2, 3]);
    // A frame of the wrong role under the battery monitor's entry.
    store.set_entry(DeviceType::Bmv, Device::new(DeviceType::Inverter, ADDR_B, KEY_B, None).encode());

    let mut reg = Devices::new();
    reg.load_from_nvs(store);
    assert_eq!(*reg.device(DeviceType::Mppt), good);
    assert!(!reg.device(DeviceType::Inverter).is_valid());
    assert!(!reg.device(DeviceType::Bmv).is_valid());
    assert_eq!(reg.num_devices(), 1);
}

#[test]
fn load_accepts_an_unconfigured_record_without_indexing_it() {
    let mut store = KvStore::new();
    let unconfigured = Device::new(DeviceType::Inverter, [0; 6], KEY_A, None);
    store.set_entry(DeviceType::Inverter, unconfigured.encode());
    let mut reg = Devices::new();
    reg.load_from_nvs(store);
    assert!(!reg.device(DeviceType::Inverter).is_valid());
    assert_eq!(reg.num_devices(), 0);
    assert!(reg.get_key(&[0; 6]).is_none());
}

#[test]
fn reverse_index_resolves_only_the_newest_address() {
    // Change one role's address twice: only the most recent address
    // resolves; the stale one returns nothing.
    let mut reg = registry_with_store();
    let d1 = Device::new(DeviceType::Bmv, ADDR_A, KEY_A, None);
    let d2 = Device::new(DeviceType::Bmv, ADDR_B, KEY_A, None);
    let d3 = Device::new(DeviceType::Bmv, ADDR_C, KEY_B, None);
    assert_eq!(reg.add_device(d1), UpsertOutcome::Added);
    assert_eq!(reg.add_device(d2), UpsertOutcome::Added);
    assert_eq!(reg.add_device(d3), UpsertOutcome::Added);

    assert_eq!(reg.get_key(&ADDR_C), Some(&KEY_B));
    assert!(reg.get_key(&ADDR_B).is_none());
    assert!(reg.get_key(&ADDR_A).is_none());
    assert_eq!(reg.num_devices(), 1);
}

#[test]
fn index_tracks_devices_across_roles() {
    let mut reg = registry_with_store();
    reg.add_device(Device::new(DeviceType::Inverter, ADDR_A, KEY_A, Some(1)));
    reg.add_device(Device::new(DeviceType::Mppt, ADDR_B, KEY_B, None));
    assert_eq!(reg.num_devices(), 2);
    assert_eq!(reg.get_key(&ADDR_A), Some(&KEY_A));
    assert_eq!(reg.get_key(&ADDR_B), Some(&KEY_B));
    assert_eq!(reg.get_pin(&ADDR_A), Some(1));
    assert!(reg.get_key(&ADDR_C).is_none());
    assert_eq!(*reg.device_addr(DeviceType::Inverter), ADDR_A);
    assert_eq!(*reg.device_key(DeviceType::Mppt), KEY_B);
    assert_eq!(reg.device_pin(DeviceType::Inverter), Some(1));
}

#[test]
fn outcome_messages_match_the_report_strings() {
    assert_eq!(UpsertOutcome::Rejected.message(), "has 0 mac, ignoring");
    assert_eq!(UpsertOutcome::Unchanged.message(), "already exists, not updated");
    assert_eq!(UpsertOutcome::Added.message(), "added");
    assert_eq!(UpsertOutcome::Updated.message(), "updated");
    assert_eq!(UpsertOutcome::NotPersisted.message(), "not saved to storage");
}
