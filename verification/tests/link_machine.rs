//! The scan controller and connection state machine, driven event by
//! event as the platform would.

use vicmon::link::{
    Action, Client, GapEvent, GattEvent, APP_ID, INV_CTRL_CHARACTERISTIC_UUID,
    INVERTER_SERVICE_UUID, STATIC_PASSKEY, TURN_OFF_INVERTER, TURN_ON_INVERTER,
};
use vicmon::telemetry::Telemetry;

const INV_ADDR: [u8; 6] = [0xDE, 0xAD, 0xBE, 0xEF, 0x00, 0x01];
const OTHER_ADDR: [u8; 6] = [0x01, 0x01, 0x01, 0x01, 0x01, 0x01];
const DURATION: u64 = 30;
const IF: u8 = 4;

fn registered_client() -> (Client, Telemetry) {
    let mut client = Client::new();
    let mut tel = Telemetry::new();
    let acts = client.on_gattc_event(
        &mut tel,
        IF,
        DURATION,
        0,
        GattEvent::ClientRegistered { ok: true, app_id: APP_ID },
    );
    assert!(matches!(acts.as_slice(), [Action::ConfigureScan]));
    (client, tel)
}

#[test]
fn registration_configures_scanning_and_scan_starts() {
    let (mut client, tel) = registered_client();
    let acts = client.on_gap_event(
        &tel,
        &INV_ADDR,
        DURATION,
        GapEvent::ScanParameterConfigured { ok: true },
    );
    assert!(matches!(acts.as_slice(), [Action::StartScan { duration_secs: 30 }]));
    assert!(!client.scanning);
    let acts = client.on_gap_event(&tel, &INV_ADDR, DURATION, GapEvent::ScanStarted { ok: true });
    assert!(acts.is_empty());
    assert!(client.scanning);
}

#[test]
fn registration_for_another_application_is_ignored() {
    let mut client = Client::new();
    let mut tel = Telemetry::new();
    let acts = client.on_gattc_event(
        &mut tel,
        IF,
        DURATION,
        0,
        GattEvent::ClientRegistered { ok: true, app_id: APP_ID + 1 },
    );
    assert!(acts.is_empty());
    assert!(client.gattc_if.is_none());
}

#[test]
fn pending_switch_turns_the_inverter_advertisement_into_a_connection() {
    // Scenario: a scan result for the inverter address while desired
    // differs from last-applied issues exactly one connection-open
    // request and enqueues nothing.
    let (mut client, mut tel) = registered_client();
    tel.inverter_on = true; // desired on
    tel.inverter_prev = false; // not applied yet
    let acts = client.on_gap_event(
        &tel,
        &INV_ADDR,
        DURATION,
        GapEvent::InquiryResult { bda: INV_ADDR, addr_type: 0, adv: vec![1, 2], data_len: 2 },
    );
    assert_eq!(acts.len(), 2);
    assert!(matches!(acts[0], Action::StopScan));
    match &acts[1] {
        Action::OpenConnection { gattc_if, addr, addr_type } => {
            assert_eq!(*gattc_if, IF);
            assert_eq!(*addr, INV_ADDR);
            assert_eq!(*addr_type, 0);
        },
        _ => panic!("expected a connection-open request"),
    }
    let opens = acts
        .iter()
        .filter(|a| matches!(a, Action::OpenConnection { .. }))
        .count();
    let enqueues = acts
        .iter()
        .filter(|a| matches!(a, Action::EnqueueAdvertisement { .. }))
        .count();
    assert_eq!(opens, 1);
    assert_eq!(enqueues, 0);
    assert!(client.connect);

    // A second matching advertisement while the attempt is in flight
    // does nothing at all.
    let acts = client.on_gap_event(
        &tel,
        &INV_ADDR,
        DURATION,
        GapEvent::InquiryResult { bda: INV_ADDR, addr_type: 0, adv: vec![], data_len: 0 },
    );
    assert!(acts.is_empty());
}

#[test]
fn settled_switch_enqueues_inverter_advertisements() {
    let (mut client, mut tel) = registered_client();
    tel.inverter_on = true;
    tel.inverter_prev = true; // nothing pending
    let acts = client.on_gap_event(
        &tel,
        &INV_ADDR,
        DURATION,
        GapEvent::InquiryResult { bda: INV_ADDR, addr_type: 0, adv: vec![7], data_len: 1 },
    );
    assert!(matches!(
        acts.as_slice(),
        [Action::EnqueueAdvertisement { data_len: 1, .. }]
    ));
    assert!(!client.connect);
}

#[test]
fn other_addresses_are_enqueued_even_during_a_pending_switch() {
    let (mut client, mut tel) = registered_client();
    tel.inverter_on = true;
    let acts = client.on_gap_event(
        &tel,
        &INV_ADDR,
        DURATION,
        GapEvent::InquiryResult { bda: OTHER_ADDR, addr_type: 0, adv: vec![9, 9], data_len: 2 },
    );
    assert!(matches!(acts.as_slice(), [Action::EnqueueAdvertisement { .. }]));
}

#[test]
fn scan_window_restarts_only_after_a_recent_touch() {
    let (mut client, tel) = registered_client();
    client.scanning = true;
    let acts = client.on_gap_event(
        &tel,
        &INV_ADDR,
        DURATION,
        GapEvent::InquiryComplete { recent_touch: false },
    );
    assert!(acts.is_empty());
    assert!(!client.scanning);

    client.scanning = true;
    let acts = client.on_gap_event(
        &tel,
        &INV_ADDR,
        DURATION,
        GapEvent::InquiryComplete { recent_touch: true },
    );
    assert!(matches!(acts.as_slice(), [Action::StartScan { duration_secs: 30 }]));
}

#[test]
fn passkey_request_answers_for_the_connected_remote() {
    let (mut client, mut tel) = registered_client();
    assert!(client
        .on_gap_event(&tel, &INV_ADDR, DURATION, GapEvent::PasskeyRequest)
        .is_empty());
    client.on_gattc_event(
        &mut tel,
        IF,
        DURATION,
        0,
        GattEvent::Connected { conn_id: 3, addr: INV_ADDR },
    );
    let acts = client.on_gap_event(&tel, &INV_ADDR, DURATION, GapEvent::PasskeyRequest);
    match acts.as_slice() {
        [Action::PasskeyReply { addr, passkey }] => {
            assert_eq!(*addr, INV_ADDR);
            assert_eq!(*passkey, STATIC_PASSKEY);
        },
        _ => panic!("expected one passkey reply"),
    }
}

#[test]
fn write_confirmation_mirrors_desired_state_then_disconnects() {
    // Scenario: a successful characteristic write is followed by
    // exactly one disconnect request, and the last-applied flag mirrors
    // the desired flag right after the confirmation, before any
    // disconnect callback.
    let (mut client, mut tel) = registered_client();
    tel.inverter_on = true;
    tel.inverter_prev = false;
    client.on_gattc_event(
        &mut tel,
        IF,
        DURATION,
        0,
        GattEvent::Connected { conn_id: 3, addr: INV_ADDR },
    );
    let acts = client.on_gattc_event(
        &mut tel,
        IF,
        DURATION,
        0,
        GattEvent::WriteConfirmed { ok: true, handle: 0x21 },
    );
    assert!(tel.inverter_prev, "last-applied mirrors desired before the disconnect callback");
    let disconnects = acts
        .iter()
        .filter(|a| matches!(a, Action::Disconnect { .. }))
        .count();
    assert_eq!(disconnects, 1);
    assert_eq!(acts.len(), 1);

    // A failed write changes nothing and requests nothing.
    tel.inverter_prev = false;
    let acts = client.on_gattc_event(
        &mut tel,
        IF,
        DURATION,
        0,
        GattEvent::WriteConfirmed { ok: false, handle: 0x21 },
    );
    assert!(acts.is_empty());
    assert!(!tel.inverter_prev);
}

#[test]
fn full_control_sequence_reaches_the_write_and_returns_to_scanning() {
    let (mut client, mut tel) = registered_client();
    tel.inverter_on = false;
    tel.inverter_prev = true; // a turn-off is pending

    client.on_gattc_event(
        &mut tel,
        IF,
        DURATION,
        0,
        GattEvent::Connected { conn_id: 7, addr: INV_ADDR },
    );
    assert_eq!(client.conn_id, Some(7));
    assert_eq!(client.remote_addr, Some(INV_ADDR));

    let acts = client.on_gattc_event(
        &mut tel,
        IF,
        DURATION,
        0,
        GattEvent::DiscoveryCompleted { ok: true, conn_id: 7 },
    );
    assert!(matches!(
        acts.as_slice(),
        [Action::SearchService { conn_id: 7, uuid }] if *uuid == INVERTER_SERVICE_UUID
    ));

    // A result for some other service is ignored; the matching one
    // records its handle range.
    client.on_gattc_event(
        &mut tel,
        IF,
        DURATION,
        0,
        GattEvent::SearchResult { uuid: 0x1234, start_handle: 1, end_handle: 2 },
    );
    assert!(client.service_range.is_none());
    client.on_gattc_event(
        &mut tel,
        IF,
        DURATION,
        0,
        GattEvent::SearchResult {
            uuid: INVERTER_SERVICE_UUID,
            start_handle: 0x10,
            end_handle: 0x30,
        },
    );
    assert_eq!(client.service_range, Some((0x10, 0x30)));

    let acts = client.on_gattc_event(
        &mut tel,
        IF,
        DURATION,
        0,
        GattEvent::SearchComplete { ok: true, conn_id: 7 },
    );
    assert!(matches!(
        acts.as_slice(),
        [Action::LookupCharacteristic { conn_id: 7, start_handle: 0x10, end_handle: 0x30, uuid }]
            if *uuid == INV_CTRL_CHARACTERISTIC_UUID
    ));

    let acts = client.on_gattc_event(
        &mut tel,
        IF,
        DURATION,
        0,
        GattEvent::CharacteristicFound { conn_id: 7, count: 1, handle: 0x21 },
    );
    match acts.as_slice() {
        [Action::WriteCharacteristic { conn_id: 7, handle: 0x21, frame }] => {
            // The frame follows the desired state: off here.
            assert_eq!(*frame, TURN_OFF_INVERTER);
        },
        _ => panic!("expected one characteristic write"),
    }

    client.on_gattc_event(
        &mut tel,
        IF,
        DURATION,
        0,
        GattEvent::WriteConfirmed { ok: true, handle: 0x21 },
    );
    assert!(!tel.inverter_prev);

    // The terminal disconnect clears the connection state, arms the
    // debounce marker, and resumes scanning.
    let acts = client.on_gattc_event(&mut tel, IF, DURATION, 99_000, GattEvent::Disconnected);
    assert!(matches!(acts.as_slice(), [Action::StartScan { duration_secs: 30 }]));
    assert!(!client.connect);
    assert!(client.remote_addr.is_none());
    assert!(client.conn_id.is_none());
    assert!(client.service_range.is_none());
    assert_eq!(tel.debounce_at, Some(99_000));
}

#[test]
fn desired_on_selects_the_turn_on_frame() {
    let (mut client, mut tel) = registered_client();
    tel.inverter_on = true;
    client.service_range = Some((0x10, 0x30));
    let acts = client.on_gattc_event(
        &mut tel,
        IF,
        DURATION,
        0,
        GattEvent::CharacteristicFound { conn_id: 7, count: 1, handle: 0x21 },
    );
    match acts.as_slice() {
        [Action::WriteCharacteristic { frame, .. }] => assert_eq!(*frame, TURN_ON_INVERTER),
        _ => panic!("expected one characteristic write"),
    }
}

#[test]
fn missing_characteristic_aborts_to_disconnecting() {
    let (mut client, mut tel) = registered_client();
    client.on_gattc_event(
        &mut tel,
        IF,
        DURATION,
        0,
        GattEvent::Connected { conn_id: 7, addr: INV_ADDR },
    );
    let acts = client.on_gattc_event(
        &mut tel,
        IF,
        DURATION,
        0,
        GattEvent::CharacteristicFound { conn_id: 7, count: 0, handle: 0 },
    );
    assert!(matches!(acts.as_slice(), [Action::Disconnect { addr }] if *addr == INV_ADDR));
}

#[test]
fn search_complete_without_a_range_does_nothing() {
    let (mut client, mut tel) = registered_client();
    let acts = client.on_gattc_event(
        &mut tel,
        IF,
        DURATION,
        0,
        GattEvent::SearchComplete { ok: true, conn_id: 7 },
    );
    assert!(acts.is_empty());
}

#[test]
fn scan_gates_follow_the_state() {
    let mut client = Client::new();
    assert!(client.start_scanning());
    assert!(!client.stop_scanning());
    client.scanning = true;
    assert!(!client.start_scanning());
    assert!(client.stop_scanning());
    client.scanning = false;
    client.connect = true;
    assert!(!client.start_scanning());
    assert!(client.disconnect().is_none());
    client.remote_addr = Some(INV_ADDR);
    assert_eq!(client.disconnect(), Some(INV_ADDR));
}

#[test]
fn failed_statuses_abort_their_steps() {
    let (mut client, mut tel) = registered_client();
    let acts = client.on_gap_event(
        &tel,
        &INV_ADDR,
        DURATION,
        GapEvent::ScanParameterConfigured { ok: false },
    );
    assert!(acts.is_empty());
    let acts = client.on_gap_event(&tel, &INV_ADDR, DURATION, GapEvent::ScanStarted { ok: false });
    assert!(acts.is_empty());
    assert!(!client.scanning);
    let acts = client.on_gattc_event(
        &mut tel,
        IF,
        DURATION,
        0,
        GattEvent::DiscoveryCompleted { ok: false, conn_id: 7 },
    );
    assert!(acts.is_empty());
    client.service_range = Some((1, 2));
    let acts = client.on_gattc_event(
        &mut tel,
        IF,
        DURATION,
        0,
        GattEvent::SearchComplete { ok: false, conn_id: 7 },
    );
    assert!(acts.is_empty());
}
