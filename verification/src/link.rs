//! The scan controller and connection state machine.
//!
//! The platform delivers scan and connection events; this module holds
//! the shared connection state and decides, for each event, how the
//! state changes and which platform requests follow. The caller
//! performs each returned action in order and feeds the resulting
//! events back in. The one entry into a connection attempt is a scan
//! result from the configured inverter address while the desired
//! inverter state differs from the last applied one.

use vstd::prelude::*;

use crate::device::Mac;
use crate::telemetry::Telemetry;

verus! {

/// The application id under which the connection client registers.
pub const APP_ID: u16 = 0;

/// The fixed pre-shared passkey for pairing with the inverter.
pub const STATIC_PASSKEY: u32 = 123456;

/// The inverter control service.
pub const INVERTER_SERVICE_UUID: u128 = 0x306b0001b081403783dce59fcc3cdfd0;

/// The inverter control characteristic within that service.
pub const INV_CTRL_CHARACTERISTIC_UUID: u128 = 0x306b0003b081403783dce59fcc3cdfd0;

/// The eight-byte command frame that turns the inverter on.
pub const TURN_ON_INVERTER: [u8; 8] = [0x06, 0x03, 0x82, 0x19, 0x02, 0x00, 0x41, 0x03];

/// The eight-byte command frame that turns the inverter off.
pub const TURN_OFF_INVERTER: [u8; 8] = [0x06, 0x03, 0x82, 0x19, 0x02, 0x00, 0x41, 0x04];

/// A scan (GAP) event as the platform reports it. Events that carry a
/// platform status carry it reduced to `ok`: anything but success
/// aborts the step.
pub enum GapEvent {
    /// The remote asked for a passkey.
    PasskeyRequest,
    /// Scan parameters were configured; scanning is started from here.
    ScanParameterConfigured { ok: bool },
    ScanStarted { ok: bool },
    ScanStopped { ok: bool },
    /// One advertisement arrived: source address, its reported address
    /// type, the raw bytes, and the combined data length.
    InquiryResult { bda: Mac, addr_type: u8, adv: Vec<u8>, data_len: usize },
    /// The scan window elapsed; `recent_touch` says whether the display
    /// saw a user recently.
    InquiryComplete { recent_touch: bool },
}

/// A connection (GATT client) event as the platform reports it.
pub enum GattEvent {
    ClientRegistered { ok: bool, app_id: u16 },
    Connected { conn_id: u16, addr: Mac },
    DiscoveryCompleted { ok: bool, conn_id: u16 },
    /// One discovered service: its identifier and handle range.
    SearchResult { uuid: u128, start_handle: u16, end_handle: u16 },
    SearchComplete { ok: bool, conn_id: u16 },
    /// The outcome of looking the control characteristic up within the
    /// recorded handle range: how many matched, and the handle of the
    /// first.
    CharacteristicFound { conn_id: u16, count: usize, handle: u16 },
    WriteConfirmed { ok: bool, handle: u16 },
    Disconnected,
}

/// A platform request decided by an event handler, to be performed in
/// order by the caller.
pub enum Action {
    /// Configure passive scan parameters; scanning starts from the
    /// configuration callback, not here.
    ConfigureScan,
    /// Start a passive scan for this many seconds.
    StartScan { duration_secs: u64 },
    StopScan,
    /// Open a connection to `addr` through the registered interface.
    OpenConnection { gattc_if: u8, addr: Mac, addr_type: u8 },
    /// Answer a passkey request for `addr`.
    PasskeyReply { addr: Mac, passkey: u32 },
    /// Hand an advertisement to the decode queue.
    EnqueueAdvertisement { bda: Mac, adv: Vec<u8>, data_len: usize },
    /// Search the connected device for a service.
    SearchService { conn_id: u16, uuid: u128 },
    /// Look a characteristic up by identifier within a handle range.
    LookupCharacteristic { conn_id: u16, start_handle: u16, end_handle: u16, uuid: u128 },
    /// Write a command frame to a characteristic, unacknowledged and
    /// authenticated.
    WriteCharacteristic { conn_id: u16, handle: u16, frame: [u8; 8] },
    /// Ask for a disconnect from `addr`.
    Disconnect { addr: Mac },
}

/// The connection and scan state, held under one lock by the caller.
pub struct Client {
    /// Whether a scan is running.
    pub scanning: bool,
    /// The registered client interface, once the platform assigns one.
    pub gattc_if: Option<u8>,
    /// The active connection, while one exists.
    pub conn_id: Option<u16>,
    /// The remote address of the active connection.
    pub remote_addr: Option<Mac>,
    /// Whether a connection attempt is in flight; guards re-entry.
    pub connect: bool,
    /// The handle range of the inverter control service, once found.
    pub service_range: Option<(u16, u16)>,
}

impl Client {
    /// The idle state: not scanning, nothing registered, no connection.
    pub fn new() -> (r: Client)
        ensures
            !r.scanning,
            r.gattc_if is None,
            r.conn_id is None,
            r.remote_addr is None,
            !r.connect,
            r.service_range is None,
    {
        Client {
            scanning: false,
            gattc_if: Option::None,
            conn_id: Option::None,
            remote_addr: Option::None,
            connect: false,
            service_range: Option::None,
        }
    }

    /// Whether a scan should start now: only when neither connecting
    /// nor already scanning. The caller issues the start request
    /// exactly when this returns true.
    pub fn start_scanning(&self) -> (r: bool)
        ensures
            r == (!self.connect && !self.scanning),
    {
        !self.connect && !self.scanning
    }

    /// Whether a scan should stop now: only when one is running. The
    /// caller issues the stop request exactly when this returns true.
    pub fn stop_scanning(&self) -> (r: bool)
        ensures
            r == self.scanning,
    {
        self.scanning
    }

    /// The address to disconnect from, when a connection exists.
    pub fn disconnect(&self) -> (r: Option<Mac>)
        ensures
            r == self.remote_addr,
    {
        self.remote_addr
    }

    /// Handles one scan event.
    ///
    /// An advertisement from the configured inverter address, while the
    /// desired inverter state differs from the last applied one and no
    /// attempt is in flight and an interface is registered, turns into
    /// a connection attempt: scanning stops and a connection opens.
    /// Every other advertisement goes to the decode queue. When the
    /// scan window elapses, scanning restarts only after a recent user
    /// interaction.
    pub fn on_gap_event(
        &mut self,
        tel: &Telemetry,
        inverter_addr: &Mac,
        on_duration_secs: u64,
        event: GapEvent,
    ) -> (r: Vec<Action>)
        ensures
            event is PasskeyRequest ==> ({
                let new = *final(self);
                let prev = *old(self);
                &&& new == prev
                &&& r@ == (match prev.remote_addr {
                    Option::Some(a) => seq![
                        Action::PasskeyReply { addr: a, passkey: STATIC_PASSKEY },
                    ],
                    Option::None => Seq::<Action>::empty(),
                })
            }),
            event matches GapEvent::ScanParameterConfigured { ok } ==> ({
                let new = *final(self);
                let prev = *old(self);
                &&& new == prev
                &&& r@ == (if ok {
                    seq![Action::StartScan { duration_secs: on_duration_secs }]
                } else {
                    Seq::<Action>::empty()
                })
            }),
            event matches GapEvent::ScanStarted { ok } ==> ({
                let new = *final(self);
                let prev = *old(self);
                &&& r@ == Seq::<Action>::empty()
                &&& new == (Client { scanning: ok || prev.scanning, ..prev })
            }),
            event matches GapEvent::ScanStopped { ok } ==> ({
                let new = *final(self);
                let prev = *old(self);
                &&& r@ == Seq::<Action>::empty()
                &&& new == (Client { scanning: !ok && prev.scanning, ..prev })
            }),
            event matches GapEvent::InquiryResult { bda, addr_type, adv, data_len } ==> ({
                let new = *final(self);
                let prev = *old(self);
                let switching = tel.inverter_prev != tel.inverter_on && bda == *inverter_addr;
                &&& prev.gattc_if matches Some(gi) ==> (switching && !prev.connect ==> (new == (
                Client { connect: true, ..prev }) && r@ == seq![
                    Action::StopScan,
                    Action::OpenConnection { gattc_if: gi, addr: bda, addr_type },
                ]))
                &&& (switching && (prev.connect || prev.gattc_if is None)) ==> (new == prev && r@
                    == Seq::<Action>::empty())
                &&& !switching ==> (new == prev && r@ == seq![
                    Action::EnqueueAdvertisement { bda, adv, data_len },
                ])
            }),
            event matches GapEvent::InquiryComplete { recent_touch } ==> ({
                let new = *final(self);
                let prev = *old(self);
                &&& new == (Client { scanning: false, ..prev })
                &&& r@ == (if recent_touch && !prev.connect {
                    seq![Action::StartScan { duration_secs: on_duration_secs }]
                } else {
                    Seq::<Action>::empty()
                })
            }),
    {
        match event {
            GapEvent::PasskeyRequest => {
                match self.remote_addr {
                    Option::Some(a) => vec![
                        Action::PasskeyReply { addr: a, passkey: STATIC_PASSKEY },
                    ],
                    Option::None => Vec::new(),
                }
            },
            GapEvent::ScanParameterConfigured { ok } => {
                if ok {
                    vec![Action::StartScan { duration_secs: on_duration_secs }]
                } else {
                    Vec::new()
                }
            },
            GapEvent::ScanStarted { ok } => {
                if ok {
                    self.scanning = true;
                }
                Vec::new()
            },
            GapEvent::ScanStopped { ok } => {
                if ok {
                    self.scanning = false;
                }
                Vec::new()
            },
            GapEvent::InquiryResult { bda, addr_type, adv, data_len } => {
                let switching = tel.inverter_prev != tel.inverter_on && crate::device::bytes_eq(
                    bda.as_slice(),
                    inverter_addr.as_slice(),
                );
                proof {
                    if switching {
                        assert(bda =~= *inverter_addr);
                    } else {
                        if tel.inverter_prev != tel.inverter_on && bda == *inverter_addr {
                            assert(bda@ =~= inverter_addr@);
                        }
                    }
                }
                if switching {
                    if !self.connect {
                        match self.gattc_if {
                            Option::Some(gi) => {
                                self.connect = true;
                                vec![
                                    Action::StopScan,
                                    Action::OpenConnection { gattc_if: gi, addr: bda, addr_type },
                                ]
                            },
                            Option::None => Vec::new(),
                        }
                    } else {
                        Vec::new()
                    }
                } else {
                    vec![Action::EnqueueAdvertisement { bda, adv, data_len }]
                }
            },
            GapEvent::InquiryComplete { recent_touch } => {
                self.scanning = false;
                if recent_touch && !self.connect {
                    vec![Action::StartScan { duration_secs: on_duration_secs }]
                } else {
                    Vec::new()
                }
            },
        }
    }

    /// Handles one connection event.
    ///
    /// Registration configures scan parameters; a connection records
    /// its id and address; completed discovery searches for the
    /// inverter service; a matching search result records the handle
    /// range; search completion looks the control characteristic up in
    /// that range; a found characteristic receives the command frame
    /// chosen by the desired inverter state; a missing one aborts to
    /// disconnecting; a confirmed write mirrors the desired state into
    /// the last-applied flag and disconnects; the final disconnect
    /// clears the connection state, arms the debounce marker, and
    /// resumes scanning.
    pub fn on_gattc_event(
        &mut self,
        tel: &mut Telemetry,
        gattc_if: u8,
        on_duration_secs: u64,
        now_ms: u64,
        event: GattEvent,
    ) -> (r: Vec<Action>)
        ensures
            event matches GattEvent::ClientRegistered { ok, app_id } ==> ({
                &&& *final(tel) == *old(tel)
                &&& (ok && app_id == APP_ID) ==> (*final(self) == (Client {
                    gattc_if: Option::Some(gattc_if),
                    ..*old(self)
                }) && r@ == seq![Action::ConfigureScan])
                &&& !(ok && app_id == APP_ID) ==> (*final(self) == *old(self) && r@ == Seq::<
                    Action,
                >::empty())
            }),
            event matches GattEvent::Connected { conn_id, addr } ==> ({
                &&& *final(tel) == *old(tel)
                &&& *final(self) == (Client {
                    conn_id: Option::Some(conn_id),
                    remote_addr: Option::Some(addr),
                    ..*old(self)
                })
                &&& r@ == Seq::<Action>::empty()
            }),
            event matches GattEvent::DiscoveryCompleted { ok, conn_id } ==> ({
                &&& *final(tel) == *old(tel)
                &&& *final(self) == *old(self)
                &&& r@ == (if ok {
                    seq![Action::SearchService { conn_id, uuid: INVERTER_SERVICE_UUID }]
                } else {
                    Seq::<Action>::empty()
                })
            }),
            event matches GattEvent::SearchResult { uuid, start_handle, end_handle } ==> ({
                &&& *final(tel) == *old(tel)
                &&& r@ == Seq::<Action>::empty()
                &&& uuid == INVERTER_SERVICE_UUID ==> *final(self) == (Client {
                    service_range: Option::Some((start_handle, end_handle)),
                    ..*old(self)
                })
                &&& uuid != INVERTER_SERVICE_UUID ==> *final(self) == *old(self)
            }),
            event matches GattEvent::SearchComplete { ok, conn_id } ==> ({
                &&& *final(tel) == *old(tel)
                &&& *final(self) == *old(self)
                &&& r@ == (match old(self).service_range {
                    Option::Some((s, e)) => if ok {
                        seq![
                            Action::LookupCharacteristic {
                                conn_id,
                                start_handle: s,
                                end_handle: e,
                                uuid: INV_CTRL_CHARACTERISTIC_UUID,
                            },
                        ]
                    } else {
                        Seq::<Action>::empty()
                    },
                    Option::None => Seq::<Action>::empty(),
                })
            }),
            event matches GattEvent::CharacteristicFound { conn_id, count, handle } ==> ({
                &&& *final(tel) == *old(tel)
                &&& *final(self) == *old(self)
                &&& count > 0 ==> r@ == seq![
                    Action::WriteCharacteristic {
                        conn_id,
                        handle,
                        frame: if old(tel).inverter_on {
                            TURN_ON_INVERTER
                        } else {
                            TURN_OFF_INVERTER
                        },
                    },
                ]
                &&& count == 0 ==> r@ == (match old(self).remote_addr {
                    Option::Some(a) => seq![Action::Disconnect { addr: a }],
                    Option::None => Seq::<Action>::empty(),
                })
            }),
            event matches GattEvent::WriteConfirmed { ok, handle } ==> ({
                &&& *final(self) == *old(self)
                &&& ok ==> (*final(tel) == (Telemetry {
                    inverter_prev: old(tel).inverter_on,
                    ..*old(tel)
                }) && r@ == (match old(self).remote_addr {
                    Option::Some(a) => seq![Action::Disconnect { addr: a }],
                    Option::None => Seq::<Action>::empty(),
                }))
                &&& !ok ==> (*final(tel) == *old(tel) && r@ == Seq::<Action>::empty())
            }),
            event is Disconnected ==> ({
                &&& *final(self) == (Client {
                    connect: false,
                    remote_addr: Option::None,
                    conn_id: Option::None,
                    service_range: Option::None,
                    ..*old(self)
                })
                &&& *final(tel) == (Telemetry {
                    debounce_at: Option::Some(now_ms),
                    ..*old(tel)
                })
                &&& r@ == seq![Action::StartScan { duration_secs: on_duration_secs }]
            }),
    {
        match event {
            GattEvent::ClientRegistered { ok, app_id } => {
                if ok && app_id == APP_ID {
                    self.gattc_if = Option::Some(gattc_if);
                    vec![Action::ConfigureScan]
                } else {
                    Vec::new()
                }
            },
            GattEvent::Connected { conn_id, addr } => {
                self.conn_id = Option::Some(conn_id);
                self.remote_addr = Option::Some(addr);
                Vec::new()
            },
            GattEvent::DiscoveryCompleted { ok, conn_id } => {
                if ok {
                    vec![Action::SearchService { conn_id, uuid: INVERTER_SERVICE_UUID }]
                } else {
                    Vec::new()
                }
            },
            GattEvent::SearchResult { uuid, start_handle, end_handle } => {
                if uuid == INVERTER_SERVICE_UUID {
                    self.service_range = Option::Some((start_handle, end_handle));
                }
                Vec::new()
            },
            GattEvent::SearchComplete { ok, conn_id } => {
                match self.service_range {
                    Option::Some((s, e)) => {
                        if ok {
                            vec![
                                Action::LookupCharacteristic {
                                    conn_id,
                                    start_handle: s,
                                    end_handle: e,
                                    uuid: INV_CTRL_CHARACTERISTIC_UUID,
                                },
                            ]
                        } else {
                            Vec::new()
                        }
                    },
                    Option::None => Vec::new(),
                }
            },
            GattEvent::CharacteristicFound { conn_id, count, handle } => {
                if count > 0 {
                    let frame = if tel.inverter_on {
                        TURN_ON_INVERTER
                    } else {
                        TURN_OFF_INVERTER
                    };
                    vec![Action::WriteCharacteristic { conn_id, handle, frame }]
                } else {
                    match self.remote_addr {
                        Option::Some(a) => vec![Action::Disconnect { addr: a }],
                        Option::None => Vec::new(),
                    }
                }
            },
            GattEvent::WriteConfirmed { ok, handle: _ } => {
                if ok {
                    tel.inverter_prev = tel.inverter_on;
                    match self.remote_addr {
                        Option::Some(a) => vec![Action::Disconnect { addr: a }],
                        Option::None => Vec::new(),
                    }
                } else {
                    Vec::new()
                }
            },
            GattEvent::Disconnected => {
                self.connect = false;
                self.remote_addr = Option::None;
                self.conn_id = Option::None;
                self.service_range = Option::None;
                tel.debounce_at = Option::Some(now_ms);
                vec![Action::StartScan { duration_secs: on_duration_secs }]
            },
        }
    }
}

} // verus!
