//! Advertisement decoding: extracting the vendor's manufacturer field
//! from raw advertisement bytes, matching it to a configured device,
//! and projecting a decoded device state into the telemetry store.
//!
//! The decryption and bit-level parsing of the vendor payload is the
//! vendor codec's job outside this crate; this module decides, with a
//! contract, everything around that call: which advertisements reach
//! the codec, with which key, and what each decoded state does to
//! telemetry.

use vstd::prelude::*;

use crate::device::{spec_mac_key, DeviceKey, Mac};
use crate::fixed::{
    digits, scaled_units_i32, spec_div_toward_zero, spec_saturate_i32, spec_trunc_toward_zero,
    whole_units_i32, Fixed,
};
use crate::registry::Devices;
use crate::telemetry::{spec_debounce_fresh, Telemetry};

verus! {

/// First byte of the vendor's manufacturer identifier.
pub const VICTRON_ID_0: u8 = 0xE1;

/// Second byte of the vendor's manufacturer identifier.
pub const VICTRON_ID_1: u8 = 0x02;

/// The vendor's record-type byte for a device status record.
pub const VICTRON_RECORD_TYPE: u8 = 0x10;

/// Vendor mode code for "off".
pub const MODE_OFF: u64 = 0;

/// Vendor mode code for "inverting".
pub const MODE_INVERTING: u64 = 9;

/// Vendor mode code for "not applicable".
pub const MODE_NOT_APPLICABLE: u64 = 0xFF;

/// Vendor error code for "no error".
pub const ERROR_NO_ERROR: u64 = 0;

/// Vendor error code for "not applicable".
pub const ERROR_NOT_APPLICABLE: u64 = 0xFF;

/// The manufacturer-specific field of an advertisement, found by
/// walking its structures: each starts with a length byte, then a type
/// byte, then `length - 1` bytes of data. The field is the data of the
/// first structure of the manufacturer-specific type (`0xFF`) when it
/// is not empty; a zero length byte or a truncated structure ends the
/// walk with nothing.
pub open spec fn spec_manufacturer_data(adv: Seq<u8>) -> Option<Seq<u8>>
    decreases adv.len(),
{
    if adv.len() == 0 {
        Option::None
    } else {
        let l = adv[0] as int;
        if l == 0 {
            Option::None
        } else if 1 + l > adv.len() {
            Option::None
        } else if adv[1] == 0xFF {
            if l >= 2 {
                Option::Some(adv.subrange(2, 1 + l))
            } else {
                Option::None
            }
        } else {
            spec_manufacturer_data(adv.subrange(1 + l, adv.len() as int))
        }
    }
}

/// The prefix of the advertisement buffer that carries data: the
/// reported length, or the whole buffer when the report is longer.
pub open spec fn spec_scanned(adv: Seq<u8>, data_len: usize) -> Seq<u8> {
    if data_len <= adv.len() {
        adv.subrange(0, data_len as int)
    } else {
        adv
    }
}

/// Extracts the manufacturer-specific field from the first `data_len`
/// bytes of an advertisement buffer.
pub fn manufacturer_data(adv: &[u8], data_len: usize) -> (r: Option<Vec<u8>>)
    ensures
        r matches Some(v) ==> spec_manufacturer_data(spec_scanned(adv@, data_len))
            == Option::Some(v@),
        r is None ==> spec_manufacturer_data(spec_scanned(adv@, data_len)) is None,
{
    let n: usize = if data_len <= adv.len() {
        data_len
    } else {
        adv.len()
    };
    proof {
        assert(adv@.subrange(0, n as int) =~= spec_scanned(adv@, data_len));
    }
    let ghost scanned = spec_scanned(adv@, data_len);
    proof {
        assert(scanned.subrange(0, n as int) =~= scanned);
    }
    let mut i: usize = 0;
    while i < n
        invariant
            i <= n,
            n <= adv@.len(),
            scanned == adv@.subrange(0, n as int),
            scanned == spec_scanned(adv@, data_len),
            spec_manufacturer_data(scanned) == spec_manufacturer_data(
                scanned.subrange(i as int, n as int),
            ),
        decreases n - i,
    {
        let ghost suffix = scanned.subrange(i as int, n as int);
        proof {
            assert(suffix[0] == adv@[i as int]);
        }
        let l = adv[i] as usize;
        if l == 0 {
            return Option::None;
        }
        if l >= n - i {
            assert(1 + l > suffix.len());
            return Option::None;
        }
        proof {
            assert(suffix[1] == adv@[i + 1]);
        }
        if adv[i + 1] == 0xFF {
            if l < 2 {
                return Option::None;
            }
            let mut out: Vec<u8> = Vec::new();
            let mut j: usize = i + 2;
            while j < i + 1 + l
                invariant
                    i + 2 <= j <= i + 1 + l,
                    i + 1 + l <= n,
                    n <= adv@.len(),
                    out@ == adv@.subrange(i + 2, j as int),
                decreases i + 1 + l - j,
            {
                out.push(adv[j]);
                j = j + 1;
            }
            proof {
                assert(out@ =~= suffix.subrange(2, 1 + l));
            }
            return Option::Some(out);
        }
        proof {
            assert(suffix.subrange(1 + l, suffix.len() as int) =~= scanned.subrange(
                (i + 1 + l) as int,
                n as int,
            ));
        }
        i = i + 1 + l;
    }
    proof {
        assert(scanned.subrange(n as int, n as int).len() == 0);
    }
    Option::None
}

/// Whether a manufacturer field announces a vendor status record: the
/// two identifier bytes, then the status record-type byte.
pub open spec fn spec_is_victron(m: Seq<u8>) -> bool {
    m.len() >= 3 && m[0] == VICTRON_ID_0 && m[1] == VICTRON_ID_1 && m[2] == VICTRON_RECORD_TYPE
}

/// What to do with one scanned advertisement.
pub enum AdvDecision {
    /// No usable manufacturer field: drop the advertisement.
    NoData,
    /// A manufacturer field of some other vendor or record type: drop it.
    NotVictron,
    /// A vendor status record from an address that is not configured:
    /// drop it silently.
    UnknownDevice,
    /// A vendor status record from a configured device: hand `payload`
    /// (the field from its record-type byte on) to the vendor codec
    /// under `key`.
    Decode { key: DeviceKey, payload: Vec<u8> },
}

/// Decides what to do with an advertisement from `bda`: extracts the
/// manufacturer field, requires the vendor identifier and record type,
/// and looks the sender up in the registry. Only the returned decision
/// can lead to telemetry changes, so an advertisement that is not a
/// vendor status record from a configured device never touches
/// telemetry.
pub fn classify_advertisement(devices: &Devices, bda: &Mac, adv: &[u8], data_len: usize) -> (r:
    AdvDecision)
    ensures
        ({
            let md = spec_manufacturer_data(spec_scanned(adv@, data_len));
            &&& r is NoData <==> md is None
            &&& r is NotVictron <==> (md matches Some(m) && !spec_is_victron(m))
            &&& r is UnknownDevice <==> (md matches Some(m) && spec_is_victron(m)
                && !devices.addr_index@.contains_key(spec_mac_key(*bda)))
            &&& r matches AdvDecision::Decode { key, payload } ==> {
                &&& md matches Some(m) && spec_is_victron(m)
                &&& devices.addr_index@.contains_key(spec_mac_key(*bda))
                &&& key == devices.spec_device(devices.addr_index@[spec_mac_key(*bda)]).key
                &&& payload@ == md->Some_0.skip(2)
            }
            &&& md matches Some(m) ==> ((m.len() < 2 || m[0] != VICTRON_ID_0 || m[1]
                != VICTRON_ID_1) ==> !(r is Decode))
        }),
{
    let md = manufacturer_data(adv, data_len);
    match md {
        Option::None => AdvDecision::NoData,
        Option::Some(m) => {
            if m.len() < 3 {
                return AdvDecision::NotVictron;
            }
            if m[0] != VICTRON_ID_0 || m[1] != VICTRON_ID_1 || m[2] != VICTRON_RECORD_TYPE {
                return AdvDecision::NotVictron;
            }
            match devices.get_key(bda) {
                Option::None => AdvDecision::UnknownDevice,
                Option::Some(key) => {
                    let key = *key;
                    let mut payload: Vec<u8> = Vec::new();
                    let mut j: usize = 2;
                    while j < m.len()
                        invariant
                            2 <= j <= m@.len(),
                            payload@ == m@.subrange(2, j as int),
                        decreases m@.len() - j,
                    {
                        payload.push(m[j]);
                        j = j + 1;
                    }
                    proof {
                        assert(payload@ =~= m@.skip(2));
                    }
                    AdvDecision::Decode { key, payload }
                },
            }
        },
    }
}

/// A vendor mode as the codec reports it: the vendor's numeric code and
/// its rendered label.
pub struct ModeInfo {
    pub code: u64,
    pub label: String,
}

/// A vendor error state as the codec reports it: the vendor's numeric
/// code and its rendered label.
pub struct ErrorInfo {
    pub code: u64,
    pub label: String,
}

/// A decoded device status record, in plain values: fixed-point
/// readings, vendor codes with labels, and the alarm label when the
/// decoded alarm set is not empty.
pub enum DecodedState {
    SolarCharger {
        pv_power: Option<Fixed>,
        yield_today: Option<Fixed>,
        mode: ModeInfo,
        error: ErrorInfo,
    },
    VeBus {
        mode: ModeInfo,
        error: ErrorInfo,
        battery_temp: Option<Fixed>,
        ac_out_power: Option<Fixed>,
    },
    BatteryMonitor {
        soc: Option<Fixed>,
        voltage: Option<Fixed>,
        current: Option<Fixed>,
        alarm: Option<String>,
    },
    /// A record of a device kind this system does not monitor.
    Other,
}

/// An absent reading counts as zero, as the display shows it.
pub open spec fn spec_opt_raw(v: Option<Fixed>) -> int {
    match v {
        Option::Some(f) => f.raw as int,
        Option::None => 0,
    }
}

/// A reading that a fixed-point operation can take: anything but the
/// one value whose magnitude has no counterpart.
pub open spec fn spec_fixed_ok(v: Option<Fixed>) -> bool {
    v matches Some(f) ==> f.raw > i64::MIN
}

/// Whether a vendor error code names an actual fault, rather than "no
/// error" or "not applicable".
pub open spec fn spec_error_active(code: u64) -> bool {
    code != ERROR_NO_ERROR && code != ERROR_NOT_APPLICABLE
}

impl DecodedState {
    /// Every reading is one a fixed-point operation can take.
    pub open spec fn wf(self) -> bool {
        match self {
            DecodedState::SolarCharger { pv_power, yield_today, .. } => spec_fixed_ok(pv_power)
                && spec_fixed_ok(yield_today),
            DecodedState::VeBus { battery_temp, ac_out_power, .. } => spec_fixed_ok(battery_temp)
                && spec_fixed_ok(ac_out_power),
            DecodedState::BatteryMonitor { soc, voltage, current, .. } => spec_fixed_ok(soc)
                && spec_fixed_ok(voltage) && spec_fixed_ok(current),
            DecodedState::Other => true,
        }
    }
}

/// The value an absent reading falls back to.
fn opt_or_zero(v: Option<Fixed>) -> (r: Fixed)
    ensures
        r.raw == spec_opt_raw(v),
{
    match v {
        Option::Some(f) => f,
        Option::None => Fixed { raw: 0 },
    }
}

/// Projects one decoded record into the telemetry store.
///
/// Solar charger: power and yield land as truncated whole watts and
/// watt-hours; the mode label lands unless the mode is "not
/// applicable"; the error label is set while a fault is reported and
/// cleared otherwise.
///
/// Inverter (VE.Bus): while the debounce marker is younger than the
/// window, the decoded mode changes nothing and the marker stays;
/// otherwise mode "off" clears both inverter flags, "inverting" sets
/// both, any other mode lands as a label — and the marker, once
/// consulted and found stale, is cleared. Battery temperature, AC
/// output power and the error label are applied regardless.
///
/// Battery monitor: charge, voltage and current land truncated toward
/// zero to one, two and two decimals; the alarm label is set exactly
/// while the decoded alarm set is non-empty.
///
/// Records of other device kinds change nothing.
pub fn apply_decoded(tel: &mut Telemetry, state: DecodedState, now_ms: u64)
    requires
        state.wf(),
        old(tel).debounce_at matches Some(t) ==> t <= now_ms,
    ensures
        state matches DecodedState::SolarCharger { pv_power, yield_today, mode, error } ==> ({
            let new = *final(tel);
            let prev = *old(tel);
            &&& new.solar_watts == spec_saturate_i32(
                spec_div_toward_zero(spec_opt_raw(pv_power), 10000),
            )
            &&& new.solar_yield == spec_saturate_i32(
                spec_div_toward_zero(spec_opt_raw(yield_today), 10),
            )
            &&& mode.code != MODE_NOT_APPLICABLE ==> (new.solar_mode matches Some(s) && s@
                == mode.label@)
            &&& mode.code == MODE_NOT_APPLICABLE ==> new.solar_mode == prev.solar_mode
            &&& spec_error_active(error.code) ==> (new.solar_error matches Some(s) && s@
                == error.label@)
            &&& !spec_error_active(error.code) ==> new.solar_error is None
            &&& new.inverter_on == prev.inverter_on
            &&& new.inverter_prev == prev.inverter_prev
            &&& new.inv_mode == prev.inv_mode
            &&& new.inv_error == prev.inv_error
            &&& new.ac_watts == prev.ac_watts
            &&& new.batt_soc == prev.batt_soc
            &&& new.batt_volt == prev.batt_volt
            &&& new.batt_amp == prev.batt_amp
            &&& new.batt_temp == prev.batt_temp
            &&& new.batt_alarm == prev.batt_alarm
            &&& new.debounce_at == prev.debounce_at
        }),
        state matches DecodedState::VeBus { mode, error, battery_temp, ac_out_power } ==> ({
            let new = *final(tel);
            let prev = *old(tel);
            let fresh = spec_debounce_fresh(prev.debounce_at, now_ms);
            &&& fresh ==> new.inverter_on == prev.inverter_on && new.inverter_prev
                == prev.inverter_prev && new.inv_mode == prev.inv_mode && new.debounce_at
                == prev.debounce_at
            &&& !fresh ==> {
                &&& mode.code == MODE_OFF ==> !new.inverter_on && !new.inverter_prev
                    && new.inv_mode == prev.inv_mode
                &&& mode.code == MODE_INVERTING ==> new.inverter_on && new.inverter_prev
                    && new.inv_mode == prev.inv_mode
                &&& mode.code != MODE_OFF && mode.code != MODE_INVERTING
                    ==> (new.inv_mode matches Some(s) && s@ == mode.label@ && new.inverter_on
                    == prev.inverter_on && new.inverter_prev == prev.inverter_prev)
                &&& new.debounce_at is None
            }
            &&& new.batt_temp == spec_saturate_i32(
                spec_div_toward_zero(spec_opt_raw(battery_temp), 10000),
            )
            &&& new.ac_watts == spec_saturate_i32(
                spec_div_toward_zero(spec_opt_raw(ac_out_power), 10000),
            )
            &&& spec_error_active(error.code) ==> (new.inv_error matches Some(s) && s@
                == error.label@)
            &&& !spec_error_active(error.code) ==> new.inv_error is None
            &&& new.batt_soc == prev.batt_soc
            &&& new.batt_volt == prev.batt_volt
            &&& new.batt_amp == prev.batt_amp
            &&& new.batt_alarm == prev.batt_alarm
            &&& new.solar_watts == prev.solar_watts
            &&& new.solar_yield == prev.solar_yield
            &&& new.solar_mode == prev.solar_mode
            &&& new.solar_error == prev.solar_error
        }),
        state matches DecodedState::BatteryMonitor { soc, voltage, current, alarm } ==> ({
            let new = *final(tel);
            let prev = *old(tel);
            &&& new.batt_soc.raw == spec_trunc_toward_zero(spec_opt_raw(soc), 1000)
            &&& new.batt_volt.raw == spec_trunc_toward_zero(spec_opt_raw(voltage), 100)
            &&& new.batt_amp.raw == spec_trunc_toward_zero(spec_opt_raw(current), 100)
            &&& alarm matches Some(a) ==> (new.batt_alarm matches Some(s) && s@ == a@)
            &&& alarm is None ==> new.batt_alarm is None
            &&& new.inverter_on == prev.inverter_on
            &&& new.inverter_prev == prev.inverter_prev
            &&& new.inv_mode == prev.inv_mode
            &&& new.inv_error == prev.inv_error
            &&& new.ac_watts == prev.ac_watts
            &&& new.batt_temp == prev.batt_temp
            &&& new.solar_watts == prev.solar_watts
            &&& new.solar_yield == prev.solar_yield
            &&& new.solar_mode == prev.solar_mode
            &&& new.solar_error == prev.solar_error
            &&& new.debounce_at == prev.debounce_at
        }),
        state is Other ==> *final(tel) == *old(tel),
{
    match state {
        DecodedState::SolarCharger { pv_power, yield_today, mode, error } => {
            tel.solar_watts = whole_units_i32(opt_or_zero(pv_power));
            tel.solar_yield = scaled_units_i32(opt_or_zero(yield_today), 10);
            if mode.code != MODE_NOT_APPLICABLE {
                tel.solar_mode = Option::Some(mode.label);
            }
            if error.code != ERROR_NO_ERROR && error.code != ERROR_NOT_APPLICABLE {
                tel.solar_error = Option::Some(error.label);
            } else {
                tel.solar_error = Option::None;
            }
        },
        DecodedState::VeBus { mode, error, battery_temp, ac_out_power } => {
            let suppress: bool = match tel.debounce_at {
                Option::Some(t) => now_ms - t <= crate::telemetry::DEBOUNCE_WINDOW_MS,
                Option::None => false,
            };
            if !suppress {
                if mode.code == MODE_OFF {
                    tel.inverter_on = false;
                    tel.inverter_prev = false;
                } else if mode.code == MODE_INVERTING {
                    tel.inverter_on = true;
                    tel.inverter_prev = true;
                } else {
                    tel.inv_mode = Option::Some(mode.label);
                }
                tel.debounce_at = Option::None;
            }
            tel.batt_temp = whole_units_i32(opt_or_zero(battery_temp));
            tel.ac_watts = whole_units_i32(opt_or_zero(ac_out_power));
            if error.code != ERROR_NO_ERROR && error.code != ERROR_NOT_APPLICABLE {
                tel.inv_error = Option::Some(error.label);
            } else {
                tel.inv_error = Option::None;
            }
        },
        DecodedState::BatteryMonitor { soc, voltage, current, alarm } => {
            tel.batt_soc = digits(opt_or_zero(soc), false);
            tel.batt_volt = digits(opt_or_zero(voltage), true);
            tel.batt_amp = digits(opt_or_zero(current), true);
            match alarm {
                Option::Some(a) => {
                    tel.batt_alarm = Option::Some(a);
                },
                Option::None => {
                    tel.batt_alarm = Option::None;
                },
            }
        },
        DecodedState::Other => {},
    }
}

} // verus!
