//! The shared telemetry store: the fields the display reads and the
//! decoder and connection logic write.
//!
//! Numeric readings are fixed-point (`Fixed`) or whole integers;
//! mode, error and alarm fields are optional strings, absent until a
//! device reports one. The debounce marker records when a control
//! write last completed; while it is younger than the debounce window,
//! freshly decoded inverter modes are not applied.

use vstd::prelude::*;

use crate::fixed::Fixed;

verus! {

/// How long after a control write decoded inverter modes are distrusted.
pub const DEBOUNCE_WINDOW_MS: u64 = 3000;

/// The process-wide telemetry fields.
pub struct Telemetry {
    /// Desired inverter state: set by the display switch and by decoded
    /// inverter modes.
    pub inverter_on: bool,
    /// Last inverter state actually applied through a control write or
    /// observed from the device.
    pub inverter_prev: bool,
    /// Inverter mode label, for modes other than plain on or off.
    pub inv_mode: Option<String>,
    /// Inverter error label; absent while the device reports no error.
    pub inv_error: Option<String>,
    /// AC output power in whole watts.
    pub ac_watts: i32,
    /// Battery state of charge, truncated to one decimal.
    pub batt_soc: Fixed,
    /// Battery voltage, truncated to two decimals.
    pub batt_volt: Fixed,
    /// Battery current, truncated to two decimals.
    pub batt_amp: Fixed,
    /// Battery temperature in whole degrees.
    pub batt_temp: i32,
    /// Battery alarm label; absent while the alarm set is empty.
    pub batt_alarm: Option<String>,
    /// Solar input power in whole watts.
    pub solar_watts: i32,
    /// Solar yield today in whole watt-hours.
    pub solar_yield: i32,
    /// Solar charger mode label.
    pub solar_mode: Option<String>,
    /// Solar charger error label; absent while no error is reported.
    pub solar_error: Option<String>,
    /// When the last control write completed, in milliseconds of a
    /// monotonic clock; absent once consulted and found stale.
    pub debounce_at: Option<u64>,
}

/// Whether the debounce marker is set and still within the window at
/// `now_ms`: decoded inverter modes are suppressed exactly then.
pub open spec fn spec_debounce_fresh(debounce_at: Option<u64>, now_ms: u64) -> bool {
    debounce_at matches Some(t) && now_ms - t <= DEBOUNCE_WINDOW_MS
}

impl Telemetry {
    /// The telemetry store at start: zero readings, no labels, flags
    /// clear, no debounce marker.
    pub fn new() -> (r: Telemetry)
        ensures
            !r.inverter_on,
            !r.inverter_prev,
            r.inv_mode is None,
            r.inv_error is None,
            r.ac_watts == 0,
            r.batt_soc.raw == 0,
            r.batt_volt.raw == 0,
            r.batt_amp.raw == 0,
            r.batt_temp == 0,
            r.batt_alarm is None,
            r.solar_watts == 0,
            r.solar_yield == 0,
            r.solar_mode is None,
            r.solar_error is None,
            r.debounce_at is None,
    {
        Telemetry {
            inverter_on: false,
            inverter_prev: false,
            inv_mode: Option::None,
            inv_error: Option::None,
            ac_watts: 0,
            batt_soc: Fixed { raw: 0 },
            batt_volt: Fixed { raw: 0 },
            batt_amp: Fixed { raw: 0 },
            batt_temp: 0,
            batt_alarm: Option::None,
            solar_watts: 0,
            solar_yield: 0,
            solar_mode: Option::None,
            solar_error: Option::None,
            debounce_at: Option::None,
        }
    }
}

} // verus!
