//! Fixed-point decimal values and the truncation policy applied to
//! telemetry readings before they are shown.
//!
//! A reading is stored as a count of ten-thousandths of a unit, which
//! represents every value the vendor codec can produce exactly (its
//! finest resolution is a thousandth). Rounding is always truncation
//! toward zero, never rounding to nearest.

use vstd::prelude::*;

verus! {

/// Number of `raw` units in one whole unit of a reading.
pub const FIXED_SCALE: i64 = 10000;

/// A decimal reading stored as `raw` ten-thousandths of a unit.
#[derive(Clone, Copy, PartialEq, Eq, Structural, Debug)]
pub struct Fixed {
    pub raw: i64,
}

/// `raw` truncated toward zero to a multiple of `step`: the digits of
/// `raw` below `step` are dropped and the sign is kept.
pub open spec fn spec_trunc_toward_zero(raw: int, step: int) -> int
    recommends
        step > 0,
{
    if raw >= 0 {
        raw - raw % step
    } else {
        -((-raw) - ((-raw) % step))
    }
}

/// `raw` divided by `d` with the quotient truncated toward zero.
pub open spec fn spec_div_toward_zero(raw: int, d: int) -> int
    recommends
        d > 0,
{
    if raw >= 0 {
        raw / d
    } else {
        -((-raw) / d)
    }
}

/// `v` clamped to the `i32` range, as a saturating conversion does.
pub open spec fn spec_saturate_i32(v: int) -> int {
    if v > i32::MAX {
        i32::MAX as int
    } else if v < i32::MIN {
        i32::MIN as int
    } else {
        v
    }
}

impl Fixed {
    /// The reading with the given count of ten-thousandths.
    pub fn new(raw: i64) -> (r: Fixed)
        ensures
            r.raw == raw,
    {
        Fixed { raw }
    }

    /// The zero reading.
    pub fn zero() -> (r: Fixed)
        ensures
            r.raw == 0,
    {
        Fixed { raw: 0 }
    }
}

/// Truncates a reading toward zero to two decimal places when
/// `two_point` is set, and to one decimal place otherwise.
pub fn digits(from: Fixed, two_point: bool) -> (r: Fixed)
    requires
        from.raw > i64::MIN,
    ensures
        r.raw == spec_trunc_toward_zero(from.raw as int, if two_point { 100int } else { 1000int }),
{
    let step: u64 = if two_point { 100 } else { 1000 };
    let mag: u64 = if from.raw >= 0 {
        from.raw as u64
    } else {
        (-from.raw) as u64
    };
    let kept: u64 = mag - mag % step;
    if from.raw >= 0 {
        Fixed { raw: kept as i64 }
    } else {
        Fixed { raw: -(kept as i64) }
    }
}

/// The whole-unit part of a reading, truncated toward zero and clamped
/// to the `i32` range, as the display expects integer readings.
pub fn whole_units_i32(v: Fixed) -> (r: i32)
    requires
        v.raw > i64::MIN,
    ensures
        r == spec_saturate_i32(spec_div_toward_zero(v.raw as int, FIXED_SCALE as int)),
{
    scaled_units_i32(v, FIXED_SCALE)
}

/// A reading divided by `d` (truncating toward zero) and clamped to the
/// `i32` range. With `d == 10` this turns a kilowatt-hour reading into
/// whole watt-hours.
pub fn scaled_units_i32(v: Fixed, d: i64) -> (r: i32)
    requires
        v.raw > i64::MIN,
        d > 0,
    ensures
        r == spec_saturate_i32(spec_div_toward_zero(v.raw as int, d as int)),
{
    let mag: u64 = if v.raw >= 0 {
        v.raw as u64
    } else {
        (-v.raw) as u64
    };
    let q: u64 = mag / (d as u64);
    if v.raw >= 0 {
        if q > i32::MAX as u64 {
            i32::MAX
        } else {
            q as i32
        }
    } else {
        if q > (i32::MAX as u64) + 1 {
            i32::MIN
        } else {
            (-(q as i64)) as i32
        }
    }
}

} // verus!
