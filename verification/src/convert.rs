//! Conversion between the device's native brightness units and the
//! user-facing 0-100 percent scale, plus the saturating step arithmetic
//! used by relative adjustments.

use vstd::prelude::*;

verus! {

use vstd::arithmetic::div_mod::lemma_div_is_ordered;
use vstd::arithmetic::div_mod::lemma_div_multiples_vanish;

/// Smallest brightness value the device accepts, in native units.
pub const MIN_BRIGHTNESS: u32 = 400;

/// Largest brightness value the device accepts, in native units.
pub const MAX_BRIGHTNESS: u32 = 60000;

/// Width of the native brightness range.
pub const BRIGHTNESS_RANGE: u32 = MAX_BRIGHTNESS - MIN_BRIGHTNESS;

/// Percent value that a raw native brightness reading maps to.
///
/// A reading below `MIN_BRIGHTNESS` is clamped up to `MIN_BRIGHTNESS` first,
/// so it maps to 0 rather than underflowing. The scaled value is truncated
/// toward zero, and the result is narrowed to the 8-bit range, so a reading
/// far above `MAX_BRIGHTNESS` saturates at 255.
pub open spec fn percent_of_raw(raw: int) -> int {
    let clamped = if raw < MIN_BRIGHTNESS { MIN_BRIGHTNESS as int } else { raw };
    let scaled = (clamped - MIN_BRIGHTNESS) * 100 / (BRIGHTNESS_RANGE as int);
    if scaled > 255 { 255 } else { scaled }
}

/// Raw native brightness value that a percent value maps to: linear scaling
/// with truncation, then a mandatory clamp into
/// `[MIN_BRIGHTNESS, MAX_BRIGHTNESS]`.
pub open spec fn raw_of_percent(percent: int) -> int {
    let scaled = percent * (BRIGHTNESS_RANGE as int) / 100 + MIN_BRIGHTNESS;
    if scaled > MAX_BRIGHTNESS {
        MAX_BRIGHTNESS as int
    } else if scaled < MIN_BRIGHTNESS {
        MIN_BRIGHTNESS as int
    } else {
        scaled
    }
}

/// Converting a percentage in [0, 100] to native units and back gives the
/// same percentage: the truncating round trip loses nothing in this
/// direction, which is within the tolerance of one percent that the scaling
/// is allowed.
pub proof fn lemma_percent_round_trip(percent: int)
    requires
        0 <= percent <= 100,
    ensures
        percent_of_raw(raw_of_percent(percent)) == percent,
{
    assert(BRIGHTNESS_RANGE == 59600);
    assert(percent * 59600 == 100 * (596 * percent)) by (nonlinear_arith);
    lemma_div_multiples_vanish(596 * percent, 100);
    let raw = raw_of_percent(percent);
    assert(raw == 596 * percent + 400);
    assert((raw - 400) * 100 == 59600 * percent);
    lemma_div_multiples_vanish(percent, 59600);
}

/// A raw value within the device's range maps to a percentage in [0, 100],
/// and converting that percentage back to native units lands on a raw value
/// that maps to the very same percentage: repeated round trips lose at most
/// the one initial truncation.
pub proof fn lemma_raw_round_trip(raw: int)
    requires
        MIN_BRIGHTNESS <= raw <= MAX_BRIGHTNESS,
    ensures
        0 <= percent_of_raw(raw) <= 100,
        percent_of_raw(raw_of_percent(percent_of_raw(raw))) == percent_of_raw(raw),
{
    let p = (raw - MIN_BRIGHTNESS as int) * 100 / (BRIGHTNESS_RANGE as int);
    lemma_div_multiples_vanish(0, 59600);
    lemma_div_is_ordered(0, (raw - 400) * 100, 59600);
    lemma_div_multiples_vanish(100, 59600);
    assert((raw - 400) * 100 <= 59600 * 100);
    lemma_div_is_ordered((raw - 400) * 100, 59600int * 100, 59600);
    assert(0 <= p <= 100);
    assert(percent_of_raw(raw) == p);
    lemma_percent_round_trip(p);
}

/// Converts a raw native brightness reading to a percentage.
pub fn to_percent(raw: u32) -> (r: u8)
    ensures
        r as int == percent_of_raw(raw as int),
{
    let clamped: u32 = if raw < MIN_BRIGHTNESS { MIN_BRIGHTNESS } else { raw };
    let scaled: u64 = (clamped - MIN_BRIGHTNESS) as u64 * 100 / (BRIGHTNESS_RANGE as u64);
    if scaled > 255 { 255 } else { scaled as u8 }
}

/// Converts a percentage to a raw native brightness value, clamped into
/// `[MIN_BRIGHTNESS, MAX_BRIGHTNESS]` after the conversion.
pub fn to_raw(percent: u8) -> (r: u32)
    ensures
        r as int == raw_of_percent(percent as int),
        MIN_BRIGHTNESS <= r <= MAX_BRIGHTNESS,
{
    let scaled: u32 = percent as u32 * BRIGHTNESS_RANGE / 100 + MIN_BRIGHTNESS;
    if scaled > MAX_BRIGHTNESS {
        MAX_BRIGHTNESS
    } else if scaled < MIN_BRIGHTNESS {
        MIN_BRIGHTNESS
    } else {
        scaled
    }
}

/// Raises a percentage by `step`, clamping the sum at 100.
pub fn step_up(current: u8, step: u8) -> (r: u8)
    ensures
        r as int == if current + step > 100 { 100int } else { current + step },
{
    let sum: u16 = current as u16 + step as u16;
    if sum > 100 { 100 } else { sum as u8 }
}

/// Lowers a percentage by `step`, saturating at 0.
pub fn step_down(current: u8, step: u8) -> (r: u8)
    ensures
        r as int == if current >= step { current - step } else { 0int },
{
    if current >= step { current - step } else { 0 }
}

} // verus!
