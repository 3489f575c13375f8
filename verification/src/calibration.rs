//! Calibration of the grid-voltage sampler.
//!
//! The converter's reference voltage deviates from its nominal value by a
//! factory-measured correction that is stored in a five-bit fuse field: four
//! bits of magnitude and one sign bit, in steps of seven millivolts. The
//! characterised transfer curve then turns a raw conversion code into
//! millivolts.

use vstd::prelude::*;

verus! {

/// Nominal reference voltage of the converter, in millivolts.
pub const IDEAL_VREF: u32 = 1100;

/// Millivolts per unit of the fuse correction.
pub const VREF_STEP: u32 = 7;

/// Gain of the transfer curve at unit reference voltage, as a numerator over
/// `CURVE_GAIN_SCALE`.
pub const CURVE_GAIN: u64 = 57431;

/// Denominator of the transfer curve's gain.
pub const CURVE_GAIN_SCALE: u64 = 4096;

/// Offset of the transfer curve, in millivolts.
pub const CURVE_OFFSET: u64 = 75;

/// Highest conversion code, which the curve maps to its full gain.
pub const CODE_SPAN: u64 = 65535;

/// Half of the code range, added before the division so that it rounds to
/// the nearest millivolt.
pub const CODE_ROUNDING: u64 = 32768;

/// The signed correction that a fuse value encodes: the low four bits are the
/// magnitude, and it counts as negative exactly when the bits above them
/// hold the value one.
pub open spec fn fuse_correction(vref_fuse: u8) -> int {
    let magnitude = (vref_fuse % 16) as int;
    if vref_fuse / 16 == 1 {
        -magnitude
    } else {
        magnitude
    }
}

/// The calibrated reference voltage, in millivolts, for a fuse value.
pub open spec fn actual_vref(vref_fuse: u8) -> int {
    IDEAL_VREF + fuse_correction(vref_fuse) * VREF_STEP
}

/// Computes the calibrated reference voltage from the raw fuse value.
pub fn read_actual_vref(vref_fuse: u8) -> (vref: u32)
    ensures
        vref == actual_vref(vref_fuse),
        IDEAL_VREF - 15 * VREF_STEP <= vref <= IDEAL_VREF + 15 * VREF_STEP,
{
    let magnitude: u8 = vref_fuse & 0b1111;
    let sign: u8 = vref_fuse >> 4;
    assert(magnitude == vref_fuse % 16) by (bit_vector)
        requires
            magnitude == vref_fuse & 0b1111,
    ;
    assert(sign == vref_fuse / 16) by (bit_vector)
        requires
            sign == vref_fuse >> 4,
    ;
    let correction: u32 = magnitude as u32 * VREF_STEP;
    if sign == 1 {
        IDEAL_VREF - correction
    } else {
        IDEAL_VREF + correction
    }
}

/// The gain of the transfer curve for a reference voltage in millivolts.
pub open spec fn curve_coefficient(vref: int) -> int {
    vref * CURVE_GAIN / (CURVE_GAIN_SCALE as int)
}

/// The voltage, in millivolts, that the transfer curve gives for a raw
/// conversion code at a reference voltage.
pub open spec fn millivolts_of(measurement: int, vref: int) -> int {
    (curve_coefficient(vref) * measurement + CODE_ROUNDING) / (CODE_SPAN as int) + CURVE_OFFSET
}

/// Converts a raw conversion code to millivolts along the transfer curve of
/// the converter without attenuation. Every code and every reference
/// voltage is accepted; whether the result is plausible is for the caller to
/// judge.
pub fn adc_to_millivolts(measurement: u16, vref: u32) -> (millivolts: u64)
    ensures
        millivolts == millivolts_of(measurement as int, vref as int),
{
    let coef_a: u64 = (vref as u64 * CURVE_GAIN) / CURVE_GAIN_SCALE;
    let code: u64 = measurement as u64;
    assert(coef_a * code <= 0xf_ffff_ffff * 0xffff) by (nonlinear_arith)
        requires
            coef_a <= 0xf_ffff_ffff,
            code <= 0xffff,
    ;
    (coef_a * code + CODE_ROUNDING) / CODE_SPAN + CURVE_OFFSET
}

/// The raw code that stands for a reading: the code itself, or zero where
/// the conversion failed.
pub open spec fn code_or_zero(reading: Option<u16>) -> int {
    match reading {
        Some(code) => code as int,
        None => 0,
    }
}

/// Converts the outcome of a conversion to millivolts. A conversion that
/// failed counts as the code zero, so that the loop that samples goes on.
pub fn reading_to_millivolts(reading: Option<u16>, vref: u32) -> (millivolts: u64)
    ensures
        millivolts == millivolts_of(code_or_zero(reading), vref as int),
{
    let code: u16 = match reading {
        Some(code) => code,
        None => 0,
    };
    adc_to_millivolts(code, vref)
}

/// For one calibration the transfer curve never decreases as the raw code
/// grows.
pub proof fn lemma_millivolts_monotonic(lower: int, higher: int, vref: int)
    requires
        0 <= vref,
        lower <= higher,
    ensures
        millivolts_of(lower, vref) <= millivolts_of(higher, vref),
{
    let gain: int = curve_coefficient(vref);
    assert(gain >= 0);
    assert(gain * lower <= gain * higher) by (nonlinear_arith)
        requires
            gain >= 0,
            lower <= higher,
    ;
}

} // verus!
