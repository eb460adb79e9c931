//! The vendor's compensation formulas: from raw ADC counts and calibration
//! constants to calibrated physical values.
//!
//! Every floating-point value is a binary64 bit pattern (see [`crate::fp`]),
//! so each function's result is pinned, bit for bit, to a spec function of
//! its arguments alone: the pipeline is deterministic by contract, and the
//! order of operations — which affects the output by measurable amounts — is
//! fixed in the specification itself.

use vstd::prelude::*;

use crate::calibration::Calibration;
use crate::fp::{
    fadd, fdiv, fmul, fsub, f_from_i, f_from_u, fp_add, fp_div, fp_is_zero, fp_mul, fp_of_i64,
    fp_of_u64, fp_sub, is_zero, POS_ZERO,
};

verus! {

/// binary64 bits of nine fifths, the Celsius-to-Fahrenheit scale.
pub const F_SCALE: u64 = 0x3FFCCCCCCCCCCCCD;

/// binary64 bits of thirty-two, the Celsius-to-Fahrenheit offset.
pub const F_OFFSET: u64 = 0x4040000000000000;

/// binary64 bits of the pascals-to-inches-of-mercury conversion factor,
/// 295299830714 with the decimal point shifted fifteen places left.
pub const PA_TO_INHG: u64 = 0x3F335A4F1D8CE241;

/// binary64 bits of 1.
pub const C_ONE: u64 = 0x3FF0000000000000;

/// binary64 bits of 2.
pub const C_TWO: u64 = 0x4000000000000000;

/// binary64 bits of 4.
pub const C_FOUR: u64 = 0x4010000000000000;

/// binary64 bits of 16.
pub const C_SIXTEEN: u64 = 0x4030000000000000;

/// binary64 bits of 1024.
pub const C_1024: u64 = 0x4090000000000000;

/// binary64 bits of 4096.
pub const C_4096: u64 = 0x40B0000000000000;

/// binary64 bits of 5120.
pub const C_5120: u64 = 0x40B4000000000000;

/// binary64 bits of 6250.
pub const C_6250: u64 = 0x40B86A0000000000;

/// binary64 bits of 8192.
pub const C_8192: u64 = 0x40C0000000000000;

/// binary64 bits of 16384.
pub const C_16384: u64 = 0x40D0000000000000;

/// binary64 bits of 32768.
pub const C_32768: u64 = 0x40E0000000000000;

/// binary64 bits of 64000.
pub const C_64000: u64 = 0x40EF400000000000;

/// binary64 bits of 65536.
pub const C_65536: u64 = 0x40F0000000000000;

/// binary64 bits of 131072.
pub const C_131072: u64 = 0x4100000000000000;

/// binary64 bits of 524288.
pub const C_524288: u64 = 0x4120000000000000;

/// binary64 bits of 1048576.
pub const C_1048576: u64 = 0x4130000000000000;

/// binary64 bits of 2147483648.
pub const C_2147483648: u64 = 0x41E0000000000000;

/// The shared temperature intermediate `t_fine`, from the raw temperature
/// reading `ut` and the temperature calibration constants:
/// `var1 = (ut/16384 - t1/1024) * t2`,
/// `var2 = (ut/131072 - t1/8192)^2 * t3`,
/// `t_fine = var1 + var2`.
pub open spec fn spec_t_fine(ut: u32, cal: Calibration) -> u64 {
    let utf = fp_of_u64(ut as u64);
    let t1f = fp_of_u64(cal.t1 as u64);
    let t2f = fp_of_i64(cal.t2 as i64);
    let t3f = fp_of_i64(cal.t3 as i64);
    let var1 = fp_mul(fp_sub(fp_div(utf, C_16384), fp_div(t1f, C_1024)), t2f);
    let d = fp_sub(fp_div(utf, C_131072), fp_div(t1f, C_8192));
    let var2 = fp_mul(fp_mul(d, d), t3f);
    fp_add(var1, var2)
}

/// Fahrenheit from `t_fine`: Celsius is `t_fine / 5120`, and the exposed
/// value is `celsius * 1.8 + 32`.
pub open spec fn spec_fahrenheit(t_fine: u64) -> u64 {
    fp_add(fp_mul(fp_div(t_fine, C_5120), F_SCALE), F_OFFSET)
}

/// The full temperature pipeline: Fahrenheit from the raw reading and the
/// calibration constants.
pub open spec fn spec_temperature(ut: u32, cal: Calibration) -> u64 {
    spec_fahrenheit(spec_t_fine(ut, cal))
}

/// The first pressure intermediate: `var1 = t_fine/2 - 64000`.
pub open spec fn spec_p_var1(t_fine: u64) -> u64 {
    fp_sub(fp_div(t_fine, C_TWO), C_64000)
}

/// The accumulated second pressure intermediate:
/// `var2 = var1^2 * p6/32768 + var1*p5*2`, then `var2/4 + p4*65536`.
pub open spec fn spec_var2_3(t_fine: u64, cal: Calibration) -> u64 {
    let var1 = spec_p_var1(t_fine);
    let p6f = fp_of_i64(cal.p6 as i64);
    let p5f = fp_of_i64(cal.p5 as i64);
    let p4f = fp_of_i64(cal.p4 as i64);
    let var2 = fp_div(fp_mul(fp_mul(var1, var1), p6f), C_32768);
    let var2_2 = fp_add(var2, fp_mul(fp_mul(var1, p5f), C_TWO));
    fp_add(fp_div(var2_2, C_FOUR), fp_mul(p4f, C_65536))
}

/// The pressure divisor:
/// `var1_2 = (p3*var1^2/524288 + p2*var1) / 524288`, then
/// `var1_3 = (1 + var1_2/32768) * p1`.
pub open spec fn spec_var1_3(t_fine: u64, cal: Calibration) -> u64 {
    let var1 = spec_p_var1(t_fine);
    let p3f = fp_of_i64(cal.p3 as i64);
    let p2f = fp_of_i64(cal.p2 as i64);
    let p1f = fp_of_u64(cal.p1 as u64);
    let var1_2 = fp_div(
        fp_add(fp_div(fp_mul(fp_mul(p3f, var1), var1), C_524288), fp_mul(p2f, var1)),
        C_524288,
    );
    fp_mul(fp_add(C_ONE, fp_div(var1_2, C_32768)), p1f)
}

/// The full pressure pipeline, in inches of mercury, from the raw pressure
/// reading `adc`, a fresh `t_fine`, and the calibration constants.  A zero
/// divisor `var1_3` yields exactly positive zero: a documented degenerate
/// result, not an error.
pub open spec fn spec_pressure(adc: u32, t_fine: u64, cal: Calibration) -> u64 {
    let var2_3 = spec_var2_3(t_fine, cal);
    let var1_3 = spec_var1_3(t_fine, cal);
    if fp_is_zero(var1_3) {
        POS_ZERO
    } else {
        let adcf = fp_of_u64(adc as u64);
        let p = fp_sub(C_1048576, adcf);
        let p_2 = fp_div(fp_mul(fp_sub(p, fp_div(var2_3, C_4096)), C_6250), var1_3);
        let p9f = fp_of_i64(cal.p9 as i64);
        let p8f = fp_of_i64(cal.p8 as i64);
        let p7f = fp_of_i64(cal.p7 as i64);
        let var1_4 = fp_div(fp_mul(fp_mul(p9f, p_2), p_2), C_2147483648);
        let var2_4 = fp_div(fp_mul(p_2, p8f), C_32768);
        let pascals = fp_add(p_2, fp_div(fp_add(fp_add(var1_4, var2_4), p7f), C_SIXTEEN));
        fp_mul(pascals, PA_TO_INHG)
    }
}

/// Computes `t_fine` from a raw temperature reading and the calibration.
pub fn t_fine_from_raw(ut: u32, cal: &Calibration) -> (r: u64)
    ensures
        r == spec_t_fine(ut, *cal),
{
    let utf = f_from_u(ut as u64);
    let t1f = f_from_u(cal.t1 as u64);
    let t2f = f_from_i(cal.t2 as i64);
    let t3f = f_from_i(cal.t3 as i64);
    let var1 = fmul(fsub(fdiv(utf, C_16384), fdiv(t1f, C_1024)), t2f);
    let d = fsub(fdiv(utf, C_131072), fdiv(t1f, C_8192));
    let var2 = fmul(fmul(d, d), t3f);
    fadd(var1, var2)
}

/// Converts `t_fine` to Fahrenheit.
pub fn fahrenheit_from_t_fine(t_fine: u64) -> (r: u64)
    ensures
        r == spec_fahrenheit(t_fine),
{
    fadd(fmul(fdiv(t_fine, C_5120), F_SCALE), F_OFFSET)
}

/// The full temperature pipeline on a raw reading already in hand: the
/// result is a function of the raw reading and the calibration alone.
pub fn temperature_from_raw(ut: u32, cal: &Calibration) -> (r: u64)
    ensures
        r == spec_temperature(ut, *cal),
{
    let t_fine = t_fine_from_raw(ut, cal);
    fahrenheit_from_t_fine(t_fine)
}

/// The full pressure pipeline on raw values already in hand.  When the
/// divisor `var1_3` is zero the result is exactly positive zero.
pub fn pressure_from_raw(adc: u32, t_fine: u64, cal: &Calibration) -> (r: u64)
    ensures
        r == spec_pressure(adc, t_fine, *cal),
        fp_is_zero(spec_var1_3(t_fine, *cal)) ==> r == POS_ZERO,
{
    let p6f = f_from_i(cal.p6 as i64);
    let p5f = f_from_i(cal.p5 as i64);
    let p4f = f_from_i(cal.p4 as i64);
    let p3f = f_from_i(cal.p3 as i64);
    let p2f = f_from_i(cal.p2 as i64);
    let p1f = f_from_u(cal.p1 as u64);

    let var1 = fsub(fdiv(t_fine, C_TWO), C_64000);
    let var2 = fdiv(fmul(fmul(var1, var1), p6f), C_32768);
    let var2_2 = fadd(var2, fmul(fmul(var1, p5f), C_TWO));
    let var2_3 = fadd(fdiv(var2_2, C_FOUR), fmul(p4f, C_65536));
    let var1_2 = fdiv(fadd(fdiv(fmul(fmul(p3f, var1), var1), C_524288), fmul(p2f, var1)), C_524288);
    let var1_3 = fmul(fadd(C_ONE, fdiv(var1_2, C_32768)), p1f);

    if is_zero(var1_3) {
        return POS_ZERO;
    }

    let adcf = f_from_u(adc as u64);
    let p = fsub(C_1048576, adcf);
    let p_2 = fdiv(fmul(fsub(p, fdiv(var2_3, C_4096)), C_6250), var1_3);
    let p9f = f_from_i(cal.p9 as i64);
    let p8f = f_from_i(cal.p8 as i64);
    let p7f = f_from_i(cal.p7 as i64);
    let var1_4 = fdiv(fmul(fmul(p9f, p_2), p_2), C_2147483648);
    let var2_4 = fdiv(fmul(p_2, p8f), C_32768);
    let pascals = fadd(p_2, fdiv(fadd(fadd(var1_4, var2_4), p7f), C_SIXTEEN));
    fmul(pascals, PA_TO_INHG)
}

/// A zero divisor in the pressure formula yields exactly positive zero,
/// whatever the raw reading: the guard forecloses a division fault.
pub proof fn lemma_zero_divisor_yields_zero(adc: u32, t_fine: u64, cal: Calibration)
    requires
        fp_is_zero(spec_var1_3(t_fine, cal)),
    ensures
        spec_pressure(adc, t_fine, cal) == POS_ZERO,
{
}

/// Determinism of the temperature pipeline: two results computed from the
/// same raw reading and the same calibration agree bit for bit.
pub proof fn lemma_temperature_deterministic(ut: u32, cal: Calibration, r1: u64, r2: u64)
    requires
        r1 == spec_temperature(ut, cal),
        r2 == spec_temperature(ut, cal),
    ensures
        r1 == r2,
{
}

} // verus!
