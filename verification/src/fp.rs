//! IEEE 754 binary64 values carried as `u64` bit patterns.
//!
//! The compensation formulas are floating-point by the vendor's definition.
//! To keep them inside verified code, every such value is represented here by
//! the 64 bits of its binary64 encoding, and each arithmetic step is an
//! uninterpreted function of those bits, computed at run time by
//! `rustc_apfloat`'s software implementation of the format (round to nearest,
//! ties to even — the format's default, and what hardware arithmetic does).

use vstd::prelude::*;

verus! {

/// The bit pattern of positive zero.
pub const POS_ZERO: u64 = 0x0000000000000000;

/// The bit pattern of negative zero.
pub const NEG_ZERO: u64 = 0x8000000000000000;

/// Whether the bit pattern `a` encodes a binary64 zero.  The format has
/// exactly two zero encodings, one per sign.
pub open spec fn fp_is_zero(a: u64) -> bool {
    a == POS_ZERO || a == NEG_ZERO
}

/// Whether the bit pattern `a` encodes a binary64 zero.
pub fn is_zero(a: u64) -> (r: bool)
    ensures
        r == fp_is_zero(a),
{
    a == POS_ZERO || a == NEG_ZERO
}

/// The bit pattern of the binary64 sum of the values encoded by `a` and `b`.
pub uninterp spec fn fp_add(a: u64, b: u64) -> u64;

/// The bit pattern of the binary64 difference of the values of `a` and `b`.
pub uninterp spec fn fp_sub(a: u64, b: u64) -> u64;

/// The bit pattern of the binary64 product of the values of `a` and `b`.
pub uninterp spec fn fp_mul(a: u64, b: u64) -> u64;

/// The bit pattern of the binary64 quotient of the values of `a` and `b`.
pub uninterp spec fn fp_div(a: u64, b: u64) -> u64;

/// The bit pattern of the binary64 value nearest to the unsigned integer `x`.
pub uninterp spec fn fp_of_u64(x: u64) -> u64;

/// The bit pattern of the binary64 value nearest to the signed integer `x`.
pub uninterp spec fn fp_of_i64(x: i64) -> u64;

/// Relies on `rustc_apfloat::ieee::Double`'s `Add`: binary64 addition of the
/// two encoded values, rounding to nearest, ties to even.
#[verifier::external_body]
pub(crate) fn fadd(a: u64, b: u64) -> (r: u64)
    ensures
        r == fp_add(a, b),
{
    let x = <rustc_apfloat::ieee::Double as rustc_apfloat::Float>::from_bits(a as u128);
    let y = <rustc_apfloat::ieee::Double as rustc_apfloat::Float>::from_bits(b as u128);
    rustc_apfloat::Float::to_bits((x + y).value) as u64
}

/// Relies on `rustc_apfloat::ieee::Double`'s `Sub`: binary64 subtraction of
/// the two encoded values, rounding to nearest, ties to even.
#[verifier::external_body]
pub(crate) fn fsub(a: u64, b: u64) -> (r: u64)
    ensures
        r == fp_sub(a, b),
{
    let x = <rustc_apfloat::ieee::Double as rustc_apfloat::Float>::from_bits(a as u128);
    let y = <rustc_apfloat::ieee::Double as rustc_apfloat::Float>::from_bits(b as u128);
    rustc_apfloat::Float::to_bits((x - y).value) as u64
}

/// Relies on `rustc_apfloat::ieee::Double`'s `Mul`: binary64 multiplication
/// of the two encoded values, rounding to nearest, ties to even.
#[verifier::external_body]
pub(crate) fn fmul(a: u64, b: u64) -> (r: u64)
    ensures
        r == fp_mul(a, b),
{
    let x = <rustc_apfloat::ieee::Double as rustc_apfloat::Float>::from_bits(a as u128);
    let y = <rustc_apfloat::ieee::Double as rustc_apfloat::Float>::from_bits(b as u128);
    rustc_apfloat::Float::to_bits((x * y).value) as u64
}

/// Relies on `rustc_apfloat::ieee::Double`'s `Div`: binary64 division of the
/// two encoded values, rounding to nearest, ties to even.
#[verifier::external_body]
pub(crate) fn fdiv(a: u64, b: u64) -> (r: u64)
    ensures
        r == fp_div(a, b),
{
    let x = <rustc_apfloat::ieee::Double as rustc_apfloat::Float>::from_bits(a as u128);
    let y = <rustc_apfloat::ieee::Double as rustc_apfloat::Float>::from_bits(b as u128);
    rustc_apfloat::Float::to_bits((x / y).value) as u64
}

/// Relies on `rustc_apfloat::Float::from_u128`: the binary64 value nearest to
/// an unsigned integer, rounding to nearest, ties to even.
#[verifier::external_body]
pub(crate) fn f_from_u(x: u64) -> (r: u64)
    ensures
        r == fp_of_u64(x),
{
    let v = <rustc_apfloat::ieee::Double as rustc_apfloat::Float>::from_u128(x as u128).value;
    rustc_apfloat::Float::to_bits(v) as u64
}

/// Relies on `rustc_apfloat::Float::from_i128`: the binary64 value nearest to
/// a signed integer, rounding to nearest, ties to even.
#[verifier::external_body]
pub(crate) fn f_from_i(x: i64) -> (r: u64)
    ensures
        r == fp_of_i64(x),
{
    let v = <rustc_apfloat::ieee::Double as rustc_apfloat::Float>::from_i128(x as i128).value;
    rustc_apfloat::Float::to_bits(v) as u64
}

} // verus!
