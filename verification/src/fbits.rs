//! IEEE-754 binary64 values represented by their bit patterns.
//!
//! Readings and transform parameters are carried through the pipeline as
//! `u64` bit patterns.  The predicates a decision ever branches on
//! (equality, ordering, absolute value, NaN and zero detection) are defined
//! here exactly, at the bit level, and verified.  Rounding arithmetic
//! (addition, subtraction, multiplication, division, integral rounding and
//! integer conversion) is delegated to the `rustc_apfloat` software
//! implementation of IEEE-754 behind trusted wrappers; each result is named
//! by an uninterpreted function of the operand bits.

use rustc_apfloat::Float;
use vstd::prelude::*;

verus! {

/// Mask of the sign bit of a binary64 value.
pub const F64_SIGN_MASK: u64 = 0x8000_0000_0000_0000;

/// Mask of everything but the sign bit.
pub const F64_ABS_MASK: u64 = 0x7FFF_FFFF_FFFF_FFFF;

/// Mask of the exponent field.
pub const F64_EXP_MASK: u64 = 0x7FF0_0000_0000_0000;

/// Mask of the fraction field.
pub const F64_FRAC_MASK: u64 = 0x000F_FFFF_FFFF_FFFF;

/// Bit pattern of `1.0`.
pub const F64_ONE: u64 = 0x3FF0_0000_0000_0000;

/// Bit pattern of `0.0`.
pub const F64_ZERO: u64 = 0;

/// A bit pattern encodes NaN when its exponent field is all ones and its
/// fraction field is not zero.
pub open spec fn is_nan_bits(b: u64) -> bool {
    b & F64_EXP_MASK == F64_EXP_MASK && b & F64_FRAC_MASK != 0
}

/// A bit pattern encodes a zero (`0.0` or `-0.0`) when everything but the
/// sign bit is clear.
pub open spec fn is_zero_bits(b: u64) -> bool {
    b & F64_ABS_MASK == 0
}

/// Absolute value: the sign bit is cleared, the rest is unchanged.
pub open spec fn abs_bits(b: u64) -> u64 {
    b & F64_ABS_MASK
}

/// Monotone map from binary64 bit patterns to unsigned integers: negative
/// values are complemented, non-negative values have the sign bit set, so
/// that the integer order of the keys is the IEEE order of the values
/// (up to the two zeros, which get adjacent keys).
pub open spec fn order_key(b: u64) -> u64 {
    if b & F64_SIGN_MASK != 0 {
        !b
    } else {
        b | F64_SIGN_MASK
    }
}

/// IEEE equality of two binary64 bit patterns: never true for NaN, true for
/// the two zeros, otherwise bit equality.
pub open spec fn f64_eq_bits(a: u64, b: u64) -> bool {
    &&& !is_nan_bits(a)
    &&& !is_nan_bits(b)
    &&& (a == b || (is_zero_bits(a) && is_zero_bits(b)))
}

/// IEEE strict order of two binary64 bit patterns: never true when either
/// operand is NaN or when both are zeros, otherwise the order of the keys.
pub open spec fn f64_lt_bits(a: u64, b: u64) -> bool {
    &&& !is_nan_bits(a)
    &&& !is_nan_bits(b)
    &&& !(is_zero_bits(a) && is_zero_bits(b))
    &&& order_key(a) < order_key(b)
}

/// Tests whether a bit pattern encodes NaN.
pub fn f64_is_nan(b: u64) -> (r: bool)
    ensures
        r == is_nan_bits(b),
{
    b & F64_EXP_MASK == F64_EXP_MASK && b & F64_FRAC_MASK != 0
}

/// Tests whether a bit pattern encodes `0.0` or `-0.0`.
pub fn f64_is_zero(b: u64) -> (r: bool)
    ensures
        r == is_zero_bits(b),
{
    b & F64_ABS_MASK == 0
}

/// Clears the sign bit.
pub fn f64_abs(b: u64) -> (r: u64)
    ensures
        r == abs_bits(b),
{
    b & F64_ABS_MASK
}

/// IEEE equality on bit patterns.
pub fn f64_eq(a: u64, b: u64) -> (r: bool)
    ensures
        r == f64_eq_bits(a, b),
{
    if f64_is_nan(a) || f64_is_nan(b) {
        false
    } else {
        a == b || (f64_is_zero(a) && f64_is_zero(b))
    }
}

/// IEEE strict order on bit patterns.
pub fn f64_lt(a: u64, b: u64) -> (r: bool)
    ensures
        r == f64_lt_bits(a, b),
{
    if f64_is_nan(a) || f64_is_nan(b) {
        false
    } else if f64_is_zero(a) && f64_is_zero(b) {
        false
    } else {
        let ka: u64 = if a & F64_SIGN_MASK != 0 {
            !a
        } else {
            a | F64_SIGN_MASK
        };
        let kb: u64 = if b & F64_SIGN_MASK != 0 {
            !b
        } else {
            b | F64_SIGN_MASK
        };
        ka < kb
    }
}

/// The bits of the IEEE sum of the values encoded by `a` and `b`.
pub uninterp spec fn f_add(a: u64, b: u64) -> u64;

/// The bits of the IEEE difference of the values encoded by `a` and `b`.
pub uninterp spec fn f_sub(a: u64, b: u64) -> u64;

/// The bits of the IEEE product of the values encoded by `a` and `b`.
pub uninterp spec fn f_mul(a: u64, b: u64) -> u64;

/// The bits of the IEEE quotient of the values encoded by `a` and `b`.
pub uninterp spec fn f_div(a: u64, b: u64) -> u64;

/// The bits of the value encoded by `a`, rounded to an integral value with
/// ties away from zero.
pub uninterp spec fn f_round(a: u64) -> u64;

/// The bits of the value encoded by `a`, truncated toward zero.
pub uninterp spec fn f_trunc(a: u64) -> u64;

/// The bits of the binary64 value nearest to the signed integer `i`.
pub uninterp spec fn f_of_i64(i: i64) -> u64;

/// The bits of the binary64 value nearest to the unsigned integer `u`.
pub uninterp spec fn f_of_u64(u: u64) -> u64;

/// Relies on `rustc_apfloat::ieee::Double` addition: IEEE-754 binary64,
/// round to nearest, ties to even; the result depends on the operand bits
/// alone.
#[verifier::external_body]
pub(crate) fn add_bits(a: u64, b: u64) -> (r: u64)
    ensures
        r == f_add(a, b),
{
    let x = rustc_apfloat::ieee::Double::from_bits(a as u128);
    let y = rustc_apfloat::ieee::Double::from_bits(b as u128);
    (x + y).value.to_bits() as u64
}

/// Relies on `rustc_apfloat::ieee::Double` subtraction: IEEE-754 binary64,
/// round to nearest, ties to even; the result depends on the operand bits
/// alone.
#[verifier::external_body]
pub(crate) fn sub_bits(a: u64, b: u64) -> (r: u64)
    ensures
        r == f_sub(a, b),
{
    let x = rustc_apfloat::ieee::Double::from_bits(a as u128);
    let y = rustc_apfloat::ieee::Double::from_bits(b as u128);
    (x - y).value.to_bits() as u64
}

/// Relies on `rustc_apfloat::ieee::Double` multiplication: IEEE-754
/// binary64, round to nearest, ties to even; the result depends on the
/// operand bits alone.
#[verifier::external_body]
pub(crate) fn mul_bits(a: u64, b: u64) -> (r: u64)
    ensures
        r == f_mul(a, b),
{
    let x = rustc_apfloat::ieee::Double::from_bits(a as u128);
    let y = rustc_apfloat::ieee::Double::from_bits(b as u128);
    (x * y).value.to_bits() as u64
}

/// Relies on `rustc_apfloat::ieee::Double` division: IEEE-754 binary64,
/// round to nearest, ties to even; the result depends on the operand bits
/// alone.
#[verifier::external_body]
pub(crate) fn div_bits(a: u64, b: u64) -> (r: u64)
    ensures
        r == f_div(a, b),
{
    let x = rustc_apfloat::ieee::Double::from_bits(a as u128);
    let y = rustc_apfloat::ieee::Double::from_bits(b as u128);
    (x / y).value.to_bits() as u64
}

/// Relies on `rustc_apfloat::ieee::Double::round_to_integral` with rounding
/// to nearest, ties away from zero; the result depends on the operand bits
/// alone.
#[verifier::external_body]
pub(crate) fn round_bits(a: u64) -> (r: u64)
    ensures
        r == f_round(a),
{
    let x = rustc_apfloat::ieee::Double::from_bits(a as u128);
    x.round_to_integral(rustc_apfloat::Round::NearestTiesToAway).value.to_bits() as u64
}

/// Relies on `rustc_apfloat::ieee::Double::round_to_integral` with rounding
/// toward zero; the result depends on the operand bits alone.
#[verifier::external_body]
pub(crate) fn trunc_bits(a: u64) -> (r: u64)
    ensures
        r == f_trunc(a),
{
    let x = rustc_apfloat::ieee::Double::from_bits(a as u128);
    x.round_to_integral(rustc_apfloat::Round::TowardZero).value.to_bits() as u64
}

/// Relies on `rustc_apfloat::ieee::Double::from_i128`: conversion of a
/// signed integer to the nearest binary64 value, ties to even; the result
/// depends on the integer alone.
#[verifier::external_body]
pub(crate) fn i64_to_bits(i: i64) -> (r: u64)
    ensures
        r == f_of_i64(i),
{
    rustc_apfloat::ieee::Double::from_i128(i as i128).value.to_bits() as u64
}

/// Relies on `rustc_apfloat::ieee::Double::from_u128`: conversion of an
/// unsigned integer to the nearest binary64 value, ties to even; the result
/// depends on the integer alone.
#[verifier::external_body]
pub(crate) fn u64_to_bits(u: u64) -> (r: u64)
    ensures
        r == f_of_u64(u),
{
    rustc_apfloat::ieee::Double::from_u128(u as u128).value.to_bits() as u64
}

} // verus!
