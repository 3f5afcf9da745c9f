//! Numeric behaviour: transforms, conversions and the IEEE bit-level
//! predicates, checked against native floating point.  Each test would
//! fail if an arithmetic wrapper handed one of its arguments back
//! unchanged.

use pullcore::fbits::{f64_abs, f64_eq, f64_is_nan, f64_is_zero, f64_lt};
use pullcore::task::{apply_step, apply_transforms, TransformStep};
use pullcore::value::{raw_to_f64, raw_to_status, RawValue, Scalar};

fn fbits(x: f64) -> u64 {
    x.to_bits()
}

#[test]
fn multiply_and_divide_match_native_floats() {
    let r = apply_transforms(&vec![TransformStep::Multiply(fbits(2.0))], fbits(21.5));
    assert_eq!(r, Some(fbits(43.0)));
    let r = apply_transforms(&vec![TransformStep::Divide(fbits(4.0))], fbits(1.0));
    assert_eq!(r, Some(fbits(0.25)));
    // Chained steps apply in order.
    let r = apply_transforms(
        &vec![
            TransformStep::Multiply(fbits(3.0)),
            TransformStep::Divide(fbits(2.0)),
        ],
        fbits(7.0),
    );
    assert_eq!(r, Some(fbits(10.5)));
    // Division by zero follows IEEE: infinity, not an error.
    let r = apply_transforms(&vec![TransformStep::Divide(fbits(0.0))], fbits(1.0));
    assert_eq!(r, Some(fbits(f64::INFINITY)));
}

#[test]
fn invert_maps_zero_to_one() {
    assert_eq!(apply_step(&TransformStep::Invert, fbits(0.0)), Some(fbits(1.0)));
    assert_eq!(apply_step(&TransformStep::Invert, fbits(-0.0)), Some(fbits(1.0)));
    assert_eq!(apply_step(&TransformStep::Invert, fbits(5.0)), Some(fbits(0.0)));
    assert_eq!(apply_step(&TransformStep::Invert, fbits(f64::NAN)), Some(fbits(0.0)));
}

#[test]
fn round_matches_native_formula() {
    // Whole-number rounding: ties away from zero.
    assert_eq!(apply_step(&TransformStep::Round(0), fbits(2.5)), Some(fbits(2.5f64.round())));
    assert_eq!(apply_step(&TransformStep::Round(0), fbits(-2.5)), Some(fbits((-2.5f64).round())));
    // Decimal rounding follows the integral-plus-scaled-fraction
    // formula, computed here natively for comparison.
    let v: f64 = 2.345;
    let m: f64 = 100.0;
    let expected = v.round() + (v.fract() * m).round() / m;
    assert_eq!(apply_step(&TransformStep::Round(2), fbits(v)), Some(fbits(expected)));
    let v: f64 = -17.0625;
    let m: f64 = 10.0;
    let expected = v.round() + (v.fract() * m).round() / m;
    assert_eq!(apply_step(&TransformStep::Round(1), fbits(v)), Some(fbits(expected)));
}

#[test]
fn round_rejects_bad_digit_counts() {
    assert_eq!(apply_step(&TransformStep::Round(-1), fbits(1.5)), None);
    assert_eq!(apply_step(&TransformStep::Round(20), fbits(1.5)), None);
    assert_eq!(
        apply_transforms(
            &vec![TransformStep::Multiply(fbits(2.0)), TransformStep::Round(20)],
            fbits(1.5),
        ),
        None,
    );
}

#[test]
fn numeric_conversions() {
    // Integers convert to the nearest binary64 value.
    assert_eq!(raw_to_f64(&RawValue::Scalar(Scalar::Int(3))), Some(fbits(3.0)));
    assert_eq!(raw_to_f64(&RawValue::Scalar(Scalar::Int(-41))), Some(fbits(-41.0)));
    // A value too large to be exact rounds exactly as a native cast.
    let big: i64 = 9_007_199_254_740_993;
    assert_eq!(raw_to_f64(&RawValue::Scalar(Scalar::Int(big))), Some(fbits(big as f64)));
    // Booleans become one and zero; byte strings and arrays do not
    // convert.
    assert_eq!(raw_to_f64(&RawValue::Scalar(Scalar::Bool(true))), Some(fbits(1.0)));
    assert_eq!(raw_to_f64(&RawValue::Scalar(Scalar::Bool(false))), Some(fbits(0.0)));
    assert_eq!(raw_to_f64(&RawValue::Scalar(Scalar::Str(b"1.5".to_vec()))), None);
    assert_eq!(raw_to_f64(&RawValue::Array(vec![Scalar::Int(1)])), None);
}

#[test]
fn status_conversions() {
    assert_eq!(raw_to_status(&RawValue::Scalar(Scalar::Int(1))), Some(1));
    assert_eq!(raw_to_status(&RawValue::Scalar(Scalar::Int(-32768))), Some(-32768));
    assert_eq!(raw_to_status(&RawValue::Scalar(Scalar::Int(32768))), None);
    assert_eq!(raw_to_status(&RawValue::Scalar(Scalar::Bool(true))), Some(1));
    assert_eq!(raw_to_status(&RawValue::Scalar(Scalar::Bool(false))), Some(0));
    assert_eq!(raw_to_status(&RawValue::Scalar(Scalar::Float(fbits(1.0)))), None);
    assert_eq!(raw_to_status(&RawValue::Array(vec![])), None);
}

#[test]
fn ieee_predicates_match_native_semantics() {
    let cases: [f64; 8] = [0.0, -0.0, 1.5, -1.5, f64::INFINITY, f64::NEG_INFINITY, f64::NAN, 1.0e-310];
    for &a in cases.iter() {
        assert_eq!(f64_is_nan(fbits(a)), a.is_nan());
        assert_eq!(f64_is_zero(fbits(a)), a == 0.0);
        if !a.is_nan() {
            assert_eq!(f64_abs(fbits(a)), fbits(a.abs()));
        }
        for &b in cases.iter() {
            assert_eq!(f64_eq(fbits(a), fbits(b)), a == b, "eq {} {}", a, b);
            assert_eq!(f64_lt(fbits(a), fbits(b)), a < b, "lt {} {}", a, b);
        }
    }
}
