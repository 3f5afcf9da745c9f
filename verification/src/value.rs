//! Raw point readings as the pipeline sees them.
//!
//! A reading delivered by the device is either a single scalar or a flat
//! array of scalars.  Floating-point payloads are carried as binary64 bit
//! patterns.  Every contract speaks of the mathematical model of a
//! reading (`ScalarModel`, `RawModel`), reached through `@`.  This module
//! defines the conversions the pipeline branches on — to a floating-point
//! number for transforms and delta comparison, to a status code for
//! status writes — and structural value equality with IEEE semantics for
//! floating-point payloads.
//!
//! The convertible sets are deliberately narrow.  A status code comes
//! only from an integer in status range or a boolean: a floating-point
//! or byte-string reading written to the status property degrades to
//! the error status rather than converting.  Only integers,
//! floating-point payloads and booleans convert to numbers: a numeric
//! byte string is not parsed, so under a transform or a delta
//! comparison it counts as non-numeric.  Equality never crosses
//! variants — an integer and the floating-point value of the same
//! magnitude are different readings, so a reading whose variant changes
//! between cycles counts as changed and is republished.

use vstd::assert_by_contradiction;
use vstd::prelude::*;

use crate::fbits::{f64_eq, f64_eq_bits, f_of_i64, F64_ONE, F64_ZERO};
use crate::fbits::i64_to_bits;

verus! {

/// One scalar payload: a signed integer, a binary64 bit pattern, a boolean
/// or a byte string.
pub enum Scalar {
    Int(i64),
    Float(u64),
    Bool(bool),
    Str(Vec<u8>),
}

/// One raw reading: a single scalar or a flat array of scalars.
pub enum RawValue {
    Scalar(Scalar),
    Array(Vec<Scalar>),
}

/// The mathematical model of a scalar payload.
pub enum ScalarModel {
    Int(i64),
    Float(u64),
    Bool(bool),
    Str(Seq<u8>),
}

/// The mathematical model of a raw reading.
pub enum RawModel {
    Scalar(ScalarModel),
    Array(Seq<ScalarModel>),
}

impl View for Scalar {
    type V = ScalarModel;

    open spec fn view(&self) -> ScalarModel {
        match self {
            Scalar::Int(i) => ScalarModel::Int(*i),
            Scalar::Float(b) => ScalarModel::Float(*b),
            Scalar::Bool(v) => ScalarModel::Bool(*v),
            Scalar::Str(bytes) => ScalarModel::Str(bytes@),
        }
    }
}

/// The models of the elements of an array of scalars.
pub open spec fn scalars_view(v: Seq<Scalar>) -> Seq<ScalarModel> {
    v.map_values(|s: Scalar| s@)
}

impl View for RawValue {
    type V = RawModel;

    open spec fn view(&self) -> RawModel {
        match self {
            RawValue::Scalar(s) => RawModel::Scalar(s@),
            RawValue::Array(items) => RawModel::Array(scalars_view(items@)),
        }
    }
}

/// The floating-point bit pattern a scalar converts to, if any: integers
/// round to the nearest binary64 value, booleans become one or zero, byte
/// strings do not convert.
pub open spec fn scalar_to_f64_spec(s: ScalarModel) -> Option<u64> {
    match s {
        ScalarModel::Int(i) => Some(f_of_i64(i)),
        ScalarModel::Float(b) => Some(b),
        ScalarModel::Bool(v) => Some(if v { F64_ONE } else { F64_ZERO }),
        ScalarModel::Str(_) => None,
    }
}

/// The floating-point bit pattern a raw reading converts to, if any;
/// arrays do not convert.
pub open spec fn raw_to_f64_spec(v: RawModel) -> Option<u64> {
    match v {
        RawModel::Scalar(s) => scalar_to_f64_spec(s),
        RawModel::Array(_) => None,
    }
}

/// The status code a raw reading converts to, if any: an integer in status
/// range stands for itself, a boolean for one or zero; everything else
/// does not convert.
pub open spec fn raw_to_status_spec(v: RawModel) -> Option<i16> {
    match v {
        RawModel::Scalar(ScalarModel::Int(i)) => if -32768 <= i && i <= 32767 {
            Some(i as i16)
        } else {
            None
        },
        RawModel::Scalar(ScalarModel::Bool(b)) => Some(if b { 1i16 } else { 0i16 }),
        _ => None,
    }
}

/// Scalar equality: like variants compare their payloads, floating-point
/// payloads by IEEE equality, unlike variants never compare equal.
pub open spec fn scalar_eq_spec(a: ScalarModel, b: ScalarModel) -> bool {
    match (a, b) {
        (ScalarModel::Int(x), ScalarModel::Int(y)) => x == y,
        (ScalarModel::Float(x), ScalarModel::Float(y)) => f64_eq_bits(x, y),
        (ScalarModel::Bool(x), ScalarModel::Bool(y)) => x == y,
        (ScalarModel::Str(x), ScalarModel::Str(y)) => x == y,
        _ => false,
    }
}

/// Reading equality: scalars compare as scalars, arrays element-wise,
/// a scalar and an array never compare equal.
pub open spec fn value_eq_spec(a: RawModel, b: RawModel) -> bool {
    match (a, b) {
        (RawModel::Scalar(x), RawModel::Scalar(y)) => scalar_eq_spec(x, y),
        (RawModel::Array(x), RawModel::Array(y)) => {
            &&& x.len() == y.len()
            &&& forall|i: int| 0 <= i < x.len() ==> #[trigger] scalar_eq_spec(x[i], y[i])
        },
        _ => false,
    }
}

/// Equal arrays are equal element by element.
proof fn lemma_array_eq_elem(s: Seq<ScalarModel>, t: Seq<ScalarModel>, i: int)
    requires
        value_eq_spec(RawModel::Array(s), RawModel::Array(t)),
        0 <= i < s.len(),
    ensures
        scalar_eq_spec(s[i], t[i]),
{
}

/// Converts a raw reading to a floating-point bit pattern.
pub fn raw_to_f64(v: &RawValue) -> (r: Option<u64>)
    ensures
        r == raw_to_f64_spec(v@),
{
    match v {
        RawValue::Scalar(Scalar::Int(i)) => Some(i64_to_bits(*i)),
        RawValue::Scalar(Scalar::Float(b)) => Some(*b),
        RawValue::Scalar(Scalar::Bool(v)) => Some(if *v { F64_ONE } else { F64_ZERO }),
        RawValue::Scalar(Scalar::Str(_)) => None,
        RawValue::Array(_) => None,
    }
}

/// Converts a raw reading to a status code.
pub fn raw_to_status(v: &RawValue) -> (r: Option<i16>)
    ensures
        r == raw_to_status_spec(v@),
{
    match v {
        RawValue::Scalar(Scalar::Int(i)) => if -32768 <= *i && *i <= 32767 {
            Some(*i as i16)
        } else {
            None
        },
        RawValue::Scalar(Scalar::Bool(b)) => Some(if *b { 1i16 } else { 0i16 }),
        _ => None,
    }
}

/// Byte-string equality.
fn bytes_eq(a: &Vec<u8>, b: &Vec<u8>) -> (r: bool)
    ensures
        r == (a@ == b@),
{
    if a.len() != b.len() {
        proof {
            assert(a@ != b@);
        }
        return false;
    }
    let mut i: usize = 0;
    while i < a.len()
        invariant
            0 <= i <= a@.len(),
            a@.len() == b@.len(),
            forall|j: int| 0 <= j < i ==> a@[j] == b@[j],
        decreases a@.len() - i,
    {
        if a[i] != b[i] {
            return false;
        }
        i += 1;
    }
    proof {
        assert(a@ =~= b@);
    }
    true
}

/// Decides scalar equality.
pub fn scalar_eq(a: &Scalar, b: &Scalar) -> (r: bool)
    ensures
        r == scalar_eq_spec(a@, b@),
{
    match (a, b) {
        (Scalar::Int(x), Scalar::Int(y)) => x == y,
        (Scalar::Float(x), Scalar::Float(y)) => f64_eq(*x, *y),
        (Scalar::Bool(x), Scalar::Bool(y)) => x == y,
        (Scalar::Str(x), Scalar::Str(y)) => bytes_eq(x, y),
        _ => false,
    }
}

/// Decides reading equality.
pub fn value_eq(a: &RawValue, b: &RawValue) -> (r: bool)
    ensures
        r == value_eq_spec(a@, b@),
{
    match (a, b) {
        (RawValue::Scalar(x), RawValue::Scalar(y)) => scalar_eq(x, y),
        (RawValue::Array(x), RawValue::Array(y)) => {
            proof {
                assert(a@ == RawModel::Array(scalars_view(x@)));
                assert(b@ == RawModel::Array(scalars_view(y@)));
                assert(scalars_view(x@).len() == x@.len());
                assert(scalars_view(y@).len() == y@.len());
            }
            if x.len() != y.len() {
                return false;
            }
            let mut i: usize = 0;
            while i < x.len()
                invariant
                    0 <= i <= x@.len(),
                    x@.len() == y@.len(),
                    a@ == RawModel::Array(scalars_view(x@)),
                    b@ == RawModel::Array(scalars_view(y@)),
                    forall|j: int| 0 <= j < i ==> scalar_eq_spec(#[trigger] x@[j]@, y@[j]@),
                decreases x@.len() - i,
            {
                if !scalar_eq(&x[i], &y[i]) {
                    proof {
                        assert(scalars_view(x@)[i as int] == x@[i as int]@);
                        assert(scalars_view(y@)[i as int] == y@[i as int]@);
                        assert(!scalar_eq_spec(scalars_view(x@)[i as int], scalars_view(y@)[i as int]));
                        assert_by_contradiction!(!value_eq_spec(a@, b@), {
                            lemma_array_eq_elem(scalars_view(x@), scalars_view(y@), i as int);
                        });
                    }
                    return false;
                }
                i += 1;
            }
            proof {
                assert forall|j: int| 0 <= j < scalars_view(x@).len() implies scalar_eq_spec(
                    #[trigger] scalars_view(x@)[j],
                    scalars_view(y@)[j],
                ) by {
                    assert(scalars_view(x@)[j] == x@[j]@);
                    assert(scalars_view(y@)[j] == y@[j]@);
                }
            }
            true
        },
        _ => false,
    }
}

/// Copies a scalar.
pub fn copy_scalar(s: &Scalar) -> (r: Scalar)
    ensures
        r@ == s@,
{
    match s {
        Scalar::Int(i) => Scalar::Int(*i),
        Scalar::Float(b) => Scalar::Float(*b),
        Scalar::Bool(v) => Scalar::Bool(*v),
        Scalar::Str(bytes) => {
            let mut out: Vec<u8> = Vec::new();
            let mut i: usize = 0;
            while i < bytes.len()
                invariant
                    0 <= i <= bytes@.len(),
                    out@ == bytes@.subrange(0, i as int),
                decreases bytes@.len() - i,
            {
                let x = bytes[i];
                out.push(x);
                proof {
                    assert(out@ =~= bytes@.subrange(0, i + 1 as int));
                }
                i += 1;
            }
            proof {
                assert(out@ =~= bytes@);
            }
            Scalar::Str(out)
        },
    }
}

/// Copies a raw reading.
pub fn copy_raw(v: &RawValue) -> (r: RawValue)
    ensures
        r@ == v@,
{
    match v {
        RawValue::Scalar(s) => RawValue::Scalar(copy_scalar(s)),
        RawValue::Array(items) => {
            let mut out: Vec<Scalar> = Vec::new();
            let mut i: usize = 0;
            while i < items.len()
                invariant
                    0 <= i <= items@.len(),
                    out@.len() == i,
                    forall|j: int| 0 <= j < i ==> #[trigger] out@[j]@ == items@[j]@,
                decreases items@.len() - i,
            {
                let x = copy_scalar(&items[i]);
                out.push(x);
                i += 1;
            }
            proof {
                assert forall|j: int| 0 <= j < items@.len() implies scalars_view(out@)[j]
                    == scalars_view(items@)[j] by {
                    assert(scalars_view(out@)[j] == out@[j]@);
                    assert(scalars_view(items@)[j] == items@[j]@);
                }
                assert(scalars_view(out@) =~= scalars_view(items@));
            }
            RawValue::Array(out)
        },
    }
}

} // verus!
