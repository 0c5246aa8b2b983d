//! A 3-bit floating-point format: one sign bit, one exponent bit and one
//! mantissa bit, giving eight patterns that stand for plus or minus zero,
//! one, infinity and NaN. The core is the lossy classification of a native
//! floating-point value into those eight buckets and the exact table back.
use vstd::prelude::*;

verus! {

use crate::bit::{Bit, spec_not};

/// A 3-bit floating point number.
/// The equation for the value of a float is (sign * mantissa * (2 ^ expontent))
#[allow(non_camel_case_types)]
#[derive(Debug, Clone, Copy)]
pub struct f3 {
    /// Denotes whether the number is positive (0 means positive, 1 means negative)
    pub sign: Bit,
    /// Modifies the magnitude of the number
    pub exponent: Bit,
    /// Fractional part of the float
    pub mantissa: Bit,
}

/// What a native floating-point value is, as far as the 3-bit format can
/// tell its inputs apart: the exact points of the format, the two infinities,
/// NaN with its sign bit, and the remaining finite ranges.
#[derive(Debug, Clone, Copy, PartialEq, Eq, Structural)]
pub enum FloatValue {
    /// Positive zero.
    PosZero,
    /// Negative zero, told apart from positive zero by its sign bit.
    NegZero,
    /// Exactly one.
    PosOne,
    /// Exactly minus one.
    NegOne,
    /// Positive infinity.
    PosInfinity,
    /// Negative infinity.
    NegInfinity,
    /// Not a number; `negative` is the sign bit of the payload.
    Nan {
        /// Whether the sign bit of the NaN payload is set.
        negative: bool,
    },
    /// A finite value strictly greater than one.
    FiniteAboveOne,
    /// A finite value strictly less than minus one.
    FiniteBelowNegOne,
    /// A finite value strictly between minus one and one that is not a
    /// zero; `negative` is its sign bit.
    FiniteFraction {
        /// Whether the sign bit of the value is set.
        negative: bool,
    },
}

/// The pattern for positive zero: all three bits clear.
pub open spec fn spec_pos_zero() -> f3 {
    f3 { sign: Bit::Zero, exponent: Bit::Zero, mantissa: Bit::Zero }
}

/// The pattern for positive one.
pub open spec fn spec_pos_one() -> f3 {
    f3 { sign: Bit::Zero, exponent: Bit::Zero, mantissa: Bit::One }
}

/// The pattern for positive infinity.
pub open spec fn spec_pos_infinity() -> f3 {
    f3 { sign: Bit::Zero, exponent: Bit::One, mantissa: Bit::Zero }
}

/// The pattern for the positive NaN bucket.
pub open spec fn spec_pos_nan() -> f3 {
    f3 { sign: Bit::Zero, exponent: Bit::One, mantissa: Bit::One }
}

/// The pattern for negative zero.
pub open spec fn spec_neg_zero() -> f3 {
    f3 { sign: Bit::One, exponent: Bit::Zero, mantissa: Bit::Zero }
}

/// The pattern for negative one.
pub open spec fn spec_neg_one() -> f3 {
    f3 { sign: Bit::One, exponent: Bit::Zero, mantissa: Bit::One }
}

/// The pattern for negative infinity.
pub open spec fn spec_neg_infinity() -> f3 {
    f3 { sign: Bit::One, exponent: Bit::One, mantissa: Bit::Zero }
}

/// The pattern for the negative NaN bucket.
pub open spec fn spec_neg_nan() -> f3 {
    f3 { sign: Bit::One, exponent: Bit::One, mantissa: Bit::One }
}

/// A pattern denotes NaN exactly when both the exponent and the mantissa
/// bit are set.
pub open spec fn spec_is_nan(v: f3) -> bool {
    v.exponent is One && v.mantissa is One
}

/// A pattern denotes a (signed) zero exactly when both the exponent and the
/// mantissa bit are clear.
pub open spec fn spec_is_zero(v: f3) -> bool {
    v.exponent is Zero && v.mantissa is Zero
}

/// Equality over the eight-member value set: two patterns are equal when
/// neither is NaN and they are the same pattern, except that the two signed
/// zeros compare equal to each other. Both NaN buckets compare unequal to
/// everything, themselves included, mirroring native float behaviour.
pub open spec fn spec_f3_eq(a: f3, b: f3) -> bool {
    &&& !spec_is_nan(a)
    &&& !spec_is_nan(b)
    &&& (a == b || (spec_is_zero(a) && spec_is_zero(b)))
}

/// The classification of a native value into the eight buckets, applied in
/// the priority order of the format: the infinities, the signed zeros and
/// the exact ones map to their own patterns; any other finite value beyond
/// one saturates to the infinity of its side; everything else (NaN, or a
/// finite value strictly inside (-1, 1)) falls into the NaN bucket of its
/// sign bit.
pub open spec fn spec_decode(value: FloatValue) -> f3 {
    match value {
        FloatValue::PosInfinity => spec_pos_infinity(),
        FloatValue::NegInfinity => spec_neg_infinity(),
        FloatValue::PosZero => spec_pos_zero(),
        FloatValue::NegZero => spec_neg_zero(),
        FloatValue::PosOne => spec_pos_one(),
        FloatValue::NegOne => spec_neg_one(),
        FloatValue::FiniteAboveOne => spec_pos_infinity(),
        FloatValue::FiniteBelowNegOne => spec_neg_infinity(),
        FloatValue::Nan { negative } => if negative {
            spec_neg_nan()
        } else {
            spec_pos_nan()
        },
        FloatValue::FiniteFraction { negative } => if negative {
            spec_neg_nan()
        } else {
            spec_pos_nan()
        },
    }
}

/// The exact native value of each of the eight patterns: the inverse table
/// of the classification on the representable points.
pub open spec fn spec_encode(v: f3) -> FloatValue {
    if spec_is_nan(v) {
        FloatValue::Nan { negative: v.sign is One }
    } else if spec_is_zero(v) {
        if v.sign is One {
            FloatValue::NegZero
        } else {
            FloatValue::PosZero
        }
    } else if v.exponent is Zero {
        if v.sign is One {
            FloatValue::NegOne
        } else {
            FloatValue::PosOne
        }
    } else {
        if v.sign is One {
            FloatValue::NegInfinity
        } else {
            FloatValue::PosInfinity
        }
    }
}

impl f3 {
    /// Builds a pattern from its three bits.
    pub fn new(sign: Bit, exponent: Bit, mantissa: Bit) -> (r: f3)
        ensures
            r == (f3 { sign, exponent, mantissa }),
    {
        f3 { sign, exponent, mantissa }
    }

    /// The positive zero constant.
    pub fn pos_zero() -> (r: f3)
        ensures
            r == spec_pos_zero(),
    {
        f3 { sign: Bit::Zero, exponent: Bit::Zero, mantissa: Bit::Zero }
    }

    /// The positive one constant.
    pub fn pos_one() -> (r: f3)
        ensures
            r == spec_pos_one(),
    {
        f3 { sign: Bit::Zero, exponent: Bit::Zero, mantissa: Bit::One }
    }

    /// The positive infinity constant.
    pub fn pos_infinity() -> (r: f3)
        ensures
            r == spec_pos_infinity(),
    {
        f3 { sign: Bit::Zero, exponent: Bit::One, mantissa: Bit::Zero }
    }

    /// The positive NaN constant.
    pub fn pos_nan() -> (r: f3)
        ensures
            r == spec_pos_nan(),
    {
        f3 { sign: Bit::Zero, exponent: Bit::One, mantissa: Bit::One }
    }

    /// The negative zero constant.
    pub fn neg_zero() -> (r: f3)
        ensures
            r == spec_neg_zero(),
    {
        f3 { sign: Bit::One, exponent: Bit::Zero, mantissa: Bit::Zero }
    }

    /// The negative one constant.
    pub fn neg_one() -> (r: f3)
        ensures
            r == spec_neg_one(),
    {
        f3 { sign: Bit::One, exponent: Bit::Zero, mantissa: Bit::One }
    }

    /// The negative infinity constant.
    pub fn neg_infinity() -> (r: f3)
        ensures
            r == spec_neg_infinity(),
    {
        f3 { sign: Bit::One, exponent: Bit::One, mantissa: Bit::Zero }
    }

    /// The negative NaN constant.
    pub fn neg_nan() -> (r: f3)
        ensures
            r == spec_neg_nan(),
    {
        f3 { sign: Bit::One, exponent: Bit::One, mantissa: Bit::One }
    }

    /// The multiplicative identity of the format: positive one.
    pub fn one() -> (r: f3)
        ensures
            r == spec_pos_one(),
    {
        f3::pos_one()
    }

    /// The additive identity of the format: positive zero.
    pub fn zero() -> (r: f3)
        ensures
            r == spec_pos_zero(),
    {
        f3::pos_zero()
    }

    /// Whether the pattern denotes a zero of either sign.
    pub fn is_zero(&self) -> (r: bool)
        ensures
            r <==> spec_is_zero(*self),
    {
        self.exponent.is_zero() && self.mantissa.is_zero()
    }

    /// Whether the pattern denotes NaN of either sign.
    pub fn is_nan(&self) -> (r: bool)
        ensures
            r <==> spec_is_nan(*self),
    {
        self.exponent.is_one() && self.mantissa.is_one()
    }

    /// Flips only the sign bit. On NaN this changes which NaN bucket the
    /// value lands in; on every other pattern it is exact negation.
    pub fn neg(self) -> (r: f3)
        ensures
            r.sign == spec_not(self.sign),
            r.exponent == self.exponent,
            r.mantissa == self.mantissa,
    {
        f3 { sign: self.sign.not(), exponent: self.exponent, mantissa: self.mantissa }
    }

    /// Classifies a native floating-point value into the nearest of the
    /// eight patterns; values beyond one saturate to an infinity, NaN and
    /// fractions collapse into a NaN bucket.
    pub fn decode(value: FloatValue) -> (r: f3)
        ensures
            r == spec_decode(value),
    {
        match value {
            FloatValue::PosInfinity => f3::pos_infinity(),
            FloatValue::NegInfinity => f3::neg_infinity(),
            FloatValue::PosZero => f3::pos_zero(),
            FloatValue::NegZero => f3::neg_zero(),
            FloatValue::PosOne => f3::pos_one(),
            FloatValue::NegOne => f3::neg_one(),
            FloatValue::FiniteAboveOne => f3::pos_infinity(),
            FloatValue::FiniteBelowNegOne => f3::neg_infinity(),
            FloatValue::Nan { negative } => if negative {
                f3::neg_nan()
            } else {
                f3::pos_nan()
            },
            FloatValue::FiniteFraction { negative } => if negative {
                f3::neg_nan()
            } else {
                f3::pos_nan()
            },
        }
    }

    /// The exact native value of the pattern: the inverse table lookup over
    /// the eight constants. The NaN buckets map to NaN payloads carrying
    /// their sign.
    pub fn encode(self) -> (r: FloatValue)
        ensures
            r == spec_encode(self),
    {
        if self.is_nan() {
            FloatValue::Nan { negative: self.sign.is_one() }
        } else if self.is_zero() {
            if self.sign.is_one() {
                FloatValue::NegZero
            } else {
                FloatValue::PosZero
            }
        } else if self.exponent.is_zero() {
            if self.sign.is_one() {
                FloatValue::NegOne
            } else {
                FloatValue::PosOne
            }
        } else {
            if self.sign.is_one() {
                FloatValue::NegInfinity
            } else {
                FloatValue::PosInfinity
            }
        }
    }
}

impl PartialEq for f3 {
    /// Bucketed equality: equal exactly when the two patterns denote the
    /// same member of the eight-element value set, where the two signed
    /// zeros coincide and the NaN buckets equal nothing, not even
    /// themselves.
    fn eq(&self, other: &Self) -> (r: bool) {
        !self.is_nan() && !other.is_nan() && ((self.sign == other.sign && self.exponent
            == other.exponent && self.mantissa == other.mantissa) || (self.is_zero()
            && other.is_zero()))
    }
}

impl vstd::std_specs::cmp::PartialEqSpecImpl for f3 {
    open spec fn obeys_eq_spec() -> bool {
        true
    }

    open spec fn eq_spec(&self, other: &f3) -> bool {
        spec_f3_eq(*self, *other)
    }
}

/// Law: every pattern that is not NaN survives the round trip through its
/// exact native value and the classification back; a NaN pattern comes back
/// as a NaN pattern with the same sign bit.
pub proof fn lemma_tinyfloat_round_trip(v: f3)
    ensures
        !spec_is_nan(v) ==> spec_decode(spec_encode(v)) == v,
        spec_is_nan(v) ==> spec_is_nan(spec_decode(spec_encode(v))) && spec_decode(
            spec_encode(v),
        ).sign == v.sign,
{
}

} // verus!
