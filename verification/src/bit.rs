//! The atomic two-valued logic unit: [`Bit`], its gates, and the
//! carry-propagating full adder that multi-bit arithmetic is chained from.
use vstd::prelude::*;

verus! {

/// Represents one bit of information.
#[derive(Debug, Clone, Copy, PartialEq, Eq, Structural, PartialOrd, Ord, Hash, Default)]
pub enum Bit {
    /// Represents 0 or false.
    #[default]
    Zero,
    /// Represents 1 or true.
    One,
}

/// The numeric weight of a bit: `Zero` counts 0 and `One` counts 1.
pub open spec fn bit_int(b: Bit) -> int {
    if b is One {
        1
    } else {
        0
    }
}

/// Truth table of the `not` gate.
pub open spec fn spec_not(a: Bit) -> Bit {
    if a is One {
        Bit::Zero
    } else {
        Bit::One
    }
}

/// Truth table of the `and` gate.
pub open spec fn spec_and(a: Bit, b: Bit) -> Bit {
    if a is One && b is One {
        Bit::One
    } else {
        Bit::Zero
    }
}

/// Truth table of the `or` gate.
pub open spec fn spec_or(a: Bit, b: Bit) -> Bit {
    if a is One || b is One {
        Bit::One
    } else {
        Bit::Zero
    }
}

/// Truth table of the `xor` gate.
pub open spec fn spec_xor(a: Bit, b: Bit) -> Bit {
    if (a is One) != (b is One) {
        Bit::One
    } else {
        Bit::Zero
    }
}

/// Truth table of the `nand` gate: the negation of `and`.
pub open spec fn spec_nand(a: Bit, b: Bit) -> Bit {
    spec_not(spec_and(a, b))
}

impl Bit {
    /// Returns `true` if the bit is [`Zero`].
    ///
    /// [`Zero`]: Bit::Zero
    #[must_use]
    pub fn is_zero(&self) -> (r: bool)
        ensures
            r <==> *self is Zero,
    {
        matches!(self, Bit::Zero)
    }

    /// Returns `true` if the bit is [`One`].
    ///
    /// [`One`]: Bit::One
    #[must_use]
    pub fn is_one(&self) -> (r: bool)
        ensures
            r <==> *self is One,
    {
        matches!(self, Bit::One)
    }

    /// Returns the bit with its value inverted.
    pub fn not(self) -> (r: Bit)
        ensures
            r == spec_not(self),
    {
        match self {
            Bit::Zero => Bit::One,
            Bit::One => Bit::Zero,
        }
    }

    /// Returns 1 if both `self` and `other` are 1.
    pub fn and(self, other: Bit) -> (r: Bit)
        ensures
            r == spec_and(self, other),
    {
        match (self, other) {
            (Bit::One, Bit::One) => Bit::One,
            _ => Bit::Zero,
        }
    }

    /// Returns 1 if `self` and `other` aren't both 1.
    pub fn nand(self, other: Bit) -> (r: Bit)
        ensures
            r == spec_nand(self, other),
    {
        self.and(other).not()
    }

    /// Returns 1 if at least one of `self` and `other` is 1; built from
    /// `not` and `nand` alone to show that those two gates generate it.
    pub fn or(self, other: Bit) -> (r: Bit)
        ensures
            r == spec_or(self, other),
    {
        self.not().nand(other.not())
    }

    /// Returns 1 if exactly one of `self` and `other` is 1; built from the
    /// `or`, `and` and `nand` gates above.
    pub fn xor(self, other: Bit) -> (r: Bit)
        ensures
            r == spec_xor(self, other),
    {
        self.or(other).and(self.nand(other))
    }

    /// Replaces the bit with the `and` of itself and `rhs`.
    pub fn and_assign(&mut self, rhs: Bit)
        ensures
            *final(self) == spec_and(*old(self), rhs),
    {
        *self = self.and(rhs);
    }

    /// Replaces the bit with the `or` of itself and `rhs`.
    pub fn or_assign(&mut self, rhs: Bit)
        ensures
            *final(self) == spec_or(*old(self), rhs),
    {
        *self = self.or(rhs);
    }

    /// Replaces the bit with the `xor` of itself and `rhs`.
    pub fn xor_assign(&mut self, rhs: Bit)
        ensures
            *final(self) == spec_xor(*old(self), rhs),
    {
        *self = self.xor(rhs);
    }

    /// Adds two bits, with a carry-in and a carry-out bit.
    /// This allows adds to be chained together without panicking.
    ///
    /// The pair `(sum, carry_out)` is exactly the two-digit binary
    /// representation of `self + other + carry_in`.
    pub fn add(self, other: Bit, carry_in: Bit) -> (r: (Bit, Bit))
        ensures
            bit_int(r.0) + 2 * bit_int(r.1) == bit_int(self) + bit_int(other) + bit_int(carry_in),
            r.0 == spec_xor(spec_xor(self, other), carry_in),
    {
        let a = self.xor(other);
        let b = self.and(other);
        let c = a.and(carry_in);
        let sum = a.xor(carry_in);
        let carry_out = c.or(b);
        (sum, carry_out)
    }
}

impl Bit {
    /// Converts a boolean into a bit: `true` becomes `One`.
    pub fn from_bool(value: bool) -> (r: Bit)
        ensures
            r == (if value {
                Bit::One
            } else {
                Bit::Zero
            }),
    {
        if value {
            Bit::One
        } else {
            Bit::Zero
        }
    }

    /// The bit's numeric value as a `u8`: 0 or 1.
    pub fn to_u8(self) -> (r: u8)
        ensures
            r == bit_int(self),
    {
        match self {
            Bit::Zero => 0,
            Bit::One => 1,
        }
    }

    /// The bit's numeric value as a `u16`: 0 or 1.
    pub fn to_u16(self) -> (r: u16)
        ensures
            r == bit_int(self),
    {
        match self {
            Bit::Zero => 0,
            Bit::One => 1,
        }
    }

    /// The bit's numeric value as a `u32`: 0 or 1.
    pub fn to_u32(self) -> (r: u32)
        ensures
            r == bit_int(self),
    {
        match self {
            Bit::Zero => 0,
            Bit::One => 1,
        }
    }

    /// The bit's numeric value as a `u64`: 0 or 1.
    pub fn to_u64(self) -> (r: u64)
        ensures
            r == bit_int(self),
    {
        match self {
            Bit::Zero => 0,
            Bit::One => 1,
        }
    }

    /// The bit's numeric value as a `u128`: 0 or 1.
    pub fn to_u128(self) -> (r: u128)
        ensures
            r == bit_int(self),
    {
        match self {
            Bit::Zero => 0,
            Bit::One => 1,
        }
    }

    /// The bit's numeric value as a `usize`: 0 or 1.
    pub fn to_usize(self) -> (r: usize)
        ensures
            r == bit_int(self),
    {
        match self {
            Bit::Zero => 0,
            Bit::One => 1,
        }
    }

    /// The bit's numeric value as an `i8`: 0 or 1.
    pub fn to_i8(self) -> (r: i8)
        ensures
            r == bit_int(self),
    {
        match self {
            Bit::Zero => 0,
            Bit::One => 1,
        }
    }

    /// The bit's numeric value as an `i16`: 0 or 1.
    pub fn to_i16(self) -> (r: i16)
        ensures
            r == bit_int(self),
    {
        match self {
            Bit::Zero => 0,
            Bit::One => 1,
        }
    }

    /// The bit's numeric value as an `i32`: 0 or 1.
    pub fn to_i32(self) -> (r: i32)
        ensures
            r == bit_int(self),
    {
        match self {
            Bit::Zero => 0,
            Bit::One => 1,
        }
    }

    /// The bit's numeric value as an `i64`: 0 or 1.
    pub fn to_i64(self) -> (r: i64)
        ensures
            r == bit_int(self),
    {
        match self {
            Bit::Zero => 0,
            Bit::One => 1,
        }
    }

    /// The bit's numeric value as an `i128`: 0 or 1.
    pub fn to_i128(self) -> (r: i128)
        ensures
            r == bit_int(self),
    {
        match self {
            Bit::Zero => 0,
            Bit::One => 1,
        }
    }

    /// The bit's numeric value as an `isize`: 0 or 1.
    pub fn to_isize(self) -> (r: isize)
        ensures
            r == bit_int(self),
    {
        match self {
            Bit::Zero => 0,
            Bit::One => 1,
        }
    }

    /// The character the bit renders as: `0` or `1`.
    pub fn as_str(self) -> (r: &'static str)
        ensures
            self is Zero ==> r@ == "0"@,
            self is One ==> r@ == "1"@,
    {
        match self {
            Bit::Zero => "0",
            Bit::One => "1",
        }
    }
}

/// Law: the `or` gate is derivable from `not` and `nand` alone:
/// `or(a, b)` equals `nand(not(a), not(b))` for every pair of bits.
pub proof fn lemma_or_from_nand(a: Bit, b: Bit)
    ensures
        spec_or(a, b) == spec_nand(spec_not(a), spec_not(b)),
{
}

/// Law: the `xor` gate is derivable from `or`, `and` and `nand`:
/// `xor(a, b)` equals `and(or(a, b), nand(a, b))` for every pair of bits.
pub proof fn lemma_xor_from_or_and_nand(a: Bit, b: Bit)
    ensures
        spec_xor(a, b) == spec_and(spec_or(a, b), spec_nand(a, b)),
{
}

} // verus!
