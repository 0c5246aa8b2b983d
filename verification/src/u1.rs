//! An unsigned 1-bit integer with wraparound-free arithmetic: any operation
//! whose mathematical result does not fit reports an explicit error kind
//! instead of silently producing a wrong answer.
use vstd::prelude::*;

verus! {

/// Why a 1-bit arithmetic operation could not produce a result.
#[derive(Debug, Clone, Copy, PartialEq, Eq, Structural)]
pub enum ArithError {
    /// The mathematical result is above the largest representable value.
    Overflow,
    /// The mathematical result is below zero.
    Underflow,
    /// The divisor (or modulus) is zero.
    DivideByZero,
}

/// Unsigned 1-bit Integer (a bit)
#[allow(non_camel_case_types)]
#[derive(Debug, Clone, Copy, PartialEq, Eq, Structural, PartialOrd, Ord, Hash, Default)]
pub struct u1(pub bool);

/// The numeric value of a `u1`: 0 or 1.
pub open spec fn u1_int(v: u1) -> int {
    if v.0 {
        1
    } else {
        0
    }
}

impl u1 {
    /// Builds a `u1` from a boolean: `true` becomes 1.
    pub fn from_bool(value: bool) -> (r: u1)
        ensures
            r == u1(value),
    {
        u1(value)
    }

    /// The value 0.
    pub fn zero() -> (r: u1)
        ensures
            r == u1(false),
    {
        u1(false)
    }

    /// The value 1.
    pub fn one() -> (r: u1)
        ensures
            r == u1(true),
    {
        u1(true)
    }

    /// Returns `true` if the value is 0.
    pub fn is_zero(&self) -> (r: bool)
        ensures
            r <==> !self.0,
    {
        !self.0
    }

    /// Bitwise and: 1 exactly when both operands are 1.
    pub fn and(self, rhs: u1) -> (r: u1)
        ensures
            r.0 == (self.0 && rhs.0),
    {
        u1(self.0 && rhs.0)
    }

    /// Bitwise or: 1 exactly when at least one operand is 1.
    pub fn or(self, rhs: u1) -> (r: u1)
        ensures
            r.0 == (self.0 || rhs.0),
    {
        u1(self.0 || rhs.0)
    }

    /// Bitwise exclusive or: 1 exactly when the operands differ.
    pub fn xor(self, rhs: u1) -> (r: u1)
        ensures
            r.0 == (self.0 != rhs.0),
    {
        u1(self.0 != rhs.0)
    }

    /// Bitwise negation.
    pub fn not(self) -> (r: u1)
        ensures
            r.0 == !self.0,
    {
        u1(!self.0)
    }

    /// Checked addition: `1 + 1` does not fit in one bit and reports
    /// [`ArithError::Overflow`]; every other sum is returned exactly.
    pub fn add(self, rhs: u1) -> (r: Result<u1, ArithError>)
        ensures
            self.0 && rhs.0 ==> r == Err::<u1, ArithError>(ArithError::Overflow),
            !(self.0 && rhs.0) ==> r == Ok::<u1, ArithError>(u1(self.0 || rhs.0)),
            r matches Ok(s) ==> u1_int(s) == u1_int(self) + u1_int(rhs),
    {
        if self.0 && rhs.0 {
            Err(ArithError::Overflow)
        } else {
            Ok(u1(self.0 || rhs.0))
        }
    }

    /// Checked subtraction: `0 - 1` is below zero and reports
    /// [`ArithError::Underflow`]; every other difference is returned
    /// exactly.
    pub fn sub(self, rhs: u1) -> (r: Result<u1, ArithError>)
        ensures
            !self.0 && rhs.0 ==> r == Err::<u1, ArithError>(ArithError::Underflow),
            !(!self.0 && rhs.0) ==> r == Ok::<u1, ArithError>(u1(self.0 && !rhs.0)),
            r matches Ok(d) ==> u1_int(d) == u1_int(self) - u1_int(rhs),
    {
        if !self.0 && rhs.0 {
            Err(ArithError::Underflow)
        } else {
            Ok(u1(self.0 && !rhs.0))
        }
    }

    /// Multiplication, which always fits in one bit: 1 exactly when both
    /// operands are 1.
    pub fn mul(self, rhs: u1) -> (r: u1)
        ensures
            r.0 == (self.0 && rhs.0),
            u1_int(r) == u1_int(self) * u1_int(rhs),
    {
        u1(self.0 && rhs.0)
    }

    /// Checked division: dividing by zero reports
    /// [`ArithError::DivideByZero`]; dividing by 1 returns the dividend.
    pub fn div(self, rhs: u1) -> (r: Result<u1, ArithError>)
        ensures
            !rhs.0 ==> r == Err::<u1, ArithError>(ArithError::DivideByZero),
            rhs.0 ==> r == Ok::<u1, ArithError>(self),
            r matches Ok(q) ==> u1_int(q) == u1_int(self) / u1_int(rhs),
    {
        if !rhs.0 {
            Err(ArithError::DivideByZero)
        } else {
            Ok(self)
        }
    }

    /// Checked remainder: a modulus of zero reports
    /// [`ArithError::DivideByZero`]; any remainder modulo 1 is 0.
    pub fn rem(self, rhs: u1) -> (r: Result<u1, ArithError>)
        ensures
            !rhs.0 ==> r == Err::<u1, ArithError>(ArithError::DivideByZero),
            rhs.0 ==> r == Ok::<u1, ArithError>(u1(false)),
            r matches Ok(m) ==> u1_int(m) == u1_int(self) % u1_int(rhs),
    {
        if !rhs.0 {
            Err(ArithError::DivideByZero)
        } else {
            Ok(u1(false))
        }
    }

    /// The value as a `u8`: 0 or 1.
    pub fn to_u8(self) -> (r: u8)
        ensures
            r == u1_int(self),
    {
        if self.0 {
            1
        } else {
            0
        }
    }

    /// The value as a `u16`: 0 or 1.
    pub fn to_u16(self) -> (r: u16)
        ensures
            r == u1_int(self),
    {
        if self.0 {
            1
        } else {
            0
        }
    }

    /// The value as a `u32`: 0 or 1.
    pub fn to_u32(self) -> (r: u32)
        ensures
            r == u1_int(self),
    {
        if self.0 {
            1
        } else {
            0
        }
    }

    /// The value as a `u64`: 0 or 1.
    pub fn to_u64(self) -> (r: u64)
        ensures
            r == u1_int(self),
    {
        if self.0 {
            1
        } else {
            0
        }
    }

    /// The value as a `u128`: 0 or 1.
    pub fn to_u128(self) -> (r: u128)
        ensures
            r == u1_int(self),
    {
        if self.0 {
            1
        } else {
            0
        }
    }

    /// The value as a `usize`: 0 or 1.
    pub fn to_usize(self) -> (r: usize)
        ensures
            r == u1_int(self),
    {
        if self.0 {
            1
        } else {
            0
        }
    }

    /// The value as an `i8`: 0 or 1.
    pub fn to_i8(self) -> (r: i8)
        ensures
            r == u1_int(self),
    {
        if self.0 {
            1
        } else {
            0
        }
    }

    /// The value as an `i16`: 0 or 1.
    pub fn to_i16(self) -> (r: i16)
        ensures
            r == u1_int(self),
    {
        if self.0 {
            1
        } else {
            0
        }
    }

    /// The value as an `i32`: 0 or 1.
    pub fn to_i32(self) -> (r: i32)
        ensures
            r == u1_int(self),
    {
        if self.0 {
            1
        } else {
            0
        }
    }

    /// The value as an `i64`: 0 or 1.
    pub fn to_i64(self) -> (r: i64)
        ensures
            r == u1_int(self),
    {
        if self.0 {
            1
        } else {
            0
        }
    }

    /// The value as an `i128`: 0 or 1.
    pub fn to_i128(self) -> (r: i128)
        ensures
            r == u1_int(self),
    {
        if self.0 {
            1
        } else {
            0
        }
    }

    /// The value as an `isize`: 0 or 1.
    pub fn to_isize(self) -> (r: isize)
        ensures
            r == u1_int(self),
    {
        if self.0 {
            1
        } else {
            0
        }
    }

    /// The character the value renders as: `0` or `1`.
    pub fn as_str(self) -> (r: &'static str)
        ensures
            self.0 ==> r@ == "1"@,
            !self.0 ==> r@ == "0"@,
    {
        if self.0 {
            "1"
        } else {
            "0"
        }
    }
}

} // verus!
