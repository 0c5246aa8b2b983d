//! A fixed 4-bit two's-complement signed integer built from [`Bit`]s, with
//! ripple-carry addition and subtraction by complement.
use vstd::prelude::*;

verus! {

use crate::bit::{Bit, bit_int, spec_not};

/// Half a byte, or 4 Bits, read as a two's-complement signed integer in
/// the range `[-8, 7]`. Field `b0` is the most significant (sign-bearing)
/// bit; `b3` is the least significant.
#[derive(Debug, Clone, Copy, PartialEq, Eq, Structural)]
pub struct Nibble {
    /// Most significant bit, with weight -8.
    pub b0: Bit,
    /// Bit with weight 4.
    pub b1: Bit,
    /// Bit with weight 2.
    pub b2: Bit,
    /// Least significant bit, with weight 1.
    pub b3: Bit,
}

/// The unsigned reading of a nibble's bits: `8*b0 + 4*b1 + 2*b2 + b3`,
/// in the range `[0, 16)`.
pub open spec fn nibble_uint(n: Nibble) -> int {
    8 * bit_int(n.b0) + 4 * bit_int(n.b1) + 2 * bit_int(n.b2) + bit_int(n.b3)
}

/// The two's-complement signed reading of a nibble's bits:
/// `-8*b0 + 4*b1 + 2*b2 + b3`, in the range `[-8, 7]`.
pub open spec fn nibble_int(n: Nibble) -> int {
    -8 * bit_int(n.b0) + 4 * bit_int(n.b1) + 2 * bit_int(n.b2) + bit_int(n.b3)
}

/// Wraps an integer into the nibble range `[-8, 7]`, keeping its residue
/// modulo 16: the value a 4-bit two's-complement register holds after an
/// operation whose mathematical result is `v`.
pub open spec fn wrap_to_nibble(v: int) -> int {
    ((v + 8) % 16) - 8
}

/// The nibble whose unsigned reading is `u % 16`.
pub open spec fn nibble_of_uint(u: int) -> Nibble {
    Nibble {
        b0: if u % 16 >= 8 {
            Bit::One
        } else {
            Bit::Zero
        },
        b1: if u % 8 >= 4 {
            Bit::One
        } else {
            Bit::Zero
        },
        b2: if u % 4 >= 2 {
            Bit::One
        } else {
            Bit::Zero
        },
        b3: if u % 2 == 1 {
            Bit::One
        } else {
            Bit::Zero
        },
    }
}

/// The nibble that encodes the signed value `v` in two's complement.
pub open spec fn nibble_of_int(v: int) -> Nibble {
    nibble_of_uint(v % 16)
}

impl Nibble {
    /// Builds a nibble from its four bits, most significant first.
    pub fn new(b0: Bit, b1: Bit, b2: Bit, b3: Bit) -> (r: Nibble)
        ensures
            r == (Nibble { b0, b1, b2, b3 }),
    {
        Nibble { b0, b1, b2, b3 }
    }

    /// Returns the Nibble with all its bits inverted (ones' complement).
    pub fn not(self) -> (r: Nibble)
        ensures
            r.b0 == spec_not(self.b0),
            r.b1 == spec_not(self.b1),
            r.b2 == spec_not(self.b2),
            r.b3 == spec_not(self.b3),
            nibble_uint(r) == 15 - nibble_uint(self),
    {
        Nibble { b0: self.b0.not(), b1: self.b1.not(), b2: self.b2.not(), b3: self.b3.not() }
    }

    /// Bitwise addition of two nibbles: applies the single-bit full adder at
    /// each position from the least significant bit to the most significant
    /// one, threading the carry, and reports the final carry-out instead of
    /// trapping on overflow.
    ///
    /// The sum nibble holds the two's-complement-wrapped value of
    /// `self + other + carry_in`; the carry-out is set exactly when the
    /// unsigned readings of the inputs sum to 16 or more.
    #[verifier::rlimit(50)]
    pub fn add(self, other: Nibble, carry_in: Bit) -> (r: (Nibble, Bit))
        ensures
            nibble_uint(r.0) + 16 * bit_int(r.1) == nibble_uint(self) + nibble_uint(other)
                + bit_int(carry_in),
            r.1 is One <==> nibble_uint(self) + nibble_uint(other) + bit_int(carry_in) >= 16,
            nibble_int(r.0) == wrap_to_nibble(
                nibble_int(self) + nibble_int(other) + bit_int(carry_in),
            ),
    {
        let (sum3, carry3) = self.b3.add(other.b3, carry_in);
        let (sum2, carry2) = self.b2.add(other.b2, carry3);
        let (sum1, carry1) = self.b1.add(other.b1, carry2);
        let (sum0, carry_out) = self.b0.add(other.b0, carry1);
        let total = Nibble { b0: sum0, b1: sum1, b2: sum2, b3: sum3 };
        proof {
            let t = nibble_int(self) + nibble_int(other) + bit_int(carry_in);
            let rv = nibble_int(total);
            let k = bit_int(carry_out) + bit_int(total.b0) - bit_int(self.b0) - bit_int(other.b0);
            assert(t + 8 == 16 * k + (rv + 8));
            vstd::arithmetic::div_mod::lemma_mod_multiples_vanish(k, rv + 8, 16);
            vstd::arithmetic::div_mod::lemma_small_mod((rv + 8) as nat, 16);
        }
        (total, carry_out)
    }

    /// Two's-complement subtraction: `self - other` computed as
    /// `self + not(other) + 1`. The returned bit is the carry of that
    /// addition, which is set exactly when no borrow occurs, that is when
    /// the unsigned reading of `self` is at least that of `other`.
    #[verifier::rlimit(50)]
    pub fn sub(self, other: Nibble) -> (r: (Nibble, Bit))
        ensures
            nibble_uint(r.0) == (nibble_int(self) - nibble_int(other)) % 16,
            nibble_int(r.0) == wrap_to_nibble(nibble_int(self) - nibble_int(other)),
            r.1 is One <==> nibble_uint(self) >= nibble_uint(other),
    {
        let r = self.add(other.not(), Bit::One);
        proof {
            let d = nibble_int(self) - nibble_int(other);
            let du = nibble_uint(self) - nibble_uint(other);
            let ru = nibble_uint(r.0);
            let rv = nibble_int(r.0);
            let co = bit_int(r.1);
            let sx = bit_int(self.b0);
            let sy = bit_int(other.b0);
            let sr = bit_int(r.0.b0);
            assert(ru + 16 * co == du + 16);
            // `d % 16` equals the unsigned reading of the result.
            assert(d == 16 * (sy - sx) + du);
            vstd::arithmetic::div_mod::lemma_mod_multiples_vanish(sy - sx, du, 16);
            assert(du == 16 * (co - 1) + ru);
            vstd::arithmetic::div_mod::lemma_mod_multiples_vanish(co - 1, ru, 16);
            vstd::arithmetic::div_mod::lemma_small_mod(ru as nat, 16);
            // The signed reading is `d` wrapped into the nibble range.
            assert(d + 8 == 16 * (sy - sx + co - 1 + sr) + (rv + 8));
            vstd::arithmetic::div_mod::lemma_mod_multiples_vanish(sy - sx + co - 1 + sr, rv + 8, 16);
            vstd::arithmetic::div_mod::lemma_small_mod((rv + 8) as nat, 16);
        }
        r
    }

    /// The nibble's signed value, using the two's-complement weights
    /// `(-8, 4, 2, 1)`.
    pub fn to_i8(self) -> (r: i8)
        ensures
            r == nibble_int(self),
    {
        let a: i8 = if self.b0.is_one() {
            -8
        } else {
            0
        };
        let b: i8 = if self.b1.is_one() {
            4
        } else {
            0
        };
        let c: i8 = if self.b2.is_one() {
            2
        } else {
            0
        };
        let d: i8 = if self.b3.is_one() {
            1
        } else {
            0
        };
        a + b + c + d
    }

    /// Encodes a signed value in `[-8, 7]` into its four two's-complement
    /// bits.
    pub fn from_i8(value: i8) -> (r: Nibble)
        requires
            -8 <= value <= 7,
        ensures
            r == nibble_of_int(value as int),
            nibble_int(r) == value,
    {
        let u: u8 = if value < 0 {
            (value + 16) as u8
        } else {
            value as u8
        };
        let r = Nibble {
            b0: Bit::from_bool(u >= 8),
            b1: Bit::from_bool(u % 8 >= 4),
            b2: Bit::from_bool(u % 4 >= 2),
            b3: Bit::from_bool(u % 2 == 1),
        };
        r
    }
}

/// The decimal rendering of a signed value in `[-8, 7]`.
pub open spec fn decimal_digits(v: int) -> Seq<char> {
    if v == -8 {
        "-8"@
    } else if v == -7 {
        "-7"@
    } else if v == -6 {
        "-6"@
    } else if v == -5 {
        "-5"@
    } else if v == -4 {
        "-4"@
    } else if v == -3 {
        "-3"@
    } else if v == -2 {
        "-2"@
    } else if v == -1 {
        "-1"@
    } else if v == 0 {
        "0"@
    } else if v == 1 {
        "1"@
    } else if v == 2 {
        "2"@
    } else if v == 3 {
        "3"@
    } else if v == 4 {
        "4"@
    } else if v == 5 {
        "5"@
    } else if v == 6 {
        "6"@
    } else {
        "7"@
    }
}

impl Nibble {
    /// Renders the nibble as its signed decimal value, `-8` through `7`,
    /// not as its raw bit pattern.
    pub fn as_str(self) -> (r: &'static str)
        ensures
            r@ == decimal_digits(nibble_int(self)),
    {
        let v = self.to_i8();
        if v == -8 {
            "-8"
        } else if v == -7 {
            "-7"
        } else if v == -6 {
            "-6"
        } else if v == -5 {
            "-5"
        } else if v == -4 {
            "-4"
        } else if v == -3 {
            "-3"
        } else if v == -2 {
            "-2"
        } else if v == -1 {
            "-1"
        } else if v == 0 {
            "0"
        } else if v == 1 {
            "1"
        } else if v == 2 {
            "2"
        } else if v == 3 {
            "3"
        } else if v == 4 {
            "4"
        } else if v == 5 {
            "5"
        } else if v == 6 {
            "6"
        } else {
            "7"
        }
    }
}

/// Law: every signed value in `[-8, 7]` survives the round trip through its
/// four-bit two's-complement encoding: decoding `nibble_of_int(v)` yields
/// `v` again.
pub proof fn lemma_nibble_round_trip(v: int)
    requires
        -8 <= v <= 7,
    ensures
        nibble_int(nibble_of_int(v)) == v,
{
}

} // verus!
