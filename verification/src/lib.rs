//! Crate for performing operations on bits and bytes: a single-bit logic
//! type, a 4-bit signed integer built from it, and a 3-bit floating-point
//! format, together with byte/bit conversions.
use vstd::prelude::*;

pub mod bit;
pub mod f3;
pub mod nibble;
pub mod u1;

verus! {

use crate::bit::Bit;

/// `true` exactly when bit `i` (counting from the least significant end)
/// of the byte `n` is set.
pub open spec fn u8_bit(n: u8, i: u8) -> bool {
    (n >> i) & 1 == 1
}

/// Returns the bits that make up a `u8`, least significant bit first.
pub fn bits_of_u8(n: u8) -> (bits: [Bit; 8])
    ensures
        forall|i: int| 0 <= i < 8 ==> bits[i] == (if u8_bit(n, i as u8) {
            Bit::One
        } else {
            Bit::Zero
        }),
{
    let bits = [
        if (n >> 0u8) & 1 == 1 { Bit::One } else { Bit::Zero },
        if (n >> 1u8) & 1 == 1 { Bit::One } else { Bit::Zero },
        if (n >> 2u8) & 1 == 1 { Bit::One } else { Bit::Zero },
        if (n >> 3u8) & 1 == 1 { Bit::One } else { Bit::Zero },
        if (n >> 4u8) & 1 == 1 { Bit::One } else { Bit::Zero },
        if (n >> 5u8) & 1 == 1 { Bit::One } else { Bit::Zero },
        if (n >> 6u8) & 1 == 1 { Bit::One } else { Bit::Zero },
        if (n >> 7u8) & 1 == 1 { Bit::One } else { Bit::Zero },
    ];
    bits
}

/// Returns a byte (`u8`) constructed from bits, least significant bit first.
pub fn u8_from_bits(bits: [Bit; 8]) -> (n: u8)
    ensures
        forall|i: int| 0 <= i < 8 ==> (u8_bit(n, i as u8) <==> bits[i] is One),
{
    let b0 = bits[0].to_u8();
    let b1 = bits[1].to_u8();
    let b2 = bits[2].to_u8();
    let b3 = bits[3].to_u8();
    let b4 = bits[4].to_u8();
    let b5 = bits[5].to_u8();
    let b6 = bits[6].to_u8();
    let b7 = bits[7].to_u8();
    let n = b0 | (b1 << 1u8) | (b2 << 2u8) | (b3 << 3u8) | (b4 << 4u8) | (b5 << 5u8) | (b6
        << 6u8) | (b7 << 7u8);
    proof {
        let m = b0 | (b1 << 1u8) | (b2 << 2u8) | (b3 << 3u8) | (b4 << 4u8) | (b5 << 5u8) | (b6
            << 6u8) | (b7 << 7u8);
        assert(((m >> 0u8) & 1 == 1 <==> b0 == 1) && ((m >> 1u8) & 1 == 1 <==> b1 == 1) && ((m
            >> 2u8) & 1 == 1 <==> b2 == 1) && ((m >> 3u8) & 1 == 1 <==> b3 == 1) && ((m >> 4u8) & 1
            == 1 <==> b4 == 1) && ((m >> 5u8) & 1 == 1 <==> b5 == 1) && ((m >> 6u8) & 1 == 1 <==> b6
            == 1) && ((m >> 7u8) & 1 == 1 <==> b7 == 1)) by (bit_vector)
            requires
                b0 <= 1 && b1 <= 1 && b2 <= 1 && b3 <= 1 && b4 <= 1 && b5 <= 1 && b6 <= 1 && b7
                    <= 1 && m == (b0 | (b1 << 1u8) | (b2 << 2u8) | (b3 << 3u8) | (b4 << 4u8) | (b5
                    << 5u8) | (b6 << 6u8) | (b7 << 7u8)),
        ;
    }
    n
}

/// The byte whose bits at positions 0 through `n` are set and whose other
/// bits are clear.
pub open spec fn low_bits_mask_u8(n: u8) -> u8 {
    if n == 0 {
        0x01
    } else if n == 1 {
        0x03
    } else if n == 2 {
        0x07
    } else if n == 3 {
        0x0f
    } else if n == 4 {
        0x1f
    } else if n == 5 {
        0x3f
    } else if n == 6 {
        0x7f
    } else {
        0xff
    }
}

/// Returns `num` with every bit up to and including position `n` set to one.
pub fn set_nth_bit(num: u8, n: u8) -> (r: u8)
    requires
        n < 8,
    ensures
        r == num | low_bits_mask_u8(n),
{
    let mask: u8 = if n == 0 {
        0x01
    } else if n == 1 {
        0x03
    } else if n == 2 {
        0x07
    } else if n == 3 {
        0x0f
    } else if n == 4 {
        0x1f
    } else if n == 5 {
        0x3f
    } else if n == 6 {
        0x7f
    } else {
        0xff
    };
    num | mask
}

/// Law: a byte is determined by its eight bits, so decomposing a byte with
/// `bits_of_u8` and reassembling it with `u8_from_bits` gives the byte back.
pub proof fn lemma_u8_bits_extensional(a: u8, b: u8)
    requires
        forall|i: u8| i < 8 ==> (u8_bit(a, i) <==> u8_bit(b, i)),
    ensures
        a == b,
{
    assert(forall|x: u8, y: u8|
        (((x >> 0u8) & 1 == (y >> 0u8) & 1) && ((x >> 1u8) & 1 == (y >> 1u8) & 1) && ((x >> 2u8) & 1
            == (y >> 2u8) & 1) && ((x >> 3u8) & 1 == (y >> 3u8) & 1) && ((x >> 4u8) & 1 == (y
            >> 4u8) & 1) && ((x >> 5u8) & 1 == (y >> 5u8) & 1) && ((x >> 6u8) & 1 == (y >> 6u8) & 1)
            && ((x >> 7u8) & 1 == (y >> 7u8) & 1)) ==> x == y) by (bit_vector);
    assert(u8_bit(a, 0) <==> u8_bit(b, 0));
    assert(u8_bit(a, 1) <==> u8_bit(b, 1));
    assert(u8_bit(a, 2) <==> u8_bit(b, 2));
    assert(u8_bit(a, 3) <==> u8_bit(b, 3));
    assert(u8_bit(a, 4) <==> u8_bit(b, 4));
    assert(u8_bit(a, 5) <==> u8_bit(b, 5));
    assert(u8_bit(a, 6) <==> u8_bit(b, 6));
    assert(u8_bit(a, 7) <==> u8_bit(b, 7));
    assert(forall|x: u8, i: u8| ((x >> i) & 1 == 1 || (x >> i) & 1 == 0)) by (bit_vector);
}

/// Law: `set_nth_bit` leaves every bit at a position above `n` unchanged and
/// sets every bit at a position up to and including `n`.
pub proof fn lemma_set_nth_bit_pointwise(num: u8, n: u8, i: u8)
    requires
        n < 8,
        i < 8,
    ensures
        u8_bit(num | low_bits_mask_u8(n), i) <==> (i <= n || u8_bit(num, i)),
{
    let m = low_bits_mask_u8(n);
    assert(((num | m) >> i) & 1 == 1 <==> (i <= n || (num >> i) & 1 == 1)) by (bit_vector)
        requires
            i < 8 && n < 8 && m == (if n == 0 {
                0x01u8
            } else if n == 1 {
                0x03u8
            } else if n == 2 {
                0x07u8
            } else if n == 3 {
                0x0fu8
            } else if n == 4 {
                0x1fu8
            } else if n == 5 {
                0x3fu8
            } else if n == 6 {
                0x7fu8
            } else {
                0xffu8
            }),
    ;
}

} // verus!
