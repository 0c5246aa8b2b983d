use bitkit::bit::Bit;
use bitkit::nibble::Nibble;

#[test]
fn round_trip_all_values() {
    for n in -8i8..=7 {
        assert_eq!(Nibble::from_i8(n).to_i8(), n);
    }
}

#[test]
fn add_matches_wrapped_native_arithmetic() {
    for x in -8i8..=7 {
        for y in -8i8..=7 {
            let (sum, carry) = Nibble::from_i8(x).add(Nibble::from_i8(y), Bit::Zero);
            let wrapped = ((x as i16 + y as i16 + 8).rem_euclid(16) - 8) as i8;
            assert_eq!(sum.to_i8(), wrapped, "{x} + {y}");
            // The carry-out of the ripple chain is the unsigned carry: it is
            // set exactly when the unsigned readings sum to 16 or more.
            let unsigned = |v: i8| (v as i16).rem_euclid(16);
            assert_eq!(carry, Bit::from_bool(unsigned(x) + unsigned(y) >= 16), "{x} + {y}");
        }
    }
}

#[test]
fn add_reports_carry_in() {
    let (sum, carry) = Nibble::from_i8(3).add(Nibble::from_i8(2), Bit::One);
    assert_eq!(sum.to_i8(), 6);
    assert_eq!(carry, Bit::Zero);
}

#[test]
fn sub_is_add_of_complement() {
    for x in -8i8..=7 {
        for y in -8i8..=7 {
            let direct = Nibble::from_i8(x).sub(Nibble::from_i8(y));
            let via_complement = Nibble::from_i8(x).add(Nibble::from_i8(y).not(), Bit::One);
            assert_eq!(direct, via_complement, "{x} - {y}");
        }
    }
}

#[test]
fn sub_matches_wrapped_native_arithmetic() {
    for x in -8i8..=7 {
        for y in -8i8..=7 {
            let (diff, no_borrow) = Nibble::from_i8(x).sub(Nibble::from_i8(y));
            let wrapped = ((x as i16 - y as i16 + 8).rem_euclid(16) - 8) as i8;
            assert_eq!(diff.to_i8(), wrapped, "{x} - {y}");
            let unsigned = |v: i8| (v as i16).rem_euclid(16);
            assert_eq!(no_borrow, Bit::from_bool(unsigned(x) >= unsigned(y)), "{x} - {y}");
        }
    }
}

#[test]
fn not_flips_every_bit() {
    let n = Nibble::new(Bit::One, Bit::Zero, Bit::One, Bit::Zero);
    assert_eq!(n.not(), Nibble::new(Bit::Zero, Bit::One, Bit::Zero, Bit::One));
}

#[test]
fn two_complement_weights() {
    assert_eq!(Nibble::new(Bit::One, Bit::Zero, Bit::Zero, Bit::Zero).to_i8(), -8);
    assert_eq!(Nibble::new(Bit::Zero, Bit::One, Bit::One, Bit::One).to_i8(), 7);
    assert_eq!(Nibble::new(Bit::One, Bit::One, Bit::One, Bit::One).to_i8(), -1);
    assert_eq!(Nibble::new(Bit::Zero, Bit::Zero, Bit::Zero, Bit::Zero).to_i8(), 0);
}

#[test]
fn renders_signed_decimal() {
    assert_eq!(Nibble::from_i8(-8).as_str(), "-8");
    assert_eq!(Nibble::from_i8(-1).as_str(), "-1");
    assert_eq!(Nibble::from_i8(0).as_str(), "0");
    assert_eq!(Nibble::from_i8(7).as_str(), "7");
}
