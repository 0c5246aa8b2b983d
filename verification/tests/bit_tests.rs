use bitkit::bit::Bit;

const BOTH: [Bit; 2] = [Bit::Zero, Bit::One];

fn val(b: Bit) -> u8 {
    b.to_u8()
}

#[test]
fn full_adder_truth_table() {
    for a in BOTH {
        for b in BOTH {
            for c in BOTH {
                let (sum, carry) = a.add(b, c);
                let expected = val(a) + val(b) + val(c);
                assert_eq!(val(sum) + 2 * val(carry), expected, "{a:?} + {b:?} + {c:?}");
            }
        }
    }
}

#[test]
fn or_derives_from_not_and_nand() {
    for a in BOTH {
        for b in BOTH {
            assert_eq!(a.or(b), a.not().nand(b.not()));
        }
    }
}

#[test]
fn xor_derives_from_or_and_nand() {
    for a in BOTH {
        for b in BOTH {
            assert_eq!(a.xor(b), a.or(b).and(a.nand(b)));
        }
    }
}

#[test]
fn gate_truth_tables() {
    assert_eq!(Bit::Zero.and(Bit::Zero), Bit::Zero);
    assert_eq!(Bit::Zero.and(Bit::One), Bit::Zero);
    assert_eq!(Bit::One.and(Bit::Zero), Bit::Zero);
    assert_eq!(Bit::One.and(Bit::One), Bit::One);
    assert_eq!(Bit::Zero.or(Bit::Zero), Bit::Zero);
    assert_eq!(Bit::Zero.or(Bit::One), Bit::One);
    assert_eq!(Bit::One.or(Bit::Zero), Bit::One);
    assert_eq!(Bit::One.or(Bit::One), Bit::One);
    assert_eq!(Bit::Zero.xor(Bit::Zero), Bit::Zero);
    assert_eq!(Bit::Zero.xor(Bit::One), Bit::One);
    assert_eq!(Bit::One.xor(Bit::Zero), Bit::One);
    assert_eq!(Bit::One.xor(Bit::One), Bit::Zero);
    assert_eq!(Bit::Zero.nand(Bit::Zero), Bit::One);
    assert_eq!(Bit::One.nand(Bit::One), Bit::Zero);
    assert_eq!(Bit::Zero.not(), Bit::One);
    assert_eq!(Bit::One.not(), Bit::Zero);
}

#[test]
fn predicates_and_conversions() {
    assert!(Bit::Zero.is_zero());
    assert!(!Bit::Zero.is_one());
    assert!(Bit::One.is_one());
    assert!(!Bit::One.is_zero());
    assert_eq!(Bit::from_bool(true), Bit::One);
    assert_eq!(Bit::from_bool(false), Bit::Zero);
    assert_eq!(Bit::One.to_u64(), 1);
    assert_eq!(Bit::Zero.to_i32(), 0);
    assert_eq!(Bit::One.to_usize(), 1);
    assert_eq!(Bit::default(), Bit::Zero);
}

#[test]
fn assign_operations() {
    let mut b = Bit::One;
    b.and_assign(Bit::Zero);
    assert_eq!(b, Bit::Zero);
    b.or_assign(Bit::One);
    assert_eq!(b, Bit::One);
    b.xor_assign(Bit::One);
    assert_eq!(b, Bit::Zero);
}

#[test]
fn ordering_zero_below_one() {
    assert!(Bit::Zero < Bit::One);
    assert_eq!(Bit::Zero.cmp(&Bit::Zero), std::cmp::Ordering::Equal);
    assert_eq!(Bit::One.cmp(&Bit::Zero), std::cmp::Ordering::Greater);
}

#[test]
fn renders_as_binary_digit() {
    assert_eq!(Bit::Zero.as_str(), "0");
    assert_eq!(Bit::One.as_str(), "1");
}
