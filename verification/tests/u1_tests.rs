use bitkit::u1::{u1, ArithError};

#[test]
fn addition_within_range() {
    assert_eq!(u1::zero().add(u1::zero()), Ok(u1(false)));
    assert_eq!(u1::zero().add(u1::one()), Ok(u1(true)));
    assert_eq!(u1::one().add(u1::zero()), Ok(u1(true)));
}

#[test]
fn addition_overflow() {
    assert_eq!(u1::one().add(u1::one()), Err(ArithError::Overflow));
}

#[test]
fn subtraction_within_range() {
    assert_eq!(u1::zero().sub(u1::zero()), Ok(u1(false)));
    assert_eq!(u1::one().sub(u1::one()), Ok(u1(false)));
    assert_eq!(u1::one().sub(u1::zero()), Ok(u1(true)));
}

#[test]
fn subtraction_underflow() {
    assert_eq!(u1::zero().sub(u1::one()), Err(ArithError::Underflow));
}

#[test]
fn multiplication_is_total() {
    assert_eq!(u1::zero().mul(u1::zero()), u1(false));
    assert_eq!(u1::zero().mul(u1::one()), u1(false));
    assert_eq!(u1::one().mul(u1::zero()), u1(false));
    assert_eq!(u1::one().mul(u1::one()), u1(true));
}

#[test]
fn division() {
    assert_eq!(u1::zero().div(u1::one()), Ok(u1(false)));
    assert_eq!(u1::one().div(u1::one()), Ok(u1(true)));
    assert_eq!(u1::one().div(u1::zero()), Err(ArithError::DivideByZero));
    assert_eq!(u1::zero().div(u1::zero()), Err(ArithError::DivideByZero));
}

#[test]
fn remainder() {
    assert_eq!(u1::zero().rem(u1::one()), Ok(u1(false)));
    assert_eq!(u1::one().rem(u1::one()), Ok(u1(false)));
    assert_eq!(u1::one().rem(u1::zero()), Err(ArithError::DivideByZero));
}

#[test]
fn bitwise_operations() {
    assert_eq!(u1::one().and(u1::zero()), u1(false));
    assert_eq!(u1::one().and(u1::one()), u1(true));
    assert_eq!(u1::one().or(u1::zero()), u1(true));
    assert_eq!(u1::zero().or(u1::zero()), u1(false));
    assert_eq!(u1::one().xor(u1::one()), u1(false));
    assert_eq!(u1::one().xor(u1::zero()), u1(true));
    assert_eq!(u1::zero().not(), u1(true));
    assert_eq!(u1::one().not(), u1(false));
}

#[test]
fn ordering_and_predicates() {
    assert!(u1::zero() < u1::one());
    assert!(u1::zero().is_zero());
    assert!(!u1::one().is_zero());
    assert_eq!(u1::default(), u1(false));
}

#[test]
fn conversions() {
    assert_eq!(u1::from_bool(true), u1(true));
    assert_eq!(u1::one().to_u8(), 1);
    assert_eq!(u1::zero().to_u64(), 0);
    assert_eq!(u1::one().to_i128(), 1);
    assert_eq!(u1::one().as_str(), "1");
    assert_eq!(u1::zero().as_str(), "0");
}
