use kzg_gate::field::Scalar;

#[test]
fn test_negative_residue_cancels() {
    // -5 + 5 = 0 in the field
    let minus_five = Scalar::from_i64(-5);
    assert_eq!(minus_five.add(&Scalar::from_u64(5)), Scalar::zero());
    // and -5 is the negation of 5
    assert_eq!(minus_five, Scalar::from_u64(5).neg());
}

#[test]
fn test_field_arithmetic_identities() {
    let a = Scalar::from_u64(123456789123456789);
    assert_eq!(a.add(&Scalar::zero()), a);
    assert_eq!(a.mul(&Scalar::one()), a);
    assert_eq!(a.sub(&a), Scalar::zero());
    assert_eq!(a.mul(&Scalar::zero()), Scalar::zero());
    assert_eq!(Scalar::from_u64(3).mul(&Scalar::from_u64(7)), Scalar::from_u64(21));
    // (-1) * (-1) = 1
    let minus_one = Scalar::one().neg();
    assert_eq!(minus_one.mul(&minus_one), Scalar::one());
}

#[test]
fn test_signed_conversion_extremes() {
    // i64::MIN maps to the additive inverse of 2^63
    let min = Scalar::from_i64(i64::MIN);
    assert_eq!(min, Scalar::from_u64(9223372036854775808).neg());
    assert_eq!(Scalar::from_i64(i64::MAX), Scalar::from_u64(9223372036854775807));
    assert_eq!(Scalar::from_i64(0), Scalar::zero());
}
