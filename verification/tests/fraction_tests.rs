use vault_aggregator::fraction::{Fraction, FRACTION_ONE_BITS};

#[test]
fn whole_number_product_is_exact() {
    let a = Fraction::from_u64(3);
    let b = Fraction::from_u64(4);
    let r = a.checked_mul(b).unwrap();
    assert_eq!(r.bits, Fraction::from_u64(12).bits);
}

#[test]
fn division_by_twenty() {
    let r = Fraction::from_u64(1).checked_div(Fraction::from_u64(20)).unwrap();
    assert_eq!(r.bits, 57646075230342348u128);
}

#[test]
fn mul_overflow_is_none() {
    let big = Fraction::from_bits(u128::MAX);
    assert!(big.checked_mul(big).is_none());
}

#[test]
fn div_by_zero_is_none() {
    assert!(Fraction::from_u64(1).checked_div(Fraction::zero()).is_none());
}

#[test]
fn div_overflow_is_none() {
    // Dividing the largest value by the smallest positive unit needs far
    // more than 128 bits.
    let r = Fraction::from_bits(u128::MAX).checked_div(Fraction::from_bits(1));
    assert!(r.is_none());
}

#[test]
fn floor_conversion() {
    let f = Fraction::from_u64(7).checked_div(Fraction::from_u64(2)).unwrap();
    assert_eq!(f.try_to_floor_u64(), Some(3));
    let too_big = Fraction::from_bits(u128::MAX);
    assert_eq!(too_big.try_to_floor_u64(), None);
}

#[test]
fn percent_and_bps_conversions() {
    assert_eq!(Fraction::from_percent(100).bits, FRACTION_ONE_BITS);
    assert_eq!(Fraction::from_bps(10000).bits, FRACTION_ONE_BITS);
    assert_eq!(Fraction::from_bps(500).bits, FRACTION_ONE_BITS / 20);
}

#[test]
fn checked_add_and_sub() {
    let a = Fraction::from_u64(5);
    let b = Fraction::from_u64(2);
    assert_eq!(a.checked_add(b).unwrap().bits, Fraction::from_u64(7).bits);
    assert_eq!(a.checked_sub(b).unwrap().bits, Fraction::from_u64(3).bits);
    assert!(b.checked_sub(a).is_none());
    assert!(Fraction::from_bits(u128::MAX).checked_add(Fraction::from_bits(1)).is_none());
}

#[test]
fn mul_boundary_at_128_bits() {
    // 2^127 * 2^61 / 2^60 is exactly 2^128: one past the largest storable.
    let a = Fraction::from_bits(1u128 << 127);
    assert!(a.checked_mul(Fraction::from_bits(1u128 << 61)).is_none());
    // One less on the right factor squeezes back under the boundary.
    let r = a.checked_mul(Fraction::from_bits((1u128 << 61) - 1)).unwrap();
    assert_eq!(r.bits, 340282366920938463315800654842091798528u128);
}

#[test]
fn div_boundary_at_128_bits() {
    // 2^68 * 2^60 / 1 is exactly 2^128: one past the largest storable.
    assert!(Fraction::from_bits(1u128 << 68).checked_div(Fraction::from_bits(1)).is_none());
    let r = Fraction::from_bits((1u128 << 68) - 1).checked_div(Fraction::from_bits(1)).unwrap();
    assert_eq!(r.bits, 340282366920938463462221685927161364480u128);
}

#[test]
fn div_of_equal_values_is_one() {
    let max = Fraction::from_bits(u128::MAX);
    assert_eq!(max.checked_div(max).unwrap().bits, FRACTION_ONE_BITS);
    assert_eq!(
        Fraction::from_bits(1).checked_div(Fraction::from_bits(2)).unwrap().bits,
        1u128 << 59
    );
}
