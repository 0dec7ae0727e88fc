use openbook_v2::fixed_point::{ceil_to_u64, floor_to_u64, Fixed, FRAC_ONE};

#[test]
fn from_num_and_from_are_exact() {
    assert_eq!(Fixed::from_num(3).bits, 3 * FRAC_ONE);
    assert_eq!(Fixed::from_num(-7).bits, -7 * FRAC_ONE);
    assert_eq!(Fixed::from_i64(-2).bits, -2 * FRAC_ONE);
    assert_eq!(Fixed::from_u64(u64::MAX).bits, u64::MAX as i128 * FRAC_ONE);
}

#[test]
fn mul_rounds_towards_negative_infinity() {
    let one_and_half = Fixed::from_bits(FRAC_ONE + FRAC_ONE / 2);
    assert_eq!(one_and_half.mul(one_and_half).bits, 2 * FRAC_ONE + FRAC_ONE / 4);
    let tiny = Fixed::from_bits(1);
    let half = Fixed::from_bits(FRAC_ONE / 2);
    assert_eq!(tiny.mul(half).bits, 0);
    assert_eq!(Fixed::from_bits(-1).mul(half).bits, -1);
    assert_eq!(Fixed::from_num(6).mul(Fixed::from_num(7)).bits, 42 * FRAC_ONE);
}

#[test]
fn to_num_floors_and_ceil_rounds_up() {
    let x = Fixed::from_bits(5 * FRAC_ONE + 1);
    assert_eq!(x.to_num_u64(), 5);
    assert_eq!(x.ceil().bits, 6 * FRAC_ONE);
    assert_eq!(Fixed::from_num(5).ceil().bits, 5 * FRAC_ONE);
    assert_eq!(Fixed::from_bits(-FRAC_ONE / 2).ceil().bits, 0);
    assert_eq!(Fixed::from_bits(FRAC_ONE - 1).to_num_u64(), 0);
}

#[test]
fn add_sub_min_compare() {
    let a = Fixed::from_num(3);
    let b = Fixed::from_num(5);
    assert_eq!(a.add(b), Fixed::from_num(8));
    assert_eq!(a.sub(b), Fixed::from_num(-2));
    assert_eq!(a.min(b), a);
    assert_eq!(b.min(a), a);
    assert!(a.is_positive());
    assert!(!Fixed::zero().is_positive());
}

#[test]
fn checked_mul_and_rounding_helpers() {
    let big = Fixed::from_bits(i128::MAX);
    assert_eq!(big.checked_mul(Fixed::from_num(2)), None);
    assert_eq!(Fixed::from_num(3).checked_mul(Fixed::from_num(-4)), Some(Fixed::from_num(-12)));
    assert_eq!(floor_to_u64(7 * FRAC_ONE + 5), Some(7));
    assert_eq!(floor_to_u64(-1), None);
    assert_eq!(floor_to_u64((u64::MAX as i128 + 1) * FRAC_ONE), None);
    assert_eq!(ceil_to_u64(7 * FRAC_ONE + 5), Some(8));
    assert_eq!(ceil_to_u64(7 * FRAC_ONE), Some(7));
    assert_eq!(ceil_to_u64(u64::MAX as i128 * FRAC_ONE + 1), None);
    assert_eq!(ceil_to_u64(0), Some(0));
    assert_eq!(ceil_to_u64(-FRAC_ONE + 1), Some(0));
    assert_eq!(ceil_to_u64(-FRAC_ONE), None);
}
