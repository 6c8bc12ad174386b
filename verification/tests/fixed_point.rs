use pi_collisions::fixed::{Fixed, FRACTION_BITS, ONE_RAW, RAW_LIMIT};
use pi_collisions::rounding::{rounded_quotient, truncated_quotient};
use pi_collisions::vector::Vector2;

#[test]
fn constants_are_powers_of_two() {
    assert_eq!(ONE_RAW, 1i128 << FRACTION_BITS);
    assert_eq!(RAW_LIMIT, 1i128 << 78);
}

#[test]
fn rounded_quotient_rounds_to_nearest() {
    assert_eq!(rounded_quotient(7, 2), 4);
    assert_eq!(rounded_quotient(-7, 2), -4);
    assert_eq!(rounded_quotient(5, 3), 2);
    assert_eq!(rounded_quotient(4, 3), 1);
    assert_eq!(rounded_quotient(-4, 3), -1);
    assert_eq!(rounded_quotient(-5, 3), -2);
    assert_eq!(rounded_quotient(0, 9), 0);
    assert_eq!(rounded_quotient(12, 4), 3);
    assert_eq!(rounded_quotient(-12, 4), -3);
}

#[test]
fn rounded_quotient_rounds_halves_away_from_zero() {
    assert_eq!(rounded_quotient(1, 2), 1);
    assert_eq!(rounded_quotient(-1, 2), -1);
    assert_eq!(rounded_quotient(3, 2), 2);
    assert_eq!(rounded_quotient(-3, 2), -2);
    assert_eq!(rounded_quotient(25, 10), 3);
}

#[test]
fn rounded_quotient_takes_the_largest_operands() {
    assert_eq!(rounded_quotient(i128::MAX, 1), i128::MAX);
    assert_eq!(rounded_quotient(i128::MAX, i128::MAX), 1);
    assert_eq!(rounded_quotient(-i128::MAX, 1), -i128::MAX);
    assert_eq!(rounded_quotient(i128::MAX, 2), (i128::MAX / 2) + 1);
    assert_eq!(rounded_quotient(1, i128::MAX), 0);
}

#[test]
fn truncated_quotient_rounds_toward_zero() {
    assert_eq!(truncated_quotient(7, 2), 3);
    assert_eq!(truncated_quotient(-7, 2), -3);
    assert_eq!(truncated_quotient(-1, 2), 0);
    assert_eq!(truncated_quotient(8, 2), 4);
}

#[test]
fn from_raw_saturates_at_the_limits() {
    assert_eq!(Fixed::from_raw(5).raw(), 5);
    assert_eq!(Fixed::from_raw(RAW_LIMIT).raw(), RAW_LIMIT);
    assert_eq!(Fixed::from_raw(RAW_LIMIT + 1).raw(), RAW_LIMIT);
    assert_eq!(Fixed::from_raw(-RAW_LIMIT - 1).raw(), -RAW_LIMIT);
    assert_eq!(Fixed::from_raw(i128::MAX).raw(), RAW_LIMIT);
    assert_eq!(Fixed::from_raw(i128::MIN).raw(), -RAW_LIMIT);
}

#[test]
fn from_int_scales_by_one() {
    assert_eq!(Fixed::from_int(0).raw(), 0);
    assert_eq!(Fixed::from_int(1).raw(), ONE_RAW);
    assert_eq!(Fixed::from_int(-370).raw(), -370 * ONE_RAW);
    assert_eq!(Fixed::from_int(67_108_864).raw(), RAW_LIMIT);
    assert_eq!(Fixed::from_int(i32::MAX).raw(), RAW_LIMIT);
    assert_eq!(Fixed::from_int(i32::MIN).raw(), -RAW_LIMIT);
    assert_eq!(Fixed::zero().raw(), 0);
}

#[test]
fn to_int_drops_the_fraction_toward_zero() {
    assert_eq!(Fixed::from_int(42).to_int(), 42);
    assert_eq!(Fixed::from_raw(42 * ONE_RAW + ONE_RAW - 1).to_int(), 42);
    assert_eq!(Fixed::from_raw(-42 * ONE_RAW - 1).to_int(), -42);
    assert_eq!(Fixed::from_raw(-1).to_int(), 0);
    assert_eq!(Fixed::from_raw(RAW_LIMIT).to_int(), 67_108_864);
    assert_eq!(Fixed::from_raw(-RAW_LIMIT).to_int(), -67_108_864);
}

#[test]
fn sums_and_differences_saturate() {
    let a = Fixed::from_int(15);
    let b = Fixed::from_int(30);
    assert_eq!(a.add(b), Fixed::from_int(45));
    assert_eq!(a.sub(b), Fixed::from_int(-15));
    let top = Fixed::from_raw(RAW_LIMIT);
    assert_eq!(top.add(Fixed::from_raw(1)).raw(), RAW_LIMIT);
    assert_eq!(top.add(top).raw(), RAW_LIMIT);
    assert_eq!(top.neg().sub(top).raw(), -RAW_LIMIT);
    assert_eq!(top.sub(top).raw(), 0);
}

#[test]
fn negation_and_magnitude() {
    assert_eq!(Fixed::from_int(3).neg(), Fixed::from_int(-3));
    assert_eq!(Fixed::from_int(-3).abs(), Fixed::from_int(3));
    assert_eq!(Fixed::from_int(3).abs(), Fixed::from_int(3));
    assert_eq!(Fixed::from_raw(-RAW_LIMIT).abs().raw(), RAW_LIMIT);
    assert_eq!(Fixed::from_raw(RAW_LIMIT).neg().raw(), -RAW_LIMIT);
    assert_eq!(Fixed::zero().neg(), Fixed::zero());
}

#[test]
fn scaling_rounds_to_the_nearest_raw_value() {
    assert_eq!(Fixed::from_int(1).scale(1, 3).raw(), 1_501_199_875_790_165);
    assert_eq!(Fixed::from_int(1).scale(1, 100).raw(), 45_035_996_273_705);
    assert_eq!(Fixed::from_int(-1).scale(1, 100).raw(), -45_035_996_273_705);
    assert_eq!(Fixed::from_int(6).scale(2, 3), Fixed::from_int(4));
    assert_eq!(Fixed::from_int(6).scale(-1, 2), Fixed::from_int(-3));
    assert_eq!(Fixed::from_raw(1).scale(1, 2).raw(), 1);
    assert_eq!(Fixed::from_raw(-1).scale(1, 2).raw(), -1);
    assert_eq!(Fixed::from_raw(1).scale(1, 3).raw(), 0);
    assert_eq!(Fixed::from_int(9).scale(0, 5), Fixed::zero());
}

#[test]
fn scaling_saturates() {
    let top = Fixed::from_raw(RAW_LIMIT);
    assert_eq!(top.scale(i32::MAX, 1).raw(), RAW_LIMIT);
    assert_eq!(top.scale(i32::MIN, 1).raw(), -RAW_LIMIT);
    assert_eq!(top.neg().scale(i32::MIN, 1).raw(), RAW_LIMIT);
    assert_eq!(top.scale(2, 1).raw(), RAW_LIMIT);
    assert_eq!(top.scale(1, 2).raw(), RAW_LIMIT / 2);
    assert_eq!(top.scale(i32::MAX, i32::MAX as u32).raw(), RAW_LIMIT);
    assert_eq!(top.scale(i32::MAX, u32::MAX).raw(), 151_115_727_416_644_274_741_248);
}

#[test]
fn scaling_takes_a_divisor_of_zero_as_one() {
    assert_eq!(Fixed::from_int(6).scale(2, 0), Fixed::from_int(12));
    assert_eq!(Fixed::from_int(6).scale(2, 1), Fixed::from_int(12));
    assert_eq!(Fixed::from_int(6).scale(0, 0), Fixed::zero());
    assert_eq!(Vector2::from_ints(3, -4).scale(-1, 0), Vector2::from_ints(-3, 4));
}

#[test]
fn vectors_add_and_scale_by_component() {
    let a = Vector2::from_ints(15, 370);
    let b = Vector2::from_ints(-1, 2);
    assert_eq!(a.add(b), Vector2::from_ints(14, 372));
    assert_eq!(a.scale(2, 5), Vector2::from_ints(6, 148));
    assert_eq!(Vector2::zero(), Vector2::from_ints(0, 0));
    assert_eq!(Vector2::new(Fixed::from_int(3), Fixed::from_int(4)), Vector2::from_ints(3, 4));
    let big = Vector2::new(Fixed::from_raw(RAW_LIMIT), Fixed::from_raw(-RAW_LIMIT));
    assert_eq!(big.add(big), big);
    assert_eq!(b.scale(1, 100).x.raw(), -45_035_996_273_705);
    assert_eq!(b.scale(1, 100).y.raw(), 90_071_992_547_410);
}

#[test]
fn vectors_fall_on_pixels() {
    assert_eq!(Vector2::from_ints(15, 370).to_pixels(), (15, 370));
    let p = Vector2::new(Fixed::from_raw(15 * ONE_RAW - 1), Fixed::from_raw(-ONE_RAW / 2));
    assert_eq!(p.to_pixels(), (14, 0));
    let q = Vector2::new(Fixed::from_raw(-3 * ONE_RAW - 5), Fixed::from_raw(RAW_LIMIT));
    assert_eq!(q.to_pixels(), (-3, 67_108_864));
}
