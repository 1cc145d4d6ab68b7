use amm_simple::errors::AmmError;
use amm_simple::math::{calc_dy, decimals};

#[test]
fn quote_concrete_scenario() {
    // x = 1000, y = 1000, dx = 100: dy = 1000 - (1000*1000)/1100 = 1000 - 909 = 91
    assert_eq!(calc_dy(1000, 1000, 100), Ok(91));
}

#[test]
fn quote_monotonic_concrete() {
    let small = calc_dy(1000, 1000, 100).unwrap();
    let large = calc_dy(1000, 1000, 200).unwrap();
    assert_eq!(small, 91);
    assert_eq!(large, 167);
    assert!(small <= large);
}

#[test]
fn quote_round_trip_exact_division() {
    // 1000 * 1000 divides evenly by 1000 + 1000, so the round trip
    // returns exactly the original input.
    let dy = calc_dy(1000, 1000, 1000).unwrap();
    assert_eq!(dy, 500);
    let back = calc_dy(1000 - dy, 1000 + 1000, dy).unwrap();
    assert_eq!(back, 1000);
}

#[test]
fn quote_round_trip_rounding_favors_trader() {
    // Where the division does not come out even, the floor rounding
    // overstates dy and the round trip can exceed the original input.
    let dy = calc_dy(1000, 1000, 100).unwrap();
    assert_eq!(dy, 91);
    let back = calc_dy(1000 - dy, 1000 + 100, dy).unwrap();
    assert_eq!(back, 101);
}

#[test]
fn quote_product_never_increases() {
    let (x, y, dx) = (1000u128, 1000u128, 100u128);
    let dy = calc_dy(x, y, dx).unwrap();
    assert!((x + dx) * (y - dy) <= x * y);
}

#[test]
fn quote_zero_amount() {
    assert_eq!(calc_dy(5, 5, 0), Err(AmmError::ZeroAmount));
}

#[test]
fn quote_zero_reserve() {
    assert_eq!(calc_dy(0, 5, 1), Err(AmmError::DivisionByZero));
    assert_eq!(calc_dy(5, 0, 1), Err(AmmError::DivisionByZero));
}

#[test]
fn quote_sum_overflow() {
    assert_eq!(calc_dy(u128::MAX, 1, 1), Err(AmmError::Overflow));
}

#[test]
fn quote_product_overflow() {
    // x + dx fits, but x * y does not
    let x = u128::MAX / 2 + 1;
    assert_eq!(calc_dy(x, 2, 1), Err(AmmError::Overflow));
}

#[test]
fn scaling_concrete() {
    assert_eq!(decimals(5, 3), Ok(5000));
    assert_eq!(decimals(7, 0), Ok(7));
    assert_eq!(decimals(0, 200), Ok(0));
}

#[test]
fn scaling_boundary() {
    let pow38: u128 = 10u128.pow(38);
    assert_eq!(decimals(1, 38), Ok(pow38));
    assert_eq!(decimals(1, 39), Err(AmmError::Overflow));
    assert_eq!(decimals(u128::MAX, 1), Err(AmmError::Overflow));
}
