use lp_pool::calc::{divide, multiply, PRECISION};

#[test]
fn precision_is_one_million() {
    assert_eq!(PRECISION, 1_000_000);
}

#[test]
fn multiply_exact() {
    // 1.5 * 10 = 15
    assert_eq!(multiply(1_500_000, 10_000_000), 15_000_000);
    // identity on the scale
    assert_eq!(multiply(PRECISION, 123_456), 123_456);
    assert_eq!(multiply(0, 999_999), 0);
}

#[test]
fn multiply_truncates_toward_zero() {
    // 0.000001 * 0.999999 = 0.000000999999 -> 0
    assert_eq!(multiply(1, 999_999), 0);
    // 0.333333 * 3 = 0.999999 -> floor keeps it below one
    assert_eq!(multiply(333_333, 3_000_000), 999_999);
}

#[test]
fn divide_exact() {
    // 15 / 1.5 = 10
    assert_eq!(divide(15_000_000, 1_500_000), 10_000_000);
    assert_eq!(divide(123_456, 123_456), PRECISION);
    assert_eq!(divide(0, 7), 0);
}

#[test]
fn divide_truncates_toward_zero() {
    // 1 / 3 = 0.333333...
    assert_eq!(divide(1_000_000, 3_000_000), 333_333);
    // 85 / 90 = 0.944444...
    assert_eq!(divide(85_000_000, 90_000_000), 944_444);
}
