use nasdaq_strategy::fixed_point::mul_div_u64;

#[test]
fn mul_div_takes_the_floor() {
    assert_eq!(mul_div_u64(7, 3, 2), Some(10));
    assert_eq!(mul_div_u64(9_999, 250, 10_000), Some(249));
    assert_eq!(mul_div_u64(1, 1, 2), Some(0));
}

#[test]
fn mul_div_of_zero_factor_is_zero() {
    assert_eq!(mul_div_u64(0, u64::MAX, 1), Some(0));
    assert_eq!(mul_div_u64(u64::MAX, 0, 7), Some(0));
}

#[test]
fn mul_div_keeps_the_high_bits_of_the_product() {
    assert_eq!(mul_div_u64(u64::MAX, u64::MAX, u64::MAX), Some(u64::MAX));
    assert_eq!(mul_div_u64(u64::MAX, 1_000_000, 1_000_000), Some(u64::MAX));
    assert_eq!(mul_div_u64(1 << 63, 4, 8), Some(1 << 62));
}

#[test]
fn mul_div_by_zero_is_none() {
    assert_eq!(mul_div_u64(1, 1, 0), None);
    assert_eq!(mul_div_u64(0, 0, 0), None);
}

#[test]
fn mul_div_beyond_64_bits_is_none() {
    assert_eq!(mul_div_u64(u64::MAX, 2, 1), None);
    assert_eq!(mul_div_u64(u64::MAX, u64::MAX, 1), None);
    assert_eq!(mul_div_u64(u64::MAX, u64::MAX, u64::MAX - 1), None);
}

#[test]
fn mul_div_at_the_edge_of_64_bits() {
    assert_eq!(mul_div_u64(u64::MAX, 2, 2), Some(u64::MAX));
    assert_eq!(mul_div_u64(1 << 32, 1 << 32, 2), Some(1 << 63));
    assert_eq!(mul_div_u64(1 << 32, 1 << 32, 1), None);
}
