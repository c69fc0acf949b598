use vault::math::{mul_div_ceil, mul_div_floor, FeeBps};
use vault::VaultError;

#[test]
fn mul_div_floor_exact_values() {
    assert_eq!(mul_div_floor(7, 3, 2).unwrap(), 10);
    assert_eq!(mul_div_floor(6, 4, 2).unwrap(), 12);
    assert_eq!(mul_div_floor(0, 5, 3).unwrap(), 0);
    // The intermediate is 128 bits wide, so this cannot overflow.
    assert_eq!(mul_div_floor(u64::MAX, u64::MAX, u64::MAX).unwrap(), u64::MAX);
}

#[test]
fn mul_div_ceil_exact_values() {
    assert_eq!(mul_div_ceil(7, 3, 2).unwrap(), 11);
    assert_eq!(mul_div_ceil(6, 4, 2).unwrap(), 12);
    assert_eq!(mul_div_ceil(0, 5, 3).unwrap(), 0);
    assert_eq!(mul_div_ceil(1, 1, 7).unwrap(), 1);
}

#[test]
fn mul_div_rejects_zero_divisor() {
    assert!(matches!(mul_div_floor(7, 3, 0), Err(VaultError::MathOverflow)));
    assert!(matches!(mul_div_ceil(7, 3, 0), Err(VaultError::MathOverflow)));
}

#[test]
fn mul_div_rejects_result_above_64_bits() {
    assert!(matches!(mul_div_floor(u64::MAX, 2, 1), Err(VaultError::MathOverflow)));
    assert!(matches!(mul_div_ceil(u64::MAX, 2, 1), Err(VaultError::MathOverflow)));
}

#[test]
fn floor_and_ceil_bracket_the_true_quotient() {
    let a: u64 = 1_234_567;
    let b: u64 = 987_654;
    let c: u64 = 321;
    let lo = mul_div_floor(a, b, c).unwrap();
    let hi = mul_div_ceil(a, b, c).unwrap();
    let exact = (a as u128) * (b as u128);
    assert!((lo as u128) * (c as u128) <= exact);
    assert!(exact < ((lo as u128) + 1) * (c as u128));
    assert!(exact <= (hi as u128) * (c as u128));
    assert!((hi as u128) * (c as u128) < exact + c as u128);
}

#[test]
fn fee_bps_rejects_rates_above_one() {
    assert!(FeeBps::try_from(10_000).is_ok());
    assert!(matches!(FeeBps::try_from(10_001), Err(VaultError::GuardFail)));
}

#[test]
fn fee_apply_splits_exactly() {
    let fee = FeeBps::try_from(500).unwrap();
    let g = fee.apply(1000).unwrap();
    assert_eq!(g.fee, 50);
    assert_eq!(g.net_amount, 950);
    // 5% of 30 floors to 1.
    let g = fee.apply(30).unwrap();
    assert_eq!(g.fee, 1);
    assert_eq!(g.net_amount, 29);
}

#[test]
fn fee_apply_ceil_rounds_the_other_way() {
    let fee = FeeBps::try_from(500).unwrap();
    let g = fee.apply_ceil(30).unwrap();
    assert_eq!(g.fee, 2);
    assert_eq!(g.net_amount, 28);
    // An exact multiple rounds the same both ways.
    let g = fee.apply_ceil(1000).unwrap();
    assert_eq!(g.fee, 50);
    assert_eq!(g.net_amount, 950);
}

#[test]
fn fee_never_exceeds_amount() {
    let fee = FeeBps::try_from(10_000).unwrap();
    let g = fee.apply(u64::MAX).unwrap();
    assert_eq!(g.fee, u64::MAX);
    assert_eq!(g.net_amount, 0);
    let g = fee.apply_ceil(u64::MAX).unwrap();
    assert_eq!(g.fee, u64::MAX);
    assert_eq!(g.net_amount, 0);
}

#[test]
fn zero_rate_assesses_no_fee() {
    let fee = FeeBps::try_from(0).unwrap();
    let g = fee.apply(123_456).unwrap();
    assert_eq!(g.fee, 0);
    assert_eq!(g.net_amount, 123_456);
    let g = fee.apply_ceil(123_456).unwrap();
    assert_eq!(g.fee, 0);
}
