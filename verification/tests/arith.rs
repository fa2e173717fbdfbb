use subscriptions_core::arith::{
    checked_add_i64, checked_add_u64, checked_mul_i64, expiry_time, required_balance, SECONDS_PER_DAY,
};
use subscriptions_core::errors::SubscriptionsDappError;

#[test]
fn a_day_has_86400_seconds() {
    assert_eq!(SECONDS_PER_DAY, 86_400);
}

#[test]
fn sums_of_amounts() {
    assert_eq!(checked_add_u64(2, 3), Ok(5));
    assert_eq!(checked_add_u64(0, 0), Ok(0));
    assert_eq!(checked_add_u64(u64::MAX - 1, 1), Ok(u64::MAX));
    assert_eq!(checked_add_u64(u64::MAX, 1), Err(SubscriptionsDappError::MathOverflow));
    assert_eq!(checked_add_u64(u64::MAX, u64::MAX), Err(SubscriptionsDappError::MathOverflow));
}

#[test]
fn sums_of_times() {
    assert_eq!(checked_add_i64(-2, 3), Ok(1));
    assert_eq!(checked_add_i64(i64::MAX, 0), Ok(i64::MAX));
    assert_eq!(checked_add_i64(i64::MAX, 1), Err(SubscriptionsDappError::MathOverflow));
    assert_eq!(checked_add_i64(i64::MIN, -1), Err(SubscriptionsDappError::MathOverflow));
    assert_eq!(checked_add_i64(i64::MIN, i64::MAX), Ok(-1));
}

#[test]
fn products_of_times() {
    assert_eq!(checked_mul_i64(30, 86_400), Ok(2_592_000));
    assert_eq!(checked_mul_i64(-3, 7), Ok(-21));
    assert_eq!(checked_mul_i64(i64::MAX, 2), Err(SubscriptionsDappError::MathOverflow));
    assert_eq!(checked_mul_i64(i64::MIN, -1), Err(SubscriptionsDappError::MathOverflow));
    assert_eq!(checked_mul_i64(i64::MIN, 1), Ok(i64::MIN));
}

#[test]
fn required_balance_is_price_rent_and_reserve() {
    assert_eq!(required_balance(1000, 2000), Ok(10_003_000));
    assert_eq!(required_balance(0, 0), Ok(10_000_000));
    assert_eq!(required_balance(u64::MAX - 10_000_000, 0), Ok(u64::MAX));
    assert_eq!(required_balance(u64::MAX - 10_000_000, 1), Err(SubscriptionsDappError::MathOverflow));
    assert_eq!(required_balance(u64::MAX, 1), Err(SubscriptionsDappError::MathOverflow));
    assert_eq!(required_balance(1, u64::MAX), Err(SubscriptionsDappError::MathOverflow));
}

#[test]
fn expiry_is_a_day_of_seconds_for_each_day() {
    assert_eq!(expiry_time(0, 30), Ok(2_592_000));
    assert_eq!(expiry_time(1_700_000_000, 365), Ok(1_731_536_000));
    assert_eq!(expiry_time(1_700_000_000, 0), Ok(1_700_000_000));
    assert_eq!(expiry_time(-86_400, 1), Ok(0));
    assert_eq!(expiry_time(i64::MAX - 86_400, 1), Ok(i64::MAX));
    assert_eq!(expiry_time(i64::MAX - 86_399, 1), Err(SubscriptionsDappError::MathOverflow));
    assert_eq!(expiry_time(i64::MIN, u32::MAX), Ok(i64::MIN + 4_294_967_295 * 86_400));
}
