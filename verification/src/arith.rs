use crate::errors::SubscriptionsDappError;
use vstd::prelude::*;

verus! {

/// Seconds in one day.
pub const SECONDS_PER_DAY: i64 = 86_400;

/// What a subscriber must hold to subscribe: the price, the rent of the
/// subscription record and the fee reserve.
pub open spec fn total_required(price: int, rent: int) -> int {
    price + rent + crate::TRANSACTION_FEE_BUFFER
}

/// The length in seconds of a number of days.
pub open spec fn duration_seconds(days: int) -> int {
    days * SECONDS_PER_DAY
}

/// The moment at which a subscription taken at `now` for `days` days runs out.
pub open spec fn expiry(now: int, days: int) -> int {
    now + duration_seconds(days)
}

/// The sum of two amounts, or `MathOverflow` where it does not fit.
pub fn checked_add_u64(a: u64, b: u64) -> (r: Result<u64, SubscriptionsDappError>)
    ensures
        match r {
            Ok(sum) => sum == a + b,
            Err(e) => e == SubscriptionsDappError::MathOverflow && a + b > u64::MAX,
        },
{
    match a.checked_add(b) {
        Some(sum) => Ok(sum),
        None => Err(SubscriptionsDappError::MathOverflow),
    }
}

/// The sum of two times, or `MathOverflow` where it does not fit.
pub fn checked_add_i64(a: i64, b: i64) -> (r: Result<i64, SubscriptionsDappError>)
    ensures
        match r {
            Ok(sum) => sum == a + b,
            Err(e) => e == SubscriptionsDappError::MathOverflow && !(i64::MIN <= a + b
                <= i64::MAX),
        },
{
    match a.checked_add(b) {
        Some(sum) => Ok(sum),
        None => Err(SubscriptionsDappError::MathOverflow),
    }
}

/// The product of two times, or `MathOverflow` where it does not fit.
pub fn checked_mul_i64(a: i64, b: i64) -> (r: Result<i64, SubscriptionsDappError>)
    ensures
        match r {
            Ok(product) => product == a * b,
            Err(e) => e == SubscriptionsDappError::MathOverflow && !(i64::MIN <= a * b
                <= i64::MAX),
        },
{
    match a.checked_mul(b) {
        Some(product) => Ok(product),
        None => Err(SubscriptionsDappError::MathOverflow),
    }
}

/// Computes what a subscriber must hold to subscribe to a plan of the given
/// price, where the subscription record costs `rent` to keep.
pub fn required_balance(price: u64, rent: u64) -> (r: Result<u64, SubscriptionsDappError>)
    ensures
        match r {
            Ok(needed) => needed == total_required(price as int, rent as int),
            Err(e) => e == SubscriptionsDappError::MathOverflow && total_required(
                price as int,
                rent as int,
            ) > u64::MAX,
        },
{
    let with_rent: u64 = checked_add_u64(price, rent)?;
    checked_add_u64(with_rent, crate::TRANSACTION_FEE_BUFFER)
}

/// Computes the moment at which a subscription taken at `now` for
/// `duration_days` days runs out.
pub fn expiry_time(now: i64, duration_days: u32) -> (r: Result<i64, SubscriptionsDappError>)
    ensures
        match r {
            Ok(expires_at) => expires_at == expiry(now as int, duration_days as int),
            Err(e) => e == SubscriptionsDappError::MathOverflow && expiry(
                now as int,
                duration_days as int,
            ) > i64::MAX,
        },
{
    let seconds: i64 = checked_mul_i64(duration_days as i64, SECONDS_PER_DAY)?;
    checked_add_i64(now, seconds)
}

} // verus!
