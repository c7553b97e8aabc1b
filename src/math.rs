//! Yield and lock-time arithmetic.
use vstd::prelude::*;
use crate::error::StakingError;

verus! {

/// Basis points in a whole (100%).
pub const BPS_DENOMINATOR: u64 = 10000;

/// Seconds in one day of a lock period.
pub const SECONDS_PER_DAY: i64 = 86400;

/// Yield on `principal` at `rate` basis points, rounded toward zero.
pub open spec fn yield_of(principal: int, rate: int) -> int {
    principal * rate / 10000
}

/// When a position made at `now` with a lock of `days` days unlocks.
pub open spec fn unlock_time_of(now: int, days: int) -> int {
    now + days * 86400
}

/// The yield on `principal` at `yield_rate` basis points.
///
/// The product is formed in 128 bits, so it never overflows; only a yield
/// that does not fit 64 bits is refused.
pub fn calculate_yield(principal: u64, yield_rate: u64) -> (r: Result<u64, StakingError>)
    ensures
        match r {
            Ok(y) => y == yield_of(principal as int, yield_rate as int),
            Err(e) => e == StakingError::ArithmeticOverflow && yield_of(principal as int, yield_rate as int) > u64::MAX,
        },
{
    assert((principal as u128) * (yield_rate as u128) <= u64::MAX as int * u64::MAX as int)
        by (nonlinear_arith);
    let product: u128 = (principal as u128) * (yield_rate as u128);
    let y: u128 = product / (BPS_DENOMINATOR as u128);
    if y > u64::MAX as u128 {
        Err(StakingError::ArithmeticOverflow)
    } else {
        Ok(y as u64)
    }
}

/// The unlock time of a position made at `now` in a pool that locks for
/// `lock_period_days` days.
pub fn calculate_unlock_time(now: i64, lock_period_days: u16) -> (r: Result<i64, StakingError>)
    ensures
        match r {
            Ok(t) => t == unlock_time_of(now as int, lock_period_days as int),
            Err(e) => e == StakingError::ArithmeticOverflow && unlock_time_of(now as int, lock_period_days as int) > i64::MAX,
        },
{
    let lock: i64 = (lock_period_days as i64) * SECONDS_PER_DAY;
    if now > i64::MAX - lock {
        Err(StakingError::ArithmeticOverflow)
    } else {
        Ok(now + lock)
    }
}

} // verus!
