//! How staking time turns into points, and points into reward tokens.

use vstd::prelude::*;
use vstd::arithmetic::power::pow;

verus! {

/// Seconds in one day.
pub const SECONDS_PER_DAY: u32 = 86_400;

/// Decimal places of the reward token.
pub const REWARD_DECIMALS: u32 = 6;

/// Base units of the reward token that one point is worth.
pub const UNITS_PER_POINT: u64 = 1_000_000;

/// Seconds from `staked_at` to `now`; negative when `now` is the earlier.
pub open spec fn elapsed_seconds(staked_at: i64, now: i64) -> int {
    now - staked_at
}

/// Full days in `elapsed` seconds. A started day does not count, and there
/// are none before the time of staking.
pub open spec fn full_days(elapsed: int) -> int {
    if elapsed <= 0 {
        0
    } else {
        elapsed / 86_400
    }
}

/// Points earned in `elapsed` seconds at `points_per_stake` points a day.
pub open spec fn points_earned(elapsed: int, points_per_stake: int) -> int {
    full_days(elapsed) * points_per_stake
}

/// Base units of the reward token minted for `points` points.
pub open spec fn reward_units(points: int) -> int {
    points * pow(10, REWARD_DECIMALS as nat)
}

/// One point is worth ten to the power of the token's decimals.
pub proof fn units_per_point_is_power_of_ten()
    ensures
        UNITS_PER_POINT == pow(10, REWARD_DECIMALS as nat),
{
    reveal_with_fuel(pow, 7);
}

/// The time an asset has been staked at `now`.
pub fn elapsed_between(staked_at: i64, now: i64) -> (elapsed: i128)
    ensures
        elapsed == elapsed_seconds(staked_at, now),
{
    now as i128 - staked_at as i128
}

/// The points earned in `elapsed` seconds, or `None` where they exceed what
/// a balance can hold.
pub fn checked_points_earned(elapsed: i128, points_per_stake: u32) -> (earned: Option<u32>)
    ensures
        points_earned(elapsed as int, points_per_stake as int) <= u32::MAX ==> earned == Some(
            points_earned(elapsed as int, points_per_stake as int) as u32,
        ),
        points_earned(elapsed as int, points_per_stake as int) > u32::MAX ==> earned is None,
{
    if elapsed <= 0 || points_per_stake == 0 {
        assert(points_earned(elapsed as int, points_per_stake as int) == 0) by (nonlinear_arith)
            requires
                elapsed <= 0 || points_per_stake == 0,
                points_earned(elapsed as int, points_per_stake as int) == full_days(elapsed as int)
                    * points_per_stake,
                elapsed <= 0 ==> full_days(elapsed as int) == 0,
        ;
        return Some(0);
    }
    let days: u128 = elapsed as u128 / 86_400;
    if days > u32::MAX as u128 {
        assert(days * points_per_stake > u32::MAX) by (nonlinear_arith)
            requires
                days > u32::MAX,
                points_per_stake >= 1,
        ;
        return None;
    }
    assert(days * points_per_stake <= u32::MAX * u32::MAX) by (nonlinear_arith)
        requires
            0 <= days <= u32::MAX,
            0 <= points_per_stake <= u32::MAX,
    ;
    let total: u128 = days * points_per_stake as u128;
    if total > u32::MAX as u128 {
        None
    } else {
        Some(total as u32)
    }
}

/// The amount to mint for `points` points, in base units of the reward token.
pub fn reward_amount(points: u32) -> (amount: u64)
    ensures
        amount == reward_units(points as int),
        amount == points * 1_000_000,
{
    proof {
        units_per_point_is_power_of_ten();
    }
    points as u64 * UNITS_PER_POINT
}

} // verus!
