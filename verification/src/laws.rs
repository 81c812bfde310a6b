//! What holds of the transitions, whatever the records and the time.

use vstd::prelude::*;
use vstd::arithmetic::power::pow;
use crate::errors::StakeError;
use crate::instructions::claim::Claim;
use crate::instructions::stake::{FreezeRequest, Stake, StakeBumps};
use crate::instructions::unstake::{Unstake, UnstakeReceipt};
use crate::rewards::{full_days, points_earned, reward_units, units_per_point_is_power_of_ten};
use crate::rewards::REWARD_DECIMALS;
use crate::state::UserAccount;

verus! {

/// The user's account after one call of `unstake` at `now` with the other
/// records of `records`.
pub open spec fn account_after_unstake(account: UserAccount, records: Unstake, now: i64)
    -> UserAccount {
    (Unstake { user_account: account, ..records }).after(now).user_account
}

/// The user's account after the calls of `unstake` in `calls`, first to
/// last, each given by its other records and its time.
pub open spec fn account_after_unstakes(account: UserAccount, calls: Seq<(Unstake, i64)>)
    -> UserAccount
    decreases calls.len(),
{
    if calls.len() == 0 {
        account
    } else {
        account_after_unstake(
            account_after_unstakes(account, calls.drop_last()),
            calls.last().0,
            calls.last().1,
        )
    }
}

/// The records of a later release of the asset, as a stake left them.
pub open spec fn release_after(stake: Stake) -> Unstake
    recommends
        stake.user_account is Some,
{
    Unstake {
        user: stake.user,
        asset: stake.asset,
        collection: stake.collection,
        config: stake.config,
        user_account: stake.user_account.unwrap(),
        stake_account: stake.stake_account,
        core_program: stake.core_program,
    }
}

/// One call on a user's account: the transition, the other records it is
/// given, and its arguments.
pub enum Call {
    /// A stake with these records, at this time, with these bumps.
    Stake(Stake, i64, StakeBumps),
    /// A release with these records, at this time.
    Unstake(Unstake, i64),
    /// A claim with these records.
    Claim(Claim),
}

/// The user's account after one call. A stake is given the account as one
/// that exists.
pub open spec fn account_after_call(account: UserAccount, call: Call) -> UserAccount {
    match call {
        Call::Stake(records, now, bumps) => (Stake { user_account: Some(account), ..records })
            .after(now, bumps).user_account.unwrap(),
        Call::Unstake(records, now) => account_after_unstake(account, records, now),
        Call::Claim(records) => (Claim { user_account: account, ..records }).after().user_account,
    }
}

/// The user's account after the calls in `calls`, first to last.
pub open spec fn account_after_calls(account: UserAccount, calls: Seq<Call>) -> UserAccount
    decreases calls.len(),
{
    if calls.len() == 0 {
        account
    } else {
        account_after_call(account_after_calls(account, calls.drop_last()), calls.last())
    }
}

/// The points fall only at a claim. In any history of calls on a user's
/// account, the call at position `k` leaves the points at zero if it is a
/// claim, and otherwise at no less than it found them.
pub proof fn points_fall_only_at_claim(account: UserAccount, calls: Seq<Call>, k: int)
    requires
        0 <= k < calls.len(),
    ensures
        calls[k] is Claim ==> account_after_calls(account, calls.take(k + 1)).points == 0,
        !(calls[k] is Claim) ==> account_after_calls(account, calls.take(k + 1)).points
            >= account_after_calls(account, calls.take(k)).points,
{
    let upto = calls.take(k + 1);
    assert(upto.drop_last() =~= calls.take(k));
    assert(upto.last() == calls[k]);
    let before = account_after_calls(account, calls.take(k));
    match calls[k] {
        Call::Unstake(records, now) => {
            unstake_never_lowers_points(Unstake { user_account: before, ..records }, now);
        },
        _ => {},
    }
}

/// Whether a call goes through when it is given `account` as the user's
/// account.
pub open spec fn goes_through(account: UserAccount, call: Call) -> bool {
    match call {
        Call::Stake(records, now, bumps) => (Stake { user_account: Some(account), ..records })
            .rejection() is None,
        Call::Unstake(records, now) => (Unstake { user_account: account, ..records }).rejection(
            now,
        ) is None,
        Call::Claim(records) => account.points > 0,
    }
}

/// The counter of staked assets moves by single steps: a stake that goes
/// through raises it by one, a release that goes through lowers it by one,
/// and nothing else changes it.
pub proof fn counter_moves_by_one(account: UserAccount, call: Call)
    ensures
        call is Stake && goes_through(account, call) ==> account_after_call(
            account,
            call,
        ).amount_staked == account.amount_staked + 1,
        call is Unstake && goes_through(account, call) ==> account_after_call(
            account,
            call,
        ).amount_staked == account.amount_staked - 1,
        call is Claim || !goes_through(account, call) ==> account_after_call(
            account,
            call,
        ).amount_staked == account.amount_staked,
{
}

/// A call that is refused leaves the user's account as it was.
pub proof fn refused_call_keeps_the_account(account: UserAccount, call: Call)
    requires
        !goes_through(account, call),
    ensures
        account_after_call(account, call) == account,
{
}

/// A call of `unstake` never lowers the user's points, whether it is
/// refused or not.
pub proof fn unstake_never_lowers_points(records: Unstake, now: i64)
    ensures
        records.after(now).user_account.points >= records.user_account.points,
{
    if records.rejection(now) is None {
        assert(records.earned(now) >= 0) by (nonlinear_arith)
            requires
                records.earned(now) == full_days(records.elapsed(now))
                    * records.config.points_per_stake,
                full_days(records.elapsed(now)) >= 0,
                records.config.points_per_stake >= 0,
        ;
    }
}

/// Over any sequence of calls of `unstake`, the user's points after the
/// first `j` calls are at least the points after the first `i <= j` calls.
pub proof fn points_never_decrease_over_unstakes(
    account: UserAccount,
    calls: Seq<(Unstake, i64)>,
    i: int,
    j: int,
)
    requires
        0 <= i <= j <= calls.len(),
    ensures
        account_after_unstakes(account, calls.take(i)).points <= account_after_unstakes(
            account,
            calls.take(j),
        ).points,
    decreases j - i,
{
    if i < j {
        points_never_decrease_over_unstakes(account, calls, i, j - 1);
        let longer = calls.take(j);
        assert(longer.drop_last() =~= calls.take(j - 1));
        let before = account_after_unstakes(account, calls.take(j - 1));
        unstake_never_lowers_points(
            Unstake { user_account: before, ..longer.last().0 },
            longer.last().1,
        );
    }
}

/// A call of `claim` leaves the user without points, whether it is refused
/// or not, and touches nothing else.
pub proof fn claim_leaves_no_points(records: Claim)
    ensures
        records.after().user_account.points == 0,
        records.after() == (Claim {
            user_account: UserAccount { points: 0, ..records.user_account },
            ..records
        }),
{
}

/// Points count full days only. After `days` full days and `seconds` more
/// seconds, short of another day, exactly `days * points_per_stake` points
/// are earned: none during the first day, `points_per_stake` at the end of
/// it, and the same amount all through each day that follows.
pub proof fn points_count_full_days(days: int, seconds: int, points_per_stake: int)
    requires
        0 <= days,
        0 <= seconds < 86_400,
    ensures
        points_earned(days * 86_400 + seconds, points_per_stake) == days * points_per_stake,
        points_earned(seconds, points_per_stake) == 0,
        points_earned(86_400, points_per_stake) == points_per_stake,
{
    let elapsed = days * 86_400 + seconds;
    if elapsed > 0 {
        assert(elapsed / 86_400 == days);
    }
    assert(seconds / 86_400 == 0);
    assert(0 * points_per_stake == 0);
    assert(1 * points_per_stake == points_per_stake);
}

/// Points are never rounded up: what is earned in `elapsed` seconds is at
/// most the share of `points_per_stake` that the seconds make of a day.
pub proof fn points_never_round_up(elapsed: int, points_per_stake: int)
    requires
        0 <= elapsed,
        0 <= points_per_stake,
    ensures
        0 <= points_earned(elapsed, points_per_stake),
        points_earned(elapsed, points_per_stake) * 86_400 <= elapsed * points_per_stake,
{
    let days = full_days(elapsed);
    assert(0 <= days * 86_400 <= elapsed);
    assert(0 <= days * points_per_stake && (days * points_per_stake) * 86_400 <= elapsed
        * points_per_stake) by (nonlinear_arith)
        requires
            0 <= days * 86_400 <= elapsed,
            0 <= points_per_stake,
    ;
}

/// Staying longer never earns less.
pub proof fn points_grow_with_time(earlier: int, later: int, points_per_stake: int)
    requires
        earlier <= later,
        0 <= points_per_stake,
    ensures
        points_earned(earlier, points_per_stake) <= points_earned(later, points_per_stake),
{
    let a = full_days(earlier);
    let b = full_days(later);
    assert(a <= b);
    assert(a * points_per_stake <= b * points_per_stake) by (nonlinear_arith)
        requires
            a <= b,
            0 <= points_per_stake,
    ;
}

/// A release before the freeze period has passed is refused with
/// `FreezePeriodNotPassed` and changes no record. This speaks of records
/// that pass; where they do not, the call is refused for that.
pub proof fn early_release_is_refused(records: Unstake, now: i64)
    requires
        records.records_rejection() is None,
        records.elapsed(now) < records.config.freeze_period,
    ensures
        records.outcome(now) == Err::<UnstakeReceipt, StakeError>(
            StakeError::FreezePeriodNotPassed,
        ),
        records.after(now) == records,
{
}

/// A release before the freeze period has passed is refused and changes no
/// record, whatever else holds of the records.
pub proof fn early_release_changes_nothing(records: Unstake, now: i64)
    requires
        records.stake_account is Some,
        records.elapsed(now) < records.config.freeze_period,
    ensures
        records.outcome(now) is Err,
        records.after(now) == records,
{
}

/// A release with a stake record that names another user or another asset
/// is refused with `InvalidAsset` and changes no record. This speaks of
/// calls whose asset and collection pass; where the asset is held by the
/// registry and one of them does not, the call is refused for that.
pub proof fn foreign_record_is_refused(records: Unstake, now: i64)
    requires
        records.stake_account is Some,
        records.stake_account.unwrap().owner != records.user
            || records.stake_account.unwrap().mint != records.asset.key,
        records.asset.owner == records.core_program ==> records.asset.initialized
            && records.collection.owner == records.core_program
            && records.collection.initialized,
    ensures
        records.outcome(now) == Err::<UnstakeReceipt, StakeError>(StakeError::InvalidAsset),
        records.after(now) == records,
{
}

/// A release with a stake record that names another user or another asset
/// is refused and changes no record, whatever else holds of the records.
pub proof fn foreign_record_releases_nothing(records: Unstake, now: i64)
    requires
        records.stake_account is Some,
        records.stake_account.unwrap().owner != records.user
            || records.stake_account.unwrap().mint != records.asset.key,
    ensures
        records.outcome(now) is Err,
        records.after(now) == records,
{
}

/// A release changes the user's points and counter and the stake record,
/// and nothing else: not the configuration, not a bump, and nothing of
/// what it was told of the user, the asset, the collection and the registry.
/// A stake record is destroyed or left as it is, never altered.
pub proof fn release_keeps_to_its_records(records: Unstake, now: i64)
    ensures
        records.after(now) == (Unstake {
            user_account: UserAccount {
                points: records.after(now).user_account.points,
                amount_staked: records.after(now).user_account.amount_staked,
                ..records.user_account
            },
            stake_account: records.after(now).stake_account,
            ..records
        }),
        records.after(now).stake_account is None || records.after(now).stake_account
            == records.stake_account,
{
}

/// A stake changes the user's counter and creates the stake record, and
/// nothing else: not the configuration, not the points, not the bump of an
/// account that exists, and nothing of what it was told of the user, the
/// asset, the collection and the registry. A stake record that exists is
/// never altered.
pub proof fn stake_keeps_to_its_records(stake: Stake, now: i64, bumps: StakeBumps)
    ensures
        stake.after(now, bumps) == (Stake {
            user_account: stake.after(now, bumps).user_account,
            stake_account: stake.after(now, bumps).stake_account,
            ..stake
        }),
        stake.user_account is Some ==> stake.after(now, bumps).user_account == Some(
            UserAccount {
                amount_staked: stake.after(now, bumps).user_account.unwrap().amount_staked,
                ..stake.user_account.unwrap()
            },
        ),
        stake.stake_account is Some ==> stake.after(now, bumps).stake_account
            == stake.stake_account,
{
}

/// A refused release changes no record, whatever the reason.
pub proof fn refused_release_changes_nothing(records: Unstake, now: i64)
    requires
        records.outcome(now) is Err,
    ensures
        records.after(now) == records,
{
}

/// The records of a release pass exactly when the stake record exists, the
/// asset and the collection are initialized accounts of the registry, and
/// the stake record names this user and this asset.
pub proof fn records_pass_iff(records: Unstake)
    ensures
        records.records_rejection() is None <==> {
            &&& records.stake_account is Some
            &&& records.asset.owner == records.core_program
            &&& records.asset.initialized
            &&& records.collection.owner == records.core_program
            &&& records.collection.initialized
            &&& records.stake_account.unwrap().owner == records.user
            &&& records.stake_account.unwrap().mint == records.asset.key
        },
{
}

/// A release goes through exactly when the records pass, the freeze period
/// has passed, the points fit the balance and the counter is not zero.
pub proof fn release_goes_through_iff(records: Unstake, now: i64)
    ensures
        records.outcome(now) is Ok <==> {
            &&& records.records_rejection() is None
            &&& records.elapsed(now) >= records.config.freeze_period
            &&& records.user_account.points + records.earned(now) <= u32::MAX
            &&& records.user_account.amount_staked > 0
        },
{
}

/// A claim is all or nothing. Without points it is refused and changes no
/// record. With `n` points it sets the balance to zero and asks for exactly
/// one mint, of `n * 10^REWARD_DECIMALS` base units, to the user's token
/// account.
pub proof fn claim_is_all_or_nothing(records: Claim)
    ensures
        records.user_account.points == 0 ==> records.outcome() is Err && records.after()
            == records,
        records.user_account.points > 0 ==> {
            &&& records.outcome() is Ok
            &&& records.after().user_account.points == 0
            &&& records.outcome().unwrap().points_claimed == records.user_account.points
            &&& records.outcome().unwrap().mint.amount == records.user_account.points * pow(
                10,
                REWARD_DECIMALS as nat,
            )
            &&& records.outcome().unwrap().mint.to == records.user_rewards_ata.key
            &&& records.outcome().unwrap().mint.mint == records.rewards_mint
        },
{
    units_per_point_is_power_of_ten();
    assert(reward_units(records.user_account.points as int) == records.user_account.points
        * 1_000_000);
}

/// A second claim right after a claim is refused: no balance is paid out
/// twice.
pub proof fn no_double_claim(records: Claim)
    ensures
        records.after().outcome() is Err,
        records.after().after() == records.after(),
{
}

/// A stake followed by a release of the same asset by the same user, once
/// the freeze period has passed, leaves the counter of staked assets where
/// it was, leaves no stake record, and credits the points for the days in
/// between.
pub proof fn release_undoes_stake(stake: Stake, staked_at: i64, bumps: StakeBumps, now: i64)
    requires
        stake.rejection() is None,
        now - staked_at >= stake.config.freeze_period,
        stake.account_before(bumps).points + points_earned(
            now - staked_at,
            stake.config.points_per_stake as int,
        ) <= u32::MAX,
    ensures
        release_after(stake.after(staked_at, bumps)).outcome(now) is Ok,
        release_after(stake.after(staked_at, bumps)).after(now).stake_account is None,
        release_after(stake.after(staked_at, bumps)).after(now).user_account.amount_staked
            == stake.staked_before(),
        release_after(stake.after(staked_at, bumps)).after(now).user_account.points
            == stake.account_before(bumps).points + points_earned(
            now - staked_at,
            stake.config.points_per_stake as int,
        ),
{
}

/// The release is signed by the authority that the stake gave the freeze
/// delegation to: both requests carry the same seeds, with the bump that
/// the stake record stores.
pub proof fn release_signs_as_stake_delegated(
    stake: Stake,
    staked_at: i64,
    bumps: StakeBumps,
    now: i64,
)
    requires
        stake.rejection() is None,
    ensures
        release_after(stake.after(staked_at, bumps)).receipt(now).unfreeze.authority
            == stake.request(bumps).delegate,
        stake.request(bumps).delegate.bump == stake.after(
            staked_at,
            bumps,
        ).stake_account.unwrap().bump,
{
}

/// An asset is staked at most once at a time: a stake right after a stake
/// that went through is refused with `InvalidAsset`.
pub proof fn no_double_stake(stake: Stake, staked_at: i64, bumps: StakeBumps)
    requires
        stake.rejection() is None,
    ensures
        stake.after(staked_at, bumps).outcome(bumps) == Err::<FreezeRequest, StakeError>(
            StakeError::InvalidAsset,
        ),
{
}

/// An asset is released at most once: a release right after a release that
/// went through is refused with `InvalidAsset`, at whatever time.
pub proof fn no_double_release(records: Unstake, now: i64, later: i64)
    requires
        records.rejection(now) is None,
    ensures
        records.after(now).outcome(later) == Err::<UnstakeReceipt, StakeError>(
            StakeError::InvalidAsset,
        ),
{
}

/// The counter of staked assets never goes below zero: a release that
/// finds it at zero is refused with `Underflow` and changes no record,
/// where nothing else is wrong.
pub proof fn release_at_zero_counter_is_refused(records: Unstake, now: i64)
    requires
        records.records_rejection() is None,
        records.elapsed(now) >= records.config.freeze_period,
        records.user_account.points + records.earned(now) <= u32::MAX,
        records.user_account.amount_staked == 0,
    ensures
        records.outcome(now) == Err::<UnstakeReceipt, StakeError>(StakeError::Underflow),
        records.after(now) == records,
{
}

/// The counter of staked assets never wraps: a stake that finds it at its
/// maximum is refused with `Overflow` and changes no record, where nothing
/// else is wrong.
pub proof fn stake_at_full_counter_is_refused(stake: Stake, now: i64, bumps: StakeBumps)
    requires
        stake.stake_account is None,
        stake.asset.owner == stake.core_program,
        stake.asset.initialized,
        stake.collection.owner == stake.core_program,
        stake.collection.initialized,
        stake.staked_before() == u32::MAX,
    ensures
        stake.outcome(bumps) == Err::<FreezeRequest, StakeError>(StakeError::Overflow),
        stake.after(now, bumps) == stake,
{
}

/// The points never wrap: a release whose points would not fit the balance
/// is refused with `Overflow` and changes no record, where the records pass
/// and the freeze period has passed.
pub proof fn points_never_wrap(records: Unstake, now: i64)
    requires
        records.records_rejection() is None,
        records.elapsed(now) >= records.config.freeze_period,
        records.user_account.points + records.earned(now) > u32::MAX,
    ensures
        records.outcome(now) == Err::<UnstakeReceipt, StakeError>(StakeError::Overflow),
        records.after(now) == records,
{
}

} // verus!
