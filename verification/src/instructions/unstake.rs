//! Releasing a staked asset and crediting the points it earned.

use vstd::prelude::*;
use crate::address::Address;
use crate::authority::{AuthoritySeeds, SeedLabel};
use crate::clock::unix_timestamp;
use crate::errors::StakeError;
use crate::rewards::{checked_points_earned, elapsed_between, elapsed_seconds, points_earned};
use crate::state::{LedgerAccount, StakeAccount, StakeConfig, UserAccount};

verus! {

/// The request to the asset registry that goes with a release: take the
/// freeze delegation off the asset, in the name of the stake record's
/// derived authority.
#[derive(Clone, Copy, Debug, PartialEq, Eq)]
pub struct UnfreezeRequest {
    /// The asset registry program.
    pub program: Address,
    /// The asset to unfreeze.
    pub asset: Address,
    /// The collection that the asset belongs to.
    pub collection: Address,
    /// Who pays for the change: the user.
    pub payer: Address,
    /// Seeds of the stake record's address, which holds the delegation and
    /// signs for its removal.
    pub authority: AuthoritySeeds,
}

/// What a successful release hands to the caller to carry out.
#[derive(Clone, Copy, Debug, PartialEq, Eq)]
pub struct UnstakeReceipt {
    /// Points credited to the user by this release.
    pub points_earned: u32,
    /// The request to send to the asset registry.
    pub unfreeze: UnfreezeRequest,
    /// Who receives the storage cost of the destroyed stake record.
    pub refund_to: Address,
}

/// The records that a release reads and writes.
#[derive(Clone, Copy, Debug, PartialEq, Eq)]
pub struct Unstake {
    /// The user who signed the transaction.
    pub user: Address,
    /// The asset to release.
    pub asset: LedgerAccount,
    /// The collection that the asset belongs to.
    pub collection: LedgerAccount,
    /// The program's configuration.
    pub config: StakeConfig,
    /// The account of `user`.
    pub user_account: UserAccount,
    /// The stake record of `asset`; `None` once the asset is released.
    pub stake_account: Option<StakeAccount>,
    /// The asset registry program.
    pub core_program: Address,
}

impl Unstake {
    /// Seconds that the asset has been staked at `now`.
    pub open spec fn elapsed(self, now: i64) -> int
        recommends
            self.stake_account is Some,
    {
        elapsed_seconds(self.stake_account.unwrap().staked_at, now)
    }

    /// Points that a release at `now` would credit.
    pub open spec fn earned(self, now: i64) -> int
        recommends
            self.stake_account is Some,
    {
        points_earned(self.elapsed(now), self.config.points_per_stake as int)
    }

    /// Why the records are refused whatever the time, or `None` if they
    /// belong together. The stake record must exist; then the asset and the
    /// collection are examined, then what the stake record names; the first
    /// failure is the answer.
    pub open spec fn records_rejection(self) -> Option<StakeError> {
        if self.stake_account is None {
            Some(StakeError::InvalidAsset)
        } else if self.asset.owner != self.core_program {
            Some(StakeError::InvalidAsset)
        } else if !self.asset.initialized {
            Some(StakeError::AssetNotInitialized)
        } else if self.collection.owner != self.core_program {
            Some(StakeError::InvalidCollection)
        } else if !self.collection.initialized {
            Some(StakeError::CollectionNotInitialized)
        } else if self.stake_account.unwrap().owner != self.user {
            Some(StakeError::InvalidAsset)
        } else if self.stake_account.unwrap().mint != self.asset.key {
            Some(StakeError::InvalidAsset)
        } else {
            None
        }
    }

    /// Why a release at `now` is refused, or `None` if it goes through. The
    /// records are examined first, then the time staked, and last the
    /// arithmetic; the first failure is the answer.
    pub open spec fn rejection(self, now: i64) -> Option<StakeError> {
        if self.records_rejection() is Some {
            self.records_rejection()
        } else if self.elapsed(now) < self.config.freeze_period {
            Some(StakeError::FreezePeriodNotPassed)
        } else if self.user_account.points + self.earned(now) > u32::MAX {
            Some(StakeError::Overflow)
        } else if self.user_account.amount_staked == 0 {
            Some(StakeError::Underflow)
        } else {
            None
        }
    }

    /// The records after a release at `now` that went through: the points
    /// are credited, the counter is one lower and the stake record is gone.
    pub open spec fn released(self, now: i64) -> Unstake {
        Unstake {
            user_account: UserAccount {
                points: (self.user_account.points + self.earned(now)) as u32,
                amount_staked: (self.user_account.amount_staked - 1) as u32,
                ..self.user_account
            },
            stake_account: None,
            ..self
        }
    }

    /// What a release at `now` that went through hands back.
    pub open spec fn receipt(self, now: i64) -> UnstakeReceipt {
        UnstakeReceipt {
            points_earned: self.earned(now) as u32,
            unfreeze: UnfreezeRequest {
                program: self.core_program,
                asset: self.asset.key,
                collection: self.collection.key,
                payer: self.user,
                authority: AuthoritySeeds {
                    label: SeedLabel::Stake,
                    context: Some(self.asset.key),
                    bump: self.stake_account.unwrap().bump,
                },
            },
            refund_to: self.user,
        }
    }

    /// The records after a call of `unstake` at `now`, refused or not.
    pub open spec fn after(self, now: i64) -> Unstake {
        if self.rejection(now) is None {
            self.released(now)
        } else {
            self
        }
    }

    /// What a call of `unstake` at `now` returns.
    pub open spec fn outcome(self, now: i64) -> Result<UnstakeReceipt, StakeError> {
        match self.rejection(now) {
            Some(e) => Err(e),
            None => Ok(self.receipt(now)),
        }
    }

    /// Examines the records, as far as that needs no clock.
    pub fn check_records(&self) -> (r: Option<StakeError>)
        ensures
            r == self.records_rejection(),
    {
        let stake = match self.stake_account {
            Some(stake) => stake,
            None => {
                return Some(StakeError::InvalidAsset);
            },
        };
        if self.asset.owner != self.core_program {
            return Some(StakeError::InvalidAsset);
        }
        if !self.asset.initialized {
            return Some(StakeError::AssetNotInitialized);
        }
        if self.collection.owner != self.core_program {
            return Some(StakeError::InvalidCollection);
        }
        if !self.collection.initialized {
            return Some(StakeError::CollectionNotInitialized);
        }
        if stake.owner != self.user {
            return Some(StakeError::InvalidAsset);
        }
        if stake.mint != self.asset.key {
            return Some(StakeError::InvalidAsset);
        }
        None
    }

    /// The release itself, once the records are found in order.
    fn release(&mut self, now: i64) -> (r: Result<UnstakeReceipt, StakeError>)
        requires
            old(self).records_rejection() is None,
        ensures
            r == old(self).outcome(now),
            *final(self) == old(self).after(now),
            final(self).user_account.points >= old(self).user_account.points,
    {
        let stake = self.stake_account.unwrap();
        let elapsed = elapsed_between(stake.staked_at, now);
        if elapsed < self.config.freeze_period as i128 {
            return Err(StakeError::FreezePeriodNotPassed);
        }
        let earned = match checked_points_earned(elapsed, self.config.points_per_stake) {
            Some(earned) => earned,
            None => {
                return Err(StakeError::Overflow);
            },
        };
        let points = match self.user_account.points.checked_add(earned) {
            Some(points) => points,
            None => {
                return Err(StakeError::Overflow);
            },
        };
        let amount_staked = match self.user_account.amount_staked.checked_sub(1) {
            Some(amount_staked) => amount_staked,
            None => {
                return Err(StakeError::Underflow);
            },
        };
        let receipt = UnstakeReceipt {
            points_earned: earned,
            unfreeze: UnfreezeRequest {
                program: self.core_program,
                asset: self.asset.key,
                collection: self.collection.key,
                payer: self.user,
                authority: AuthoritySeeds::stake(self.asset.key, stake.bump),
            },
            refund_to: self.user,
        };
        self.user_account.points = points;
        self.user_account.amount_staked = amount_staked;
        self.stake_account = None;
        Ok(receipt)
    }

    /// Releases the asset at time `now`.
    ///
    /// The call is refused, with every record left as it was, if the stake
    /// record is missing, if the asset or the collection is not an
    /// initialized account of the registry, if the stake record names
    /// another user or another asset, if the asset has been staked for less
    /// than the freeze period, if the points would not fit the balance, or
    /// if the counter of staked assets is already zero. Otherwise the user
    /// is credited `points_per_stake` points for each full day staked, the
    /// counter goes down by one, the stake record is destroyed, and the
    /// receipt holds the request that unfreezes the asset.
    pub fn unstake_at(&mut self, now: i64) -> (r: Result<UnstakeReceipt, StakeError>)
        ensures
            r == old(self).outcome(now),
            *final(self) == old(self).after(now),
            r is Err ==> *final(self) == *old(self),
            final(self).user_account.points >= old(self).user_account.points,
    {
        match self.check_records() {
            Some(e) => Err(e),
            None => self.release(now),
        }
    }

    /// Releases the asset at the time that the ledger's clock shows.
    ///
    /// Records that do not belong together are refused as `unstake_at`
    /// refuses them, before the clock is read. If the clock cannot be read,
    /// the call fails with `ClockUnavailable` and changes nothing. Otherwise
    /// the call does what `unstake_at` does at the time read.
    pub fn unstake(&mut self) -> (r: Result<UnstakeReceipt, StakeError>)
        ensures
            old(self).records_rejection() is Some ==> r == Err::<UnstakeReceipt, StakeError>(
                old(self).records_rejection().unwrap(),
            ),
            old(self).records_rejection() is None ==> {
                ||| r == Err::<UnstakeReceipt, StakeError>(StakeError::ClockUnavailable)
                    && *final(self) == *old(self)
                ||| exists|now: i64|
                    r == #[trigger] old(self).outcome(now) && *final(self) == old(self).after(now)
            },
            r is Err ==> *final(self) == *old(self),
            final(self).user_account.points >= old(self).user_account.points,
    {
        match self.check_records() {
            Some(e) => Err(e),
            None => match unix_timestamp() {
                Ok(now) => self.release(now),
                Err(_) => Err(StakeError::ClockUnavailable),
            },
        }
    }
}

} // verus!
