//! Staking an asset: the record of the stake and the request that freezes
//! the asset.

use vstd::prelude::*;
use crate::address::Address;
use crate::authority::{AuthoritySeeds, SeedLabel};
use crate::clock::unix_timestamp;
use crate::errors::StakeError;
use crate::state::{LedgerAccount, StakeAccount, StakeConfig, UserAccount};

verus! {

/// The request to the asset registry that goes with a stake: put a freeze
/// delegation on the asset and give it to the stake record's derived
/// authority. The record and the delegation come into being together: if the
/// registry refuses, the caller drops the whole transaction.
#[derive(Clone, Copy, Debug, PartialEq, Eq)]
pub struct FreezeRequest {
    /// The asset registry program.
    pub program: Address,
    /// The asset to freeze.
    pub asset: Address,
    /// The collection that the asset belongs to.
    pub collection: Address,
    /// Who pays for the change and approves it as the asset's owner: the
    /// user.
    pub payer: Address,
    /// Seeds of the stake record's address, which receives the delegation.
    pub delegate: AuthoritySeeds,
}

/// The bumps found when the addresses of the records to create were derived.
#[derive(Clone, Copy, Debug, PartialEq, Eq, Structural)]
pub struct StakeBumps {
    /// Bump of the user account's address; used if the account is new.
    pub user_account: u8,
    /// Bump of the stake record's address.
    pub stake_account: u8,
}

/// The records that a stake reads and writes.
#[derive(Clone, Copy, Debug, PartialEq, Eq)]
pub struct Stake {
    /// The user who signed the transaction.
    pub user: Address,
    /// The asset to stake.
    pub asset: LedgerAccount,
    /// The collection that the asset belongs to.
    pub collection: LedgerAccount,
    /// The program's configuration.
    pub config: StakeConfig,
    /// The account of `user`; `None` before the user's first stake.
    pub user_account: Option<UserAccount>,
    /// The stake record of `asset`; `None` while the asset is not staked.
    pub stake_account: Option<StakeAccount>,
    /// The asset registry program.
    pub core_program: Address,
}

impl Stake {
    /// The user's account as the stake finds it: the stored one, or a new
    /// one without points or staked assets.
    pub open spec fn account_before(self, bumps: StakeBumps) -> UserAccount {
        match self.user_account {
            Some(account) => account,
            None => UserAccount { bump: bumps.user_account, points: 0, amount_staked: 0 },
        }
    }

    /// Number of assets that the user has staked before this stake.
    pub open spec fn staked_before(self) -> u32 {
        match self.user_account {
            Some(account) => account.amount_staked,
            None => 0,
        }
    }

    /// Why a stake is refused, or `None` if it goes through. The stake
    /// record is examined first, then the accounts, and last the counter;
    /// the first failure is the answer.
    pub open spec fn rejection(self) -> Option<StakeError> {
        if self.stake_account is Some {
            Some(StakeError::InvalidAsset)
        } else if self.asset.owner != self.core_program {
            Some(StakeError::InvalidAsset)
        } else if !self.asset.initialized {
            Some(StakeError::AssetNotInitialized)
        } else if self.collection.owner != self.core_program {
            Some(StakeError::InvalidCollection)
        } else if !self.collection.initialized {
            Some(StakeError::CollectionNotInitialized)
        } else if self.staked_before() == u32::MAX {
            Some(StakeError::Overflow)
        } else {
            None
        }
    }

    /// The records after a stake at `now` that went through: the stake
    /// record exists and the counter is one higher.
    pub open spec fn staked(self, now: i64, bumps: StakeBumps) -> Stake {
        Stake {
            user_account: Some(
                UserAccount {
                    amount_staked: (self.staked_before() + 1) as u32,
                    ..self.account_before(bumps)
                },
            ),
            stake_account: Some(
                StakeAccount {
                    bump: bumps.stake_account,
                    owner: self.user,
                    mint: self.asset.key,
                    staked_at: now,
                },
            ),
            ..self
        }
    }

    /// The request that a stake that went through hands back.
    pub open spec fn request(self, bumps: StakeBumps) -> FreezeRequest {
        FreezeRequest {
            program: self.core_program,
            asset: self.asset.key,
            collection: self.collection.key,
            payer: self.user,
            delegate: AuthoritySeeds {
                label: SeedLabel::Stake,
                context: Some(self.asset.key),
                bump: bumps.stake_account,
            },
        }
    }

    /// The records after a call of `stake` at `now`, refused or not.
    pub open spec fn after(self, now: i64, bumps: StakeBumps) -> Stake {
        if self.rejection() is None {
            self.staked(now, bumps)
        } else {
            self
        }
    }

    /// What a call of `stake` returns.
    pub open spec fn outcome(self, bumps: StakeBumps) -> Result<FreezeRequest, StakeError> {
        match self.rejection() {
            Some(e) => Err(e),
            None => Ok(self.request(bumps)),
        }
    }

    /// Examines the records and the counter.
    pub fn check_records(&self) -> (r: Option<StakeError>)
        ensures
            r == self.rejection(),
    {
        if self.stake_account.is_some() {
            return Some(StakeError::InvalidAsset);
        }
        if self.asset.owner != self.core_program {
            return Some(StakeError::InvalidAsset);
        }
        if !self.asset.initialized {
            return Some(StakeError::AssetNotInitialized);
        }
        if self.collection.owner != self.core_program {
            return Some(StakeError::InvalidCollection);
        }
        if !self.collection.initialized {
            return Some(StakeError::CollectionNotInitialized);
        }
        let amount_staked = match self.user_account {
            Some(account) => account.amount_staked,
            None => 0,
        };
        if amount_staked == u32::MAX {
            return Some(StakeError::Overflow);
        }
        None
    }

    /// The stake itself, once the records are found in order.
    fn record(&mut self, now: i64, bumps: StakeBumps) -> (request: FreezeRequest)
        requires
            old(self).rejection() is None,
        ensures
            request == old(self).request(bumps),
            *final(self) == old(self).staked(now, bumps),
    {
        let account = match self.user_account {
            Some(account) => account,
            None => UserAccount { bump: bumps.user_account, points: 0, amount_staked: 0 },
        };
        self.user_account = Some(
            UserAccount {
                bump: account.bump,
                points: account.points,
                amount_staked: account.amount_staked + 1,
            },
        );
        self.stake_account = Some(
            StakeAccount {
                bump: bumps.stake_account,
                owner: self.user,
                mint: self.asset.key,
                staked_at: now,
            },
        );
        FreezeRequest {
            program: self.core_program,
            asset: self.asset.key,
            collection: self.collection.key,
            payer: self.user,
            delegate: AuthoritySeeds::stake(self.asset.key, bumps.stake_account),
        }
    }

    /// Stakes the asset at time `now`.
    ///
    /// The call is refused, with every record left as it was, if the asset
    /// is staked already, if the asset or the collection is not an
    /// initialized account of the registry, or if the counter of staked
    /// assets is at its maximum. Otherwise the stake record is created with
    /// the user as owner, the asset as mint and `now` as time of staking,
    /// the user's account is created if this is the first stake, its counter
    /// goes up by one, and the result is the request that freezes the asset.
    pub fn stake_at(&mut self, now: i64, bumps: StakeBumps) -> (r: Result<
        FreezeRequest,
        StakeError,
    >)
        ensures
            r == old(self).outcome(bumps),
            *final(self) == old(self).after(now, bumps),
            r is Err ==> *final(self) == *old(self),
    {
        match self.check_records() {
            Some(e) => Err(e),
            None => Ok(self.record(now, bumps)),
        }
    }

    /// Stakes the asset at the time that the ledger's clock shows.
    ///
    /// The call is refused as `stake_at` refuses it, before the clock is
    /// read. If the clock cannot be read, the call fails with
    /// `ClockUnavailable` and changes nothing. Otherwise the call does what
    /// `stake_at` does at the time read.
    pub fn stake(&mut self, bumps: StakeBumps) -> (r: Result<FreezeRequest, StakeError>)
        ensures
            old(self).rejection() is Some ==> r == old(self).outcome(bumps),
            old(self).rejection() is None ==> {
                ||| r == Err::<FreezeRequest, StakeError>(StakeError::ClockUnavailable)
                    && *final(self) == *old(self)
                ||| r == old(self).outcome(bumps) && exists|now: i64|
                    *final(self) == #[trigger] old(self).after(now, bumps)
            },
            r is Err ==> *final(self) == *old(self),
    {
        match self.check_records() {
            Some(e) => Err(e),
            None => match unix_timestamp() {
                Ok(now) => {
                    let request = self.record(now, bumps);
                    assert(*self == old(self).after(now, bumps));
                    Ok(request)
                },
                Err(_) => Err(StakeError::ClockUnavailable),
            },
        }
    }
}

} // verus!
