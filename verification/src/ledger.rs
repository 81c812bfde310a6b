//! All records of the program together, and what keeps them consistent.
//!
//! The ledger holds one configuration, at most one account for each user
//! and at most one stake record for each asset. A transaction declares the
//! records it works on; the ledger hands them to the transition and stores
//! what the transition leaves. This module states, over that model, that
//! every user's counter is the number of stake records that name the user,
//! and proves that the three transitions keep it so.

use vstd::prelude::*;
use vstd::set_lib::lemma_set_subset_finite;
use crate::address::Address;
use crate::errors::StakeError;
use crate::instructions::claim::Claim;
use crate::instructions::stake::{Stake, StakeBumps};
use crate::instructions::unstake::Unstake;
use crate::laws::Call;
use crate::state::{StakeAccount, StakeConfig, UserAccount};

verus! {

/// The records of the program at one moment.
pub struct Ledger {
    /// The configuration.
    pub config: StakeConfig,
    /// The user accounts, each under its user.
    pub users: Map<Address, UserAccount>,
    /// The stake records, each under its asset.
    pub stakes: Map<Address, StakeAccount>,
}

impl Ledger {
    /// The account of `user`, if there is one.
    pub open spec fn user_account(self, user: Address) -> Option<UserAccount> {
        if self.users.contains_key(user) {
            Some(self.users[user])
        } else {
            None
        }
    }

    /// The stake record of `asset`, if there is one.
    pub open spec fn stake_account(self, asset: Address) -> Option<StakeAccount> {
        if self.stakes.contains_key(asset) {
            Some(self.stakes[asset])
        } else {
            None
        }
    }

    /// The assets that `user` has staked at present.
    pub open spec fn staked_by(self, user: Address) -> Set<Address> {
        self.stakes.dom().filter(|asset: Address| self.stakes[asset].owner == user)
    }

    /// The ledger is consistent: there are finitely many stake records,
    /// each names the asset it is stored under and a user who has an
    /// account, and each user's counter is the number of stake records that
    /// name the user.
    pub open spec fn consistent(self) -> bool {
        &&& self.stakes.dom().finite()
        &&& forall|asset: Address| #[trigger]
            self.stakes.contains_key(asset) ==> self.stakes[asset].mint == asset
                && self.users.contains_key(self.stakes[asset].owner)
        &&& forall|user: Address| #[trigger]
            self.users.contains_key(user) ==> self.users[user].amount_staked
                == self.staked_by(user).len()
    }

    /// The ledger with the user account and the stake record set to what a
    /// transition left of them.
    pub open spec fn store(
        self,
        user: Address,
        user_account: Option<UserAccount>,
        asset: Address,
        stake_account: Option<StakeAccount>,
    ) -> Ledger {
        Ledger {
            users: match user_account {
                Some(account) => self.users.insert(user, account),
                None => self.users.remove(user),
            },
            stakes: match stake_account {
                Some(record) => self.stakes.insert(asset, record),
                None => self.stakes.remove(asset),
            },
            ..self
        }
    }

    /// Whether `records` are the ledger's: the configuration, the user's
    /// account and the asset's stake record are as the ledger holds them.
    pub open spec fn holds_stake(self, records: Stake) -> bool {
        &&& records.config == self.config
        &&& records.user_account == self.user_account(records.user)
        &&& records.stake_account == self.stake_account(records.asset.key)
    }

    /// The ledger after a stake with its records at `now`.
    pub open spec fn after_stake(self, records: Stake, now: i64, bumps: StakeBumps) -> Ledger {
        self.store(
            records.user,
            records.after(now, bumps).user_account,
            records.asset.key,
            records.after(now, bumps).stake_account,
        )
    }

    /// Whether `records` are the ledger's: the configuration, the user's
    /// account, which exists, and the asset's stake record are as the
    /// ledger holds them.
    pub open spec fn holds_unstake(self, records: Unstake) -> bool {
        &&& records.config == self.config
        &&& Some(records.user_account) == self.user_account(records.user)
        &&& records.stake_account == self.stake_account(records.asset.key)
    }

    /// The ledger after a release with its records at `now`.
    pub open spec fn after_unstake(self, records: Unstake, now: i64) -> Ledger {
        self.store(
            records.user,
            Some(records.after(now).user_account),
            records.asset.key,
            records.after(now).stake_account,
        )
    }

    /// The records of a stake as the ledger hands them over: what the
    /// transaction declares, with the configuration, the user's account and
    /// the asset's stake record as the ledger holds them.
    pub open spec fn load_stake(self, declared: Stake) -> Stake {
        Stake {
            config: self.config,
            user_account: self.user_account(declared.user),
            stake_account: self.stake_account(declared.asset.key),
            ..declared
        }
    }

    /// The records of a release as the ledger hands them over, for a user
    /// who has an account.
    pub open spec fn load_unstake(self, declared: Unstake) -> Unstake
        recommends
            self.users.contains_key(declared.user),
    {
        Unstake {
            config: self.config,
            user_account: self.users[declared.user],
            stake_account: self.stake_account(declared.asset.key),
            ..declared
        }
    }

    /// The records of a claim as the ledger hands them over, for a user who
    /// has an account.
    pub open spec fn load_claim(self, declared: Claim) -> Claim
        recommends
            self.users.contains_key(declared.user),
    {
        Claim { config: self.config, user_account: self.users[declared.user], ..declared }
    }

    /// The ledger after one transaction. A release or a claim of a user
    /// without an account does not reach the transition and changes nothing.
    pub open spec fn apply(self, call: Call) -> Ledger {
        match call {
            Call::Stake(declared, now, bumps) => self.after_stake(
                self.load_stake(declared),
                now,
                bumps,
            ),
            Call::Unstake(declared, now) => if self.users.contains_key(declared.user) {
                self.after_unstake(self.load_unstake(declared), now)
            } else {
                self
            },
            Call::Claim(declared) => if self.users.contains_key(declared.user) {
                self.after_claim(self.load_claim(declared))
            } else {
                self
            },
        }
    }

    /// The ledger after the transactions in `calls`, first to last.
    pub open spec fn apply_all(self, calls: Seq<Call>) -> Ledger
        decreases calls.len(),
    {
        if calls.len() == 0 {
            self
        } else {
            self.apply_all(calls.drop_last()).apply(calls.last())
        }
    }

    /// The ledger before the first transaction: the configuration alone.
    pub open spec fn empty(config: StakeConfig) -> Ledger {
        Ledger { config, users: Map::empty(), stakes: Map::empty() }
    }

    /// Whether `records` are the ledger's: the configuration and the user's
    /// account, which exists, are as the ledger holds them.
    pub open spec fn holds_claim(self, records: Claim) -> bool {
        &&& records.config == self.config
        &&& Some(records.user_account) == self.user_account(records.user)
    }

    /// The ledger after a claim with its records.
    pub open spec fn after_claim(self, records: Claim) -> Ledger {
        Ledger { users: self.users.insert(records.user, records.after().user_account), ..self }
    }
}

/// The assets staked by a user are finitely many, in a ledger with finitely
/// many stake records.
pub proof fn staked_by_is_finite(ledger: Ledger, user: Address)
    requires
        ledger.stakes.dom().finite(),
    ensures
        ledger.staked_by(user).finite(),
        ledger.staked_by(user).len() <= ledger.stakes.dom().len(),
{
    ledger.stakes.dom().lemma_len_filter(|asset: Address| ledger.stakes[asset].owner == user);
    lemma_set_subset_finite(ledger.stakes.dom(), ledger.staked_by(user));
}

/// Storing a new stake record adds its asset to what its owner has staked,
/// and changes nothing for any other user.
proof fn staked_by_after_insert(ledger: Ledger, after: Ledger, asset: Address, record: StakeAccount)
    requires
        ledger.stakes.dom().finite(),
        !ledger.stakes.contains_key(asset),
        after.stakes == ledger.stakes.insert(asset, record),
    ensures
        after.staked_by(record.owner) == ledger.staked_by(record.owner).insert(asset),
        after.staked_by(record.owner).len() == ledger.staked_by(record.owner).len() + 1,
        forall|user: Address|
            user != record.owner ==> #[trigger] after.staked_by(user) == ledger.staked_by(user),
{
    staked_by_is_finite(ledger, record.owner);
    assert(after.staked_by(record.owner) =~= ledger.staked_by(record.owner).insert(asset));
    assert forall|user: Address| user != record.owner implies #[trigger] after.staked_by(user)
        == ledger.staked_by(user) by {
        assert(after.staked_by(user) =~= ledger.staked_by(user));
    }
}

/// Destroying a stake record takes its asset from what its owner has
/// staked, and changes nothing for any other user.
proof fn staked_by_after_remove(ledger: Ledger, after: Ledger, asset: Address)
    requires
        ledger.stakes.dom().finite(),
        ledger.stakes.contains_key(asset),
        after.stakes == ledger.stakes.remove(asset),
    ensures
        after.staked_by(ledger.stakes[asset].owner) == ledger.staked_by(
            ledger.stakes[asset].owner,
        ).remove(asset),
        ledger.staked_by(ledger.stakes[asset].owner).len() >= 1,
        after.staked_by(ledger.stakes[asset].owner).len() == ledger.staked_by(
            ledger.stakes[asset].owner,
        ).len() - 1,
        forall|user: Address|
            user != ledger.stakes[asset].owner ==> #[trigger] after.staked_by(user)
                == ledger.staked_by(user),
{
    let owner = ledger.stakes[asset].owner;
    staked_by_is_finite(ledger, owner);
    assert(ledger.staked_by(owner).contains(asset));
    assert(after.staked_by(owner) =~= ledger.staked_by(owner).remove(asset));
    assert forall|user: Address| user != owner implies #[trigger] after.staked_by(user)
        == ledger.staked_by(user) by {
        assert(after.staked_by(user) =~= ledger.staked_by(user));
    }
}

/// Storing records as they were found leaves the ledger as it was.
proof fn store_unchanged(ledger: Ledger, user: Address, asset: Address)
    ensures
        ledger.store(user, ledger.user_account(user), asset, ledger.stake_account(asset))
            == ledger,
{
    let after = ledger.store(user, ledger.user_account(user), asset, ledger.stake_account(asset));
    assert(after.users =~= ledger.users);
    assert(after.stakes =~= ledger.stakes);
}

/// A stake keeps the ledger consistent, whether it is refused or not.
pub proof fn stake_keeps_ledger_consistent(
    ledger: Ledger,
    records: Stake,
    now: i64,
    bumps: StakeBumps,
)
    requires
        ledger.consistent(),
        ledger.holds_stake(records),
    ensures
        ledger.after_stake(records, now, bumps).consistent(),
        ledger.after_stake(records, now, bumps).config == ledger.config,
        records.rejection() is Some ==> ledger.after_stake(records, now, bumps) == ledger,
{
    let after = ledger.after_stake(records, now, bumps);
    let user = records.user;
    let asset = records.asset.key;
    if records.rejection() is Some {
        store_unchanged(ledger, user, asset);
    } else {
        let record = records.after(now, bumps).stake_account.unwrap();
        staked_by_after_insert(ledger, after, asset, record);
        if !ledger.users.contains_key(user) {
            assert(ledger.staked_by(user) =~= Set::<Address>::empty());
        }
        assert forall|other: Address| #[trigger] after.users.contains_key(other) implies after.users[other].amount_staked
            == after.staked_by(other).len() by {
            if other != user {
                assert(ledger.users.contains_key(other));
            }
        }
    }
}

/// A release keeps the ledger consistent, whether it is refused or not.
pub proof fn unstake_keeps_ledger_consistent(ledger: Ledger, records: Unstake, now: i64)
    requires
        ledger.consistent(),
        ledger.holds_unstake(records),
    ensures
        ledger.after_unstake(records, now).consistent(),
        ledger.after_unstake(records, now).config == ledger.config,
        records.rejection(now) is Some ==> ledger.after_unstake(records, now) == ledger,
{
    let after = ledger.after_unstake(records, now);
    let user = records.user;
    let asset = records.asset.key;
    if records.rejection(now) is Some {
        store_unchanged(ledger, user, asset);
    } else {
        staked_by_after_remove(ledger, after, asset);
        assert forall|other: Address| #[trigger] after.users.contains_key(other) implies after.users[other].amount_staked
            == after.staked_by(other).len() by {
            if other != user {
                assert(ledger.users.contains_key(other));
            }
        }
    }
}

/// A claim keeps the ledger consistent, whether it is refused or not.
pub proof fn claim_keeps_ledger_consistent(ledger: Ledger, records: Claim)
    requires
        ledger.consistent(),
        ledger.holds_claim(records),
    ensures
        ledger.after_claim(records).consistent(),
        ledger.after_claim(records).config == ledger.config,
        ledger.after_claim(records).stakes == ledger.stakes,
{
    let after = ledger.after_claim(records);
    assert forall|other: Address| #[trigger] after.users.contains_key(other) implies after.users[other].amount_staked
        == after.staked_by(other).len() by {
        assert(after.staked_by(other) =~= ledger.staked_by(other));
        if other != records.user {
            assert(ledger.users.contains_key(other));
        }
    }
}

/// In a consistent ledger the counter is never found at zero by a release
/// that is otherwise in order: no release is refused with `Underflow`.
pub proof fn no_underflow_in_consistent_ledger(ledger: Ledger, records: Unstake, now: i64)
    requires
        ledger.consistent(),
        ledger.holds_unstake(records),
    ensures
        records.rejection(now) != Some(StakeError::Underflow),
        records.records_rejection() is None ==> records.user_account.amount_staked >= 1,
{
    if records.records_rejection() is None {
        let asset = records.asset.key;
        staked_by_is_finite(ledger, records.user);
        assert(ledger.staked_by(records.user).contains(asset));
    }
}

/// A ledger without user accounts and stake records is consistent.
pub proof fn empty_ledger_is_consistent(config: StakeConfig)
    ensures
        Ledger::empty(config).consistent(),
{
}

/// One transaction keeps the ledger consistent and its configuration as it
/// was.
pub proof fn transaction_keeps_ledger_consistent(ledger: Ledger, call: Call)
    requires
        ledger.consistent(),
    ensures
        ledger.apply(call).consistent(),
        ledger.apply(call).config == ledger.config,
{
    match call {
        Call::Stake(declared, now, bumps) => {
            stake_keeps_ledger_consistent(ledger, ledger.load_stake(declared), now, bumps);
        },
        Call::Unstake(declared, now) => {
            if ledger.users.contains_key(declared.user) {
                unstake_keeps_ledger_consistent(ledger, ledger.load_unstake(declared), now);
            }
        },
        Call::Claim(declared) => {
            if ledger.users.contains_key(declared.user) {
                claim_keeps_ledger_consistent(ledger, ledger.load_claim(declared));
            }
        },
    }
}

/// Whatever transactions have run since the ledger was empty, it is
/// consistent: every user's counter is the number of stake records that
/// name the user, and the configuration is the one it started with.
pub proof fn every_history_is_consistent(config: StakeConfig, calls: Seq<Call>)
    ensures
        Ledger::empty(config).apply_all(calls).consistent(),
        Ledger::empty(config).apply_all(calls).config == config,
    decreases calls.len(),
{
    if calls.len() > 0 {
        every_history_is_consistent(config, calls.drop_last());
        transaction_keeps_ledger_consistent(
            Ledger::empty(config).apply_all(calls.drop_last()),
            calls.last(),
        );
    }
}

/// Whatever transactions have run since the ledger was empty, the next
/// release is not refused with `Underflow`: a stake record never exists
/// without the count that goes with it.
pub proof fn no_underflow_in_any_history(
    config: StakeConfig,
    calls: Seq<Call>,
    declared: Unstake,
    now: i64,
)
    requires
        Ledger::empty(config).apply_all(calls).users.contains_key(declared.user),
    ensures
        Ledger::empty(config).apply_all(calls).load_unstake(declared).rejection(now) != Some(
            StakeError::Underflow,
        ),
{
    every_history_is_consistent(config, calls);
    let ledger = Ledger::empty(config).apply_all(calls);
    no_underflow_in_consistent_ledger(ledger, ledger.load_unstake(declared), now);
}

} // verus!
