//! The records that the program keeps on the ledger.

use vstd::prelude::*;
use crate::address::Address;

verus! {

/// The program's configuration. One instance exists; the transitions only
/// read it.
#[derive(Clone, Copy, Debug, PartialEq, Eq, Structural)]
pub struct StakeConfig {
    /// Bump of the configuration's own derived address.
    pub bump: u8,
    /// Bump of the reward mint's derived address.
    pub rewards_bump: u8,
    /// Points earned for each full day that an asset stays staked.
    pub points_per_stake: u32,
    /// Seconds that an asset must stay staked before it can be released.
    pub freeze_period: u32,
}

/// One participant's balance and counter.
#[derive(Clone, Copy, Debug, PartialEq, Eq, Structural)]
pub struct UserAccount {
    /// Bump of this record's derived address.
    pub bump: u8,
    /// Points earned and not yet claimed.
    pub points: u32,
    /// Number of assets that the user has staked at present.
    pub amount_staked: u32,
}

/// The record of one staked asset. It exists from the moment the asset is
/// staked until it is released.
#[derive(Clone, Copy, Debug, PartialEq, Eq)]
pub struct StakeAccount {
    /// Bump of this record's derived address.
    pub bump: u8,
    /// The user who staked the asset.
    pub owner: Address,
    /// The staked asset.
    pub mint: Address,
    /// Time of staking, in seconds since the epoch.
    pub staked_at: i64,
}

/// What the ledger says of an account that another program keeps: where it
/// is, which program owns it, and whether it holds any data.
#[derive(Clone, Copy, Debug, PartialEq, Eq)]
pub struct LedgerAccount {
    /// The account's address.
    pub key: Address,
    /// The program that owns the account.
    pub owner: Address,
    /// Whether the account holds data.
    pub initialized: bool,
}

} // verus!
