//! The reasons for which a transition is refused.

use vstd::prelude::*;

verus! {

/// Why a transition was refused. A refused transition changes no record and
/// asks nothing of an outside service; the caller may try again later with
/// other inputs.
#[derive(Clone, Copy, Debug, PartialEq, Eq, Structural)]
pub enum StakeError {
    /// The asset is not held by the asset registry, the stake record is
    /// missing or names another user or another asset, or there is nothing
    /// to claim.
    InvalidAsset,
    /// The collection is not held by the asset registry.
    InvalidCollection,
    /// The asset's account in the registry holds no data.
    AssetNotInitialized,
    /// The collection's account in the registry holds no data.
    CollectionNotInitialized,
    /// The asset has not been staked for the configured minimum time.
    FreezePeriodNotPassed,
    /// A balance or a counter would exceed what its field can hold.
    Overflow,
    /// The counter of staked assets is zero and cannot be lowered.
    Underflow,
    /// The ledger's clock could not be read.
    ClockUnavailable,
}

} // verus!
