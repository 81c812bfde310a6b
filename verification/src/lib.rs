//! Verified core of an NFT staking program.
//!
//! A user stakes an asset, which freezes it; while it is staked it earns
//! points by the day; the user releases it after a minimum time and later
//! turns the points into reward tokens. This crate holds the records, the
//! seeds of the program's derived authorities, the three transitions, and
//! the proofs of what holds of them. Of the world outside it reads the
//! ledger's clock and nothing else: the requests to the asset registry and
//! to the token program are returned to the caller, who carries them out.

pub mod address;
pub mod authority;
pub mod clock;
pub mod errors;
pub mod instructions;
pub mod laws;
pub mod ledger;
pub mod rewards;
pub mod state;
