//! The three transitions. Each takes the records that the transaction has
//! declared, changes them only if every check passes, and hands back the
//! request that the caller sends to the outside service.

pub mod claim;
pub mod stake;
pub mod unstake;
