//! The ledger's clock.

use vstd::prelude::*;
use anchor_lang::prelude::{Clock, ProgramError, SolanaSysvar};

verus! {

/// `ProgramError` of `anchor_lang`: why a call into the ledger's runtime
/// failed. Nothing is known of a value of it.
#[verifier::external_type_specification]
#[verifier::external_body]
pub struct ExProgramError(ProgramError);

/// Calls `Clock::get` of `anchor_lang`, which asks the ledger's runtime for
/// its clock, and hands back the clock's `unix_timestamp`: the time of the
/// current slot in seconds since the epoch, or the runtime's error. Nothing
/// is claimed of the time: it is whatever the runtime says. Where there is
/// no runtime the call fails.
#[verifier::external_body]
pub(crate) fn unix_timestamp() -> (r: Result<i64, ProgramError>) {
    Clock::get().map(|clock| clock.unix_timestamp)
}

} // verus!
