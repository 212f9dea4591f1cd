//! The clock of the runtime.

use vstd::prelude::*;
use anchor_lang::prelude::SolanaSysvar;

verus! {

/// The error type of the runtime, as `anchor_lang` exports it. Nothing is
/// known of a value of it here.
#[verifier::external_type_specification]
#[verifier::external_body]
pub struct ExProgramError(anchor_lang::prelude::ProgramError);

/// Reads the current time, in seconds since the epoch, with
/// `anchor_lang::prelude::Clock::get` and takes the reading's
/// `unix_timestamp`. Nothing is claimed of the result: the runtime decides
/// whether there is a reading and what it is.
#[verifier::external_body]
pub(crate) fn unix_timestamp() -> (reading: Result<i64, anchor_lang::prelude::ProgramError>) {
    match anchor_lang::prelude::Clock::get() {
        Ok(clock) => Ok(clock.unix_timestamp),
        Err(error) => Err(error),
    }
}

} // verus!
