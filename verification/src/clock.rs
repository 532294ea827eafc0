//! The current time, as the runtime reports it.

use vstd::prelude::*;

verus! {

/// The outside error of a failed read of the clock; it is carried through
/// and never looked into.
#[verifier::external_type_specification]
#[verifier::external_body]
pub struct ExProgramError(anchor_lang::solana_program::program_error::ProgramError);

/// Calls `Clock::get` of `anchor_lang` and picks the Unix timestamp of the
/// clock it returns. Nothing is believed of the outcome: the time is
/// whatever the runtime says, and outside a runtime the read fails.
#[verifier::external_body]
pub(crate) fn unix_timestamp() -> (r: Result<
    i64,
    anchor_lang::solana_program::program_error::ProgramError,
>) {
    match <anchor_lang::prelude::Clock as anchor_lang::prelude::SolanaSysvar>::get() {
        Ok(clock) => Ok(clock.unix_timestamp),
        Err(e) => Err(e),
    }
}

} // verus!
