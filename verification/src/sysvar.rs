//! Reading the cluster clock.
use vstd::prelude::*;
use anchor_lang::prelude::ProgramError;
use anchor_lang::prelude::SolanaSysvar;
use crate::error::InstructionError;

verus! {

#[verifier::external_type_specification]
#[verifier::external_body]
pub struct ExProgramError(ProgramError);

/// The fields of the clock sysvar that the programs read.
#[derive(Clone, Copy, Debug, PartialEq, Eq)]
pub struct ClockReading {
    pub slot: u64,
    pub unix_timestamp: i64,
}

/// Calls `Clock::get` (the clock sysvar of `solana_program`, through
/// `anchor_lang`). The slot and the time depend on the cluster, so nothing is
/// claimed of either; off-chain the call fails.
#[verifier::external_body]
fn clock_get() -> (r: Result<ClockReading, ProgramError>) {
    match anchor_lang::prelude::Clock::get() {
        Ok(c) => Ok(ClockReading { slot: c.slot, unix_timestamp: c.unix_timestamp }),
        Err(e) => Err(e),
    }
}

/// Reads the clock; a failure to read it becomes `ClockUnavailable`.
pub fn read_clock() -> (r: Result<ClockReading, InstructionError>)
    ensures
        r is Err ==> r == Err::<ClockReading, InstructionError>(InstructionError::ClockUnavailable),
{
    match clock_get() {
        Ok(c) => Ok(c),
        Err(_) => Err(InstructionError::ClockUnavailable),
    }
}

} // verus!
