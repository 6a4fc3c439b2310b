//! The entropy source: a sample drawn from the host clock.
//!
//! The sample is the clock's second count modulo the entropy range. Anyone
//! who can predict or influence when a spin is processed can predict or
//! influence the sample; it is no source of secure randomness.

use vstd::prelude::*;
use anchor_lang::prelude::Clock;
use anchor_lang::prelude::ProgramError;
use anchor_lang::solana_program::sysvar::Sysvar;
use crate::config::ENTROPY_RANGE;
use crate::error::SpinError;

verus! {

/// The error type of `solana_program`, `ProgramError`. A value of it is
/// carried from the clock reading to the place that maps it, and nothing is
/// known of what it holds.
#[verifier::external_type_specification]
#[verifier::external_body]
pub struct ExProgramError(ProgramError);

/// Reads the host clock through `Clock::get` of `solana_program` and hands
/// back its `unix_timestamp`, or the error that `Clock::get` gave. Nothing is
/// claimed of the outcome: it depends on the host.
#[verifier::external_body]
fn clock_unix_timestamp() -> (r: Result<i64, ProgramError>) {
    Clock::get().map(|clock| clock.unix_timestamp)
}

/// The sample that a clock reading gives: the reading modulo the entropy
/// range, which lies in the range also for a reading before the epoch.
pub open spec fn spec_sample_from_timestamp(unix_timestamp: int) -> int {
    unix_timestamp % (ENTROPY_RANGE as int)
}

/// Reduces a clock reading to an entropy sample.
pub fn sample_from_timestamp(unix_timestamp: i64) -> (sample: u32)
    ensures
        sample == spec_sample_from_timestamp(unix_timestamp as int),
        sample < ENTROPY_RANGE,
{
    let range: i64 = ENTROPY_RANGE as i64;
    let remainder: i64 = unix_timestamp % range;
    if remainder < 0 {
        (remainder + range) as u32
    } else {
        remainder as u32
    }
}

/// Draws an entropy sample from the host clock. Whatever the clock says, a
/// sample that comes back lies in the entropy range; where the clock cannot
/// be read the failure is `EntropyUnavailable`.
pub fn clock_sample() -> (r: Result<u32, SpinError>)
    ensures
        r matches Ok(sample) ==> sample < ENTROPY_RANGE,
        r matches Err(e) ==> e == SpinError::EntropyUnavailable,
{
    sample_from_reading(clock_unix_timestamp())
}

/// What a reading of the clock comes to: a timestamp gives its sample, and a
/// reading that failed gives `EntropyUnavailable`, whatever the host's error.
pub open spec fn spec_sample_from_reading(reading: Result<i64, ProgramError>) -> Result<
    u32,
    SpinError,
> {
    match reading {
        Ok(unix_timestamp) => Ok(spec_sample_from_timestamp(unix_timestamp as int) as u32),
        Err(_) => Err(SpinError::EntropyUnavailable),
    }
}

/// Turns a reading of the clock into an entropy sample, or into
/// `EntropyUnavailable` where the reading failed.
pub fn sample_from_reading(reading: Result<i64, ProgramError>) -> (r: Result<u32, SpinError>)
    ensures
        r == spec_sample_from_reading(reading),
        r matches Ok(sample) ==> sample < ENTROPY_RANGE,
{
    match reading {
        Ok(unix_timestamp) => Ok(sample_from_timestamp(unix_timestamp)),
        Err(_) => Err(SpinError::EntropyUnavailable),
    }
}

} // verus!
