//! Conversions from hardware cycle counts to wall-clock durations, used
//! when profiling the packet path.

use vstd::prelude::*;

verus! {

/// The hardware cycle frequency the conversions assume, in cycles per
/// second.
pub const CLOCK_FREQ: u64 = 160_000_000;

/// Converts a cycle count to microseconds at `CLOCK_FREQ`.
pub fn cycles_to_microseconds(cycles: u32) -> (r: u64)
    ensures
        r == cycles as int * 1_000_000 / (CLOCK_FREQ as int),
{
    (cycles as u64 * 1_000_000) / CLOCK_FREQ
}

/// Converts a cycle count to nanoseconds at `CLOCK_FREQ`.
pub fn cycles_to_nanoseconds(cycles: u32) -> (r: u64)
    ensures
        r == cycles as int * 1_000_000_000 / (CLOCK_FREQ as int),
{
    (cycles as u64 * 1_000_000_000) / CLOCK_FREQ
}

} // verus!
