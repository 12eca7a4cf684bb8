//! Timing arithmetic for the DWT cycle-counter profiling.

use vstd::prelude::*;
use crate::beacon::config::SYSCLK_MHZ;

verus! {

/// Cycles to microseconds.
///
/// `sysclk_mhz` is by definition cycles per microsecond, so the division is
/// the whole conversion.
pub fn dwt_us(cycles: u32) -> (r: u32)
    ensures
        r == cycles / SYSCLK_MHZ,
{
    cycles / SYSCLK_MHZ
}

} // verus!
