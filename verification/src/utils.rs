//! Times.

use vstd::prelude::*;

verus! {

/// Thirty days, in seconds.
pub const DURATION_30DAYS_IN_SEC: u32 = 60 * 60 * 24 * 30;

/// The whole seconds of a time in nanoseconds, of which 32 bits are kept.
pub open spec fn spec_nano_to_sec(nano: u64) -> u32 {
    ((nano / 1_000_000_000) % 0x1_0000_0000) as u32
}

/// The whole seconds of a time in nanoseconds, of which 32 bits are kept.
pub fn nano_to_sec(nano: u64) -> (sec: u32)
    ensures
        sec == spec_nano_to_sec(nano),
{
    let whole: u64 = nano / 1_000_000_000;
    (whole % 0x1_0000_0000) as u32
}

} // verus!
