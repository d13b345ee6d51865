//! Thresholds of the reports.

use vstd::prelude::*;

verus! {

/// Total times above this many minutes are highlighted.
pub const BIG_TIME_MIN: u128 = 1;

/// Nanoseconds in one minute.
pub const NANOSECONDS_PER_MINUTE: u128 = 60_000_000_000;

/// Decimal digits of the times printed in the performance tables.
pub const TIME_DIGITS: usize = 3;

/// Whether a total time (nanoseconds) is above the highlighting threshold.
pub open spec fn is_big_time(nanoseconds: u128) -> bool {
    nanoseconds > BIG_TIME_MIN * NANOSECONDS_PER_MINUTE
}

/// Tells whether a total time (nanoseconds) is above the highlighting threshold.
pub fn big_time(nanoseconds: u128) -> (b: bool)
    ensures
        b == is_big_time(nanoseconds),
{
    nanoseconds > BIG_TIME_MIN * NANOSECONDS_PER_MINUTE
}

} // verus!
