//! The wake-up delay of the scheduler.
//!
//! Each cycle sleeps until the next whole second of the clock, so time spent
//! rendering and pushing a frame never accumulates as drift.

use vstd::prelude::*;

verus! {

/// Milliseconds in a second.
pub const MILLIS_PER_SECOND: u32 = 1000;

/// The wait, in milliseconds, from a time `subsec_millis` past a second
/// boundary to the next boundary.
pub open spec fn wake_delay(subsec_millis: int) -> int {
    MILLIS_PER_SECOND - subsec_millis % MILLIS_PER_SECOND as int
}

/// The exact complement of the sub-second part to a full second: between 1
/// and 1000 milliseconds, landing on a whole second.
pub fn wake_delay_ms(subsec_millis: u32) -> (r: u32)
    ensures
        r == wake_delay(subsec_millis as int),
        1 <= r <= MILLIS_PER_SECOND,
        (subsec_millis + r) % MILLIS_PER_SECOND as int == 0,
{
    MILLIS_PER_SECOND - subsec_millis % MILLIS_PER_SECOND
}

} // verus!
