//! Wall-clock time of day as the clock reads it.

use vstd::prelude::*;

verus! {

/// A sampled local time of day.
///
/// `millis` counts the milliseconds since the last whole second; it reaches
/// 1000 and above only during a leap second.
#[derive(Clone, Copy, Debug, PartialEq, Eq, Structural)]
pub struct Timestamp {
    pub hour: u32,
    pub minute: u32,
    pub second: u32,
    pub millis: u32,
}

impl Timestamp {
    pub open spec fn wf(self) -> bool {
        self.hour < 24 && self.minute < 60 && self.second < 60 && self.millis < 2000
    }

    /// A timestamp at a whole second; returns `None` unless
    /// `hour < 24`, `minute < 60` and `second < 60`.
    pub fn from_hms(hour: u32, minute: u32, second: u32) -> (r: Option<Timestamp>)
        ensures
            r is Some <==> (hour < 24 && minute < 60 && second < 60),
            r matches Some(t) ==> t.wf() && t == (Timestamp { hour, minute, second, millis: 0 }),
    {
        if hour < 24 && minute < 60 && second < 60 {
            Some(Timestamp { hour, minute, second, millis: 0 })
        } else {
            None
        }
    }
}

} // verus!
