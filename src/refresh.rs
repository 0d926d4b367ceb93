//! Choice between a full and a quick refresh of a bistable panel.
//!
//! Quick refreshes leave a faint ghost image behind; a full refresh at fixed
//! moments of the day wipes it. The choice depends on the time alone, never on
//! what is drawn.

use vstd::prelude::*;
use crate::time::Timestamp;

verus! {

/// How a frame is pushed to the panel.
#[derive(Clone, Copy, Debug, PartialEq, Eq, Structural)]
pub enum RefreshMode {
    /// Clears all residual ink; slow.
    Full,
    /// Updates changed pixels only; fast, but ghosts accumulate.
    Quick,
}

/// The moments at which a full refresh is forced.
#[derive(Clone, Copy, Debug, PartialEq, Eq, Structural)]
pub enum RefreshCadence {
    /// At every whole minute (`hh:mm:00`).
    EveryMinute,
    /// At the top of every hour (`hh:00:00`).
    EveryHour,
    /// At 00:00:00, 06:00:00, 12:00:00 and 18:00:00.
    EverySixHours,
}

/// Whether `t` is a moment at which `cadence` forces a full refresh.
pub open spec fn forces_full(cadence: RefreshCadence, t: Timestamp) -> bool {
    match cadence {
        RefreshCadence::EveryMinute => t.second == 0,
        RefreshCadence::EveryHour => t.minute == 0 && t.second == 0,
        RefreshCadence::EverySixHours => t.hour % 6 == 0 && t.minute == 0 && t.second == 0,
    }
}

/// The refresh mode of a frame shown at `t`.
pub open spec fn mode_for(cadence: RefreshCadence, t: Timestamp) -> RefreshMode {
    if forces_full(cadence, t) { RefreshMode::Full } else { RefreshMode::Quick }
}

/// The refresh decision and what it remembers: the time of the last full
/// refresh, if any.
#[derive(Clone, Copy, Debug)]
pub struct RefreshPolicy {
    pub cadence: RefreshCadence,
    pub last_full: Option<Timestamp>,
}

impl RefreshPolicy {
    /// A policy that has not yet seen a full refresh.
    pub fn new(cadence: RefreshCadence) -> (r: RefreshPolicy)
        ensures
            r.cadence == cadence,
            r.last_full is None,
    {
        RefreshPolicy { cadence, last_full: None }
    }

    /// Classifies the frame shown at `t` and records it when it is full.
    pub fn classify(&mut self, t: Timestamp) -> (r: RefreshMode)
        ensures
            r == mode_for(old(self).cadence, t),
            final(self).cadence == old(self).cadence,
            final(self).last_full == (if r == RefreshMode::Full {
                Some(t)
            } else {
                old(self).last_full
            }),
    {
        let full: bool = match self.cadence {
            RefreshCadence::EveryMinute => t.second == 0,
            RefreshCadence::EveryHour => t.minute == 0 && t.second == 0,
            RefreshCadence::EverySixHours => t.hour % 6 == 0 && t.minute == 0 && t.second == 0,
        };
        if full {
            self.last_full = Some(t);
            RefreshMode::Full
        } else {
            RefreshMode::Quick
        }
    }
}

/// With the hourly cadence a frame is refreshed fully exactly at `hh:00:00`;
/// every other second, those of the first minute of the hour included, is
/// quick.
pub proof fn lemma_hourly_full_at_top_of_hour(t: Timestamp)
    requires
        t.wf(),
    ensures
        mode_for(RefreshCadence::EveryHour, t) == RefreshMode::Full <==> (t.minute == 0 && t.second == 0),
        t.minute == 0 && t.second != 0 ==> mode_for(RefreshCadence::EveryHour, t) == RefreshMode::Quick,
{
}

/// Whatever the cadence, the half-day rollovers 00:00:00 and 12:00:00 are
/// refreshed fully, so ghosting never outlives twelve hours.
pub proof fn lemma_full_at_half_day_rollover(cadence: RefreshCadence, t: Timestamp)
    requires
        t.wf(),
        t.hour % 12 == 0,
        t.minute == 0,
        t.second == 0,
    ensures
        mode_for(cadence, t) == RefreshMode::Full,
{
}

} // verus!
