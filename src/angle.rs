//! Angles of the clock face.
//!
//! Every angle a clock face needs is a whole number of minute marks, so an
//! angle is kept exactly as a count of sixtieths of a full turn, measured
//! clockwise from the 12 o'clock position (0 is the top, 15 is 3 o'clock).

use vstd::prelude::*;

verus! {

/// Number of steps in a full turn.
pub const STEPS_PER_TURN: u32 = 60;

/// Steps between two neighbouring hour positions.
pub const STEPS_PER_HOUR: u32 = 5;

/// A clockwise rotation from 12 o'clock, in sixtieths of a turn.
///
/// Values of 60 and above are allowed; two angles denote the same direction
/// when their steps agree modulo 60.
#[derive(Clone, Copy, Debug, PartialEq, Eq, Structural)]
pub struct Angle {
    pub steps: u32,
}

impl Angle {
    /// The direction of the angle, reduced to one turn.
    pub open spec fn direction(self) -> int {
        self.steps as int % STEPS_PER_TURN as int
    }

    /// Two angles point the same way.
    pub open spec fn equivalent(self, other: Angle) -> bool {
        self.direction() == other.direction()
    }
}

/// The hour hand's angle for an hour of the day, in 12-hour form.
pub open spec fn hour_angle(hour: int) -> Angle {
    Angle { steps: ((hour % 12) * STEPS_PER_HOUR as int) as u32 }
}

/// The angle of a minute or second value: one step per unit.
pub open spec fn sexagesimal_angle(value: int) -> Angle {
    Angle { steps: value as u32 }
}

/// Converts an hour (24-hour or 12-hour form) into the hour hand's angle.
pub fn hour_to_angle(hour: u32) -> (r: Angle)
    ensures
        r == hour_angle(hour as int),
        r.steps < STEPS_PER_TURN,
{
    let h: u32 = hour % 12;
    Angle { steps: h * STEPS_PER_HOUR }
}

/// Converts a minute or second value into an angle.
pub fn sexagesimal_to_angle(value: u32) -> (r: Angle)
    ensures
        r == sexagesimal_angle(value as int),
        r.steps == value,
{
    Angle { steps: value }
}

/// The hour hand points the same way for an hour and for that hour taken
/// modulo 12.
pub proof fn lemma_hour_angle_twelve_hour_form(h: int)
    requires
        0 <= h < 24,
    ensures
        hour_angle(h) == hour_angle(h % 12),
{
}

/// Minute and second angles start at the top, grow strictly with the value,
/// and come back to the top after sixty units.
pub proof fn lemma_sexagesimal_angle_monotonic(v: int, w: int)
    requires
        0 <= v < w <= 60,
    ensures
        sexagesimal_angle(0).steps == 0,
        sexagesimal_angle(v).steps < sexagesimal_angle(w).steps,
        sexagesimal_angle(60).equivalent(sexagesimal_angle(0)),
{
}

} // verus!
