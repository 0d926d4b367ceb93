//! The main loop as a state machine.
//!
//! Each cycle runs `WAIT_TICK -> SAMPLE_TIME -> RENDER -> CLASSIFY_REFRESH ->
//! PUSH` and starts over. The machine decides; its driver performs each
//! action (waits for the tick, reads the clock, clears and draws, pushes the
//! frame) and reports the outcome as the next event. Any failure halts the
//! machine for good: a missed tick or a half-pushed frame is never papered
//! over.

use vstd::prelude::*;
use crate::geometry::Rect;
use crate::refresh::{mode_for, RefreshCadence, RefreshMode, RefreshPolicy};
use crate::render::{frame, render_frame, renderable, FaceStyle, Primitive};
use crate::time::Timestamp;

verus! {

/// Why the loop stopped.
#[derive(Clone, Copy, Debug, PartialEq, Eq, Structural)]
pub enum ClockError {
    /// The wait for the next tick failed or its channel closed.
    Timer,
    /// Clearing or drawing the frame failed.
    Render,
    /// The display did not take the frame.
    Push,
}

/// What the loop is waiting for.
#[derive(Clone, Copy, Debug, PartialEq, Eq, Structural)]
pub enum Phase {
    AwaitingTick,
    AwaitingTime,
    /// The frame for the sampled time is being drawn.
    AwaitingRender(Timestamp),
    AwaitingPush,
    Halted(ClockError),
}

/// The outcome of the last action, reported by the driver.
#[derive(Clone, Copy, Debug, PartialEq, Eq, Structural)]
pub enum Event {
    Tick,
    TimerFailed,
    TimeSampled(Timestamp),
    Rendered,
    RenderFailed,
    Pushed,
    PushFailed,
}

/// What the driver is to do next.
#[derive(Debug)]
pub enum Action {
    /// Block until the scheduler's next tick.
    WaitTick,
    /// Read the local time.
    SampleTime,
    /// Draw the primitives in order; the first clears the surface.
    Render(Vec<Primitive>),
    /// Push the drawn frame to the display with this refresh mode.
    Push(RefreshMode),
    /// Stop; the error is to be reported.
    Halt(ClockError),
}

/// Whether the loop, in `phase`, can take `event`.
pub open spec fn accepts(phase: Phase, event: Event) -> bool {
    match phase {
        Phase::AwaitingTick => event is Tick || event is TimerFailed,
        Phase::AwaitingTime => event matches Event::TimeSampled(t) && t.wf(),
        Phase::AwaitingRender(_) => event is Rendered || event is RenderFailed,
        Phase::AwaitingPush => event is Pushed || event is PushFailed,
        Phase::Halted(_) => false,
    }
}

/// The phase after `event`.
pub open spec fn next_phase(phase: Phase, event: Event) -> Phase {
    match event {
        Event::Tick => Phase::AwaitingTime,
        Event::TimerFailed => Phase::Halted(ClockError::Timer),
        Event::TimeSampled(t) => Phase::AwaitingRender(t),
        Event::Rendered => Phase::AwaitingPush,
        Event::RenderFailed => Phase::Halted(ClockError::Render),
        Event::Pushed => Phase::AwaitingTick,
        Event::PushFailed => Phase::Halted(ClockError::Push),
    }
}

/// The action the loop asks for after `event`, taken in `phase`.
pub open spec fn action_for(
    style: FaceStyle,
    bounds: Rect,
    cadence: RefreshCadence,
    phase: Phase,
    event: Event,
    a: Action,
) -> bool {
    match event {
        Event::Tick => a is SampleTime,
        Event::TimeSampled(t) => a matches Action::Render(f) && f@ == frame(style, t, bounds),
        Event::Rendered => match phase {
            Phase::AwaitingRender(t) => a matches Action::Push(m) && m == mode_for(cadence, t),
            _ => false,
        },
        Event::Pushed => a is WaitTick,
        Event::TimerFailed => a matches Action::Halt(e) && e == ClockError::Timer,
        Event::RenderFailed => a matches Action::Halt(e) && e == ClockError::Render,
        Event::PushFailed => a matches Action::Halt(e) && e == ClockError::Push,
    }
}

/// The main loop's state: the face it draws, the surface it draws on, its
/// refresh policy, and where it is in the cycle.
#[derive(Debug)]
pub struct App {
    pub style: FaceStyle,
    pub bounds: Rect,
    pub policy: RefreshPolicy,
    pub phase: Phase,
}

impl App {
    pub open spec fn wf(self) -> bool {
        renderable(self.bounds)
    }

    /// A loop about to wait for its first tick; `None` when no face fits the
    /// surface (each side at least twice the margin, coordinates within
    /// `COORD_LIMIT`).
    pub fn new(style: FaceStyle, bounds: Rect, cadence: RefreshCadence) -> (r: Option<App>)
        ensures
            r is Some <==> renderable(bounds),
            r matches Some(app) ==> app.wf() && app.style == style && app.bounds == bounds
                && app.policy.cadence == cadence && app.policy.last_full is None
                && app.phase == Phase::AwaitingTick,
    {
        let fits: bool = -crate::geometry::COORD_LIMIT <= bounds.top_left.x
            && bounds.top_left.x <= crate::geometry::COORD_LIMIT
            && -crate::geometry::COORD_LIMIT <= bounds.top_left.y
            && bounds.top_left.y <= crate::geometry::COORD_LIMIT
            && bounds.size.width <= crate::geometry::COORD_LIMIT as u32
            && bounds.size.height <= crate::geometry::COORD_LIMIT as u32
            && bounds.size.width >= 2 * crate::geometry::MARGIN
            && bounds.size.height >= 2 * crate::geometry::MARGIN;
        if fits {
            Some(App {
                style,
                bounds,
                policy: RefreshPolicy::new(cadence),
                phase: Phase::AwaitingTick,
            })
        } else {
            None
        }
    }

    /// Whether the loop, as it stands, can take `event`: the outcome of the
    /// action it last asked for, with a valid time when that is a sample.
    pub fn expects(&self, event: &Event) -> (r: bool)
        ensures
            r == accepts(self.phase, *event),
    {
        match self.phase {
            Phase::AwaitingTick => matches!(event, Event::Tick | Event::TimerFailed),
            Phase::AwaitingTime => match event {
                Event::TimeSampled(t) => t.hour < 24 && t.minute < 60 && t.second < 60 && t.millis < 2000,
                _ => false,
            },
            Phase::AwaitingRender(_) => matches!(event, Event::Rendered | Event::RenderFailed),
            Phase::AwaitingPush => matches!(event, Event::Pushed | Event::PushFailed),
            Phase::Halted(_) => false,
        }
    }

    /// Takes the outcome of the last action and returns the next one.
    pub fn step(&mut self, event: Event) -> (a: Action)
        requires
            old(self).wf(),
            accepts(old(self).phase, event),
        ensures
            final(self).wf(),
            final(self).style == old(self).style,
            final(self).bounds == old(self).bounds,
            final(self).policy.cadence == old(self).policy.cadence,
            final(self).phase == next_phase(old(self).phase, event),
            action_for(old(self).style, old(self).bounds, old(self).policy.cadence, old(self).phase, event, a),
            final(self).policy.last_full == (match (old(self).phase, event) {
                (Phase::AwaitingRender(t), Event::Rendered) =>
                    if mode_for(old(self).policy.cadence, t) == RefreshMode::Full {
                        Some(t)
                    } else {
                        old(self).policy.last_full
                    },
                _ => old(self).policy.last_full,
            }),
    {
        match event {
            Event::Tick => {
                self.phase = Phase::AwaitingTime;
                Action::SampleTime
            },
            Event::TimerFailed => {
                self.phase = Phase::Halted(ClockError::Timer);
                Action::Halt(ClockError::Timer)
            },
            Event::TimeSampled(t) => {
                self.phase = Phase::AwaitingRender(t);
                Action::Render(render_frame(self.style, &t, &self.bounds))
            },
            Event::Rendered => {
                match self.phase {
                    Phase::AwaitingRender(t) => {
                        let mode = self.policy.classify(t);
                        self.phase = Phase::AwaitingPush;
                        Action::Push(mode)
                    },
                    _ => {
                        Action::Halt(ClockError::Render)
                    },
                }
            },
            Event::RenderFailed => {
                self.phase = Phase::Halted(ClockError::Render);
                Action::Halt(ClockError::Render)
            },
            Event::Pushed => {
                self.phase = Phase::AwaitingTick;
                Action::WaitTick
            },
            Event::PushFailed => {
                self.phase = Phase::Halted(ClockError::Push);
                Action::Halt(ClockError::Push)
            },
        }
    }
}

/// The display sink: takes a finished frame buffer and shows it with the
/// given refresh mode. Implemented by the hardware and simulator adapters.
pub trait MyScreen<B> {
    fn push_frame(&mut self, buffer: &B, mode: RefreshMode) -> Result<(), ClockError>;
}

/// A surface that clears itself and draws a frame of primitives.
pub trait DrawDateTime {
    fn draw_current_date_time(&mut self, primitives: &Vec<Primitive>) -> Result<(), ClockError>;
}

} // verus!
