//! A clock for monochrome displays: angle arithmetic, the geometry of the
//! clock face, the draw lists of the two clock faces, the refresh policy of
//! bistable panels, the wake-up delay of the scheduler and the state machine
//! of the main loop.

pub mod angle;
pub mod app_loop;
pub mod geometry;
pub mod refresh;
pub mod render;
pub mod scheduler;
pub mod time;

pub use angle::{hour_to_angle, sexagesimal_to_angle, Angle};
pub use app_loop::{Action, App, ClockError, DrawDateTime, Event, MyScreen, Phase};
pub use geometry::{create_face, polar, Face, Point, Rect, Size};
pub use refresh::{RefreshCadence, RefreshMode, RefreshPolicy};
pub use render::{render_frame, AnalogClock, Color, FaceStyle, MyClock, Primitive, Style};
pub use scheduler::wake_delay_ms;
pub use time::Timestamp;
