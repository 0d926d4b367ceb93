//! Pixel geometry: points, rectangles, the clock face inscribed in a surface,
//! and the polar-to-pixel conversion.
//!
//! Sines are taken from a fixed-point table of the sixty minute positions,
//! scaled by `SINE_SCALE`; the pixel offset of a polar point is truncated
//! toward zero, as a cast from a real value to an integer does.

use vstd::prelude::*;
use crate::angle::{Angle, STEPS_PER_TURN};

verus! {

/// Bound on the magnitude of surface coordinates and sizes.
pub const COORD_LIMIT: i32 = 268435456;

/// Bound on the magnitude of a radius adjustment handed to `polar`.
pub const DELTA_LIMIT: i32 = 1048576;

/// Gap between the clock face and the border of the surface.
pub const MARGIN: u32 = 10;

/// Fixed-point scale of the sine table: 1.0 is `SINE_SCALE`.
pub const SINE_SCALE: i64 = 1000000;

/// Steps in a quarter turn.
pub const QUARTER: u32 = 15;

/// A pixel position; `y` grows downward.
#[derive(Clone, Copy, Debug, PartialEq, Eq, Structural)]
pub struct Point {
    pub x: i32,
    pub y: i32,
}

/// A pixel size.
#[derive(Clone, Copy, Debug, PartialEq, Eq, Structural)]
pub struct Size {
    pub width: u32,
    pub height: u32,
}

/// An axis-aligned rectangle given by its top-left corner and its size.
#[derive(Clone, Copy, Debug, PartialEq, Eq, Structural)]
pub struct Rect {
    pub top_left: Point,
    pub size: Size,
}

/// The circle of the clock face.
#[derive(Clone, Copy, Debug, PartialEq, Eq, Structural)]
pub struct Face {
    pub center: Point,
    pub diameter: u32,
}

impl Rect {
    /// The rectangle lies within the coordinate range this crate computes in.
    pub open spec fn wf(self) -> bool {
        -COORD_LIMIT <= self.top_left.x <= COORD_LIMIT
        && -COORD_LIMIT <= self.top_left.y <= COORD_LIMIT
        && self.size.width <= COORD_LIMIT
        && self.size.height <= COORD_LIMIT
    }

    /// A face fits in the rectangle with the margin on every side.
    pub open spec fn holds_face(self) -> bool {
        self.size.width >= 2 * MARGIN && self.size.height >= 2 * MARGIN
    }

    pub open spec fn spec_center(self) -> Point {
        Point {
            x: (self.top_left.x + center_offset(self.size.width)) as i32,
            y: (self.top_left.y + center_offset(self.size.height)) as i32,
        }
    }
}

impl Face {
    pub open spec fn wf(self) -> bool {
        -2 * COORD_LIMIT <= self.center.x <= 2 * COORD_LIMIT
        && -2 * COORD_LIMIT <= self.center.y <= 2 * COORD_LIMIT
        && self.diameter <= COORD_LIMIT
    }
}

/// Offset from the first pixel of a span to its middle pixel, rounding down.
pub open spec fn center_offset(len: u32) -> int {
    if len == 0 { 0 } else { (len - 1) / 2 }
}

/// The face inscribed in a surface: centred, with its diameter the shorter
/// side less a margin on both ends.
pub open spec fn face_of(bounds: Rect) -> Face {
    Face {
        center: bounds.spec_center(),
        diameter: (min_u32(bounds.size.width, bounds.size.height) - 2 * MARGIN) as u32,
    }
}

pub open spec fn min_u32(a: u32, b: u32) -> u32 {
    if a <= b { a } else { b }
}

/// Sine of `r` steps, `0 <= r <= 15`, in units of `1 / SINE_SCALE`, rounded
/// to the nearest unit.
pub open spec fn quarter_sine(r: int) -> int {
    if r == 0 { 0 }
    else if r == 1 { 104528 }
    else if r == 2 { 207912 }
    else if r == 3 { 309017 }
    else if r == 4 { 406737 }
    else if r == 5 { 500000 }
    else if r == 6 { 587785 }
    else if r == 7 { 669131 }
    else if r == 8 { 743145 }
    else if r == 9 { 809017 }
    else if r == 10 { 866025 }
    else if r == 11 { 913545 }
    else if r == 12 { 951057 }
    else if r == 13 { 978148 }
    else if r == 14 { 994522 }
    else { 1000000 }
}

/// Sine of a direction of `k` steps, `0 <= k < 60`, by the symmetries of the
/// four quadrants.
pub open spec fn sine_steps(k: int) -> int {
    let q = k / QUARTER as int;
    let r = k % QUARTER as int;
    if q == 0 { quarter_sine(r) }
    else if q == 1 { quarter_sine(QUARTER - r) }
    else if q == 2 { -quarter_sine(r) }
    else { -quarter_sine(QUARTER - r) }
}

/// Cosine of a direction of `k` steps: the sine a quarter turn further on.
pub open spec fn cosine_steps(k: int) -> int {
    sine_steps((k + QUARTER) % STEPS_PER_TURN as int)
}

/// `n / m` rounded toward zero, for `m > 0`.
pub open spec fn div_toward_zero(n: int, m: int) -> int {
    if n >= 0 { n / m } else { -((-n) / m) }
}

/// The component `ratio * radius`, truncated toward zero, of a polar offset;
/// `ratio` is in units of `1 / SINE_SCALE` and `twice_radius` is twice the
/// radius in pixels.
pub open spec fn polar_component(ratio: int, twice_radius: int) -> int {
    div_toward_zero(ratio * twice_radius, 2 * SINE_SCALE)
}

/// Twice the radius of a polar point: the diameter plus twice the radius
/// adjustment.
pub open spec fn twice_radius(diameter: u32, radius_delta: i32) -> int {
    diameter + 2 * radius_delta
}

pub open spec fn polar_x(center: Point, diameter: u32, angle: Angle, radius_delta: i32) -> int {
    center.x + polar_component(sine_steps(angle.direction()), twice_radius(diameter, radius_delta))
}

pub open spec fn polar_y(center: Point, diameter: u32, angle: Angle, radius_delta: i32) -> int {
    center.y - polar_component(cosine_steps(angle.direction()), twice_radius(diameter, radius_delta))
}

/// The point at `angle` and at distance `diameter / 2 + radius_delta` from
/// `center`: `center + r * (sin a, -cos a)`.
pub open spec fn polar_point(center: Point, diameter: u32, angle: Angle, radius_delta: i32) -> Point {
    Point {
        x: polar_x(center, diameter, angle, radius_delta) as i32,
        y: polar_y(center, diameter, angle, radius_delta) as i32,
    }
}

/// Arguments of `polar` for which the result stays in `i32`.
pub open spec fn polar_in_range(center: Point, diameter: u32, radius_delta: i32) -> bool {
    -2 * COORD_LIMIT <= center.x <= 2 * COORD_LIMIT
    && -2 * COORD_LIMIT <= center.y <= 2 * COORD_LIMIT
    && diameter <= COORD_LIMIT
    && -DELTA_LIMIT <= radius_delta <= DELTA_LIMIT
}

/// The centre pixel of a rectangle: the top-left corner plus half the size
/// less one, rounded down.
pub fn rect_center(bounds: &Rect) -> (r: Point)
    requires
        bounds.wf(),
    ensures
        r == bounds.spec_center(),
        r.x == bounds.top_left.x + center_offset(bounds.size.width),
        r.y == bounds.top_left.y + center_offset(bounds.size.height),
{
    let dx: u32 = if bounds.size.width == 0 { 0 } else { (bounds.size.width - 1) / 2 };
    let dy: u32 = if bounds.size.height == 0 { 0 } else { (bounds.size.height - 1) / 2 };
    Point { x: bounds.top_left.x + dx as i32, y: bounds.top_left.y + dy as i32 }
}

/// The clock face for a surface: centred in it, with a diameter of the
/// shorter side less `MARGIN` on both ends.
pub fn create_face(bounds: &Rect) -> (r: Face)
    requires
        bounds.wf(),
        bounds.holds_face(),
    ensures
        r == face_of(*bounds),
        r.wf(),
        r.diameter == min_u32(bounds.size.width, bounds.size.height) - 2 * MARGIN,
{
    let side: u32 = if bounds.size.width <= bounds.size.height {
        bounds.size.width
    } else {
        bounds.size.height
    };
    Face { center: rect_center(bounds), diameter: side - 2 * MARGIN }
}

fn quarter_sine_value(r: u32) -> (s: i64)
    requires
        r <= QUARTER,
    ensures
        s == quarter_sine(r as int),
        0 <= s <= SINE_SCALE,
{
    match r {
        0 => 0,
        1 => 104528,
        2 => 207912,
        3 => 309017,
        4 => 406737,
        5 => 500000,
        6 => 587785,
        7 => 669131,
        8 => 743145,
        9 => 809017,
        10 => 866025,
        11 => 913545,
        12 => 951057,
        13 => 978148,
        14 => 994522,
        _ => 1000000,
    }
}

/// Sine of a direction of `k` steps, in units of `1 / SINE_SCALE`.
pub fn sine_of_steps(k: u32) -> (s: i64)
    requires
        k < STEPS_PER_TURN,
    ensures
        s == sine_steps(k as int),
        -SINE_SCALE <= s <= SINE_SCALE,
{
    let q: u32 = k / QUARTER;
    let r: u32 = k % QUARTER;
    if q == 0 {
        quarter_sine_value(r)
    } else if q == 1 {
        quarter_sine_value(QUARTER - r)
    } else if q == 2 {
        -quarter_sine_value(r)
    } else {
        -quarter_sine_value(QUARTER - r)
    }
}

/// `ratio * twice_radius / (2 * SINE_SCALE)`, truncated toward zero.
fn scale_component(ratio: i64, twice_radius: i64) -> (c: i64)
    requires
        -SINE_SCALE <= ratio <= SINE_SCALE,
        -2 * (COORD_LIMIT + DELTA_LIMIT) <= twice_radius <= 2 * (COORD_LIMIT + DELTA_LIMIT),
    ensures
        c == polar_component(ratio as int, twice_radius as int),
        -(COORD_LIMIT + DELTA_LIMIT) <= c <= COORD_LIMIT + DELTA_LIMIT,
{
    assert(-538968064000000 <= ratio * twice_radius <= 538968064000000) by (nonlinear_arith)
        requires
            -1000000 <= ratio <= 1000000,
            -538968064 <= twice_radius <= 538968064,
    ;
    let n: i64 = ratio * twice_radius;
    let m: i64 = 2 * SINE_SCALE;
    let c: i64 = if n >= 0 {
        n / m
    } else {
        -((-n) / m)
    };
    assert(-(COORD_LIMIT + DELTA_LIMIT) <= c <= COORD_LIMIT + DELTA_LIMIT) by (nonlinear_arith)
        requires
            -538968064000000 <= n <= 538968064000000,
            m == 2000000,
            n >= 0 ==> c == n as int / m as int,
            n < 0 ==> c == -((-n as int) / m as int),
    ;
    c
}

/// Converts a polar coordinate into a pixel: the point at `angle` from
/// 12 o'clock and at distance `diameter / 2 + radius_delta` from `center`.
/// A negative `radius_delta` moves inward from the edge of a circle of that
/// diameter, a positive one outward.
pub fn polar(center: Point, diameter: u32, angle: Angle, radius_delta: i32) -> (p: Point)
    requires
        polar_in_range(center, diameter, radius_delta),
    ensures
        p == polar_point(center, diameter, angle, radius_delta),
        p.x == polar_x(center, diameter, angle, radius_delta),
        p.y == polar_y(center, diameter, angle, radius_delta),
{
    let k: u32 = angle.steps % STEPS_PER_TURN;
    let s: i64 = sine_of_steps(k);
    let c: i64 = sine_of_steps((k + QUARTER) % STEPS_PER_TURN);
    let tr: i64 = diameter as i64 + 2 * radius_delta as i64;
    let dx: i64 = scale_component(s, tr);
    let dy: i64 = scale_component(c, tr);
    Point { x: (center.x as i64 + dx) as i32, y: (center.y as i64 - dy) as i32 }
}

/// Polar points on the face circle itself.
pub fn face_polar(face: &Face, angle: Angle, radius_delta: i32) -> (p: Point)
    requires
        face.wf(),
        -DELTA_LIMIT <= radius_delta <= DELTA_LIMIT,
    ensures
        p == polar_point(face.center, face.diameter, angle, radius_delta),
{
    polar(face.center, face.diameter, angle, radius_delta)
}

/// At angle 0 a polar point lies straight above the centre, at angle a
/// quarter turn straight to its right, in both cases at distance half the
/// diameter (rounded down).
pub proof fn lemma_polar_axes(center: Point, diameter: u32)
    requires
        polar_in_range(center, diameter, 0),
    ensures
        polar_x(center, diameter, Angle { steps: 0 }, 0) == center.x,
        polar_y(center, diameter, Angle { steps: 0 }, 0) == center.y - diameter / 2,
        polar_x(center, diameter, Angle { steps: 15 }, 0) == center.x + diameter / 2,
        polar_y(center, diameter, Angle { steps: 15 }, 0) == center.y,
{
    assert(sine_steps(0) == 0);
    assert(cosine_steps(0) == SINE_SCALE);
    assert(sine_steps(15) == SINE_SCALE);
    assert(cosine_steps(15) == 0);
    let n = diameter as int;
    assert(SINE_SCALE * n / (2 * SINE_SCALE) == n / 2) by (nonlinear_arith)
        requires n >= 0;
}

/// Angles that point the same way give the same polar point.
pub proof fn lemma_polar_equivalent(center: Point, diameter: u32, a: Angle, b: Angle, radius_delta: i32)
    requires
        a.equivalent(b),
    ensures
        polar_point(center, diameter, a, radius_delta) == polar_point(center, diameter, b, radius_delta),
{
}

} // verus!
