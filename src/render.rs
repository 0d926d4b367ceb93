//! The clock renderer: the draw list of a frame for a time and a surface.
//!
//! A frame is a sequence of primitives to be drawn in order onto a two-colour
//! surface, later ones covering earlier ones. It always starts by clearing the
//! surface.

use vstd::prelude::*;
use crate::angle::{hour_angle, hour_to_angle, sexagesimal_angle, sexagesimal_to_angle, Angle};
use crate::geometry::{create_face, face_of, face_polar, polar_point, Face, Point, Rect};
use crate::time::Timestamp;

verus! {

/// The two pixel values of a monochrome surface.
#[derive(Clone, Copy, Debug, PartialEq, Eq, Structural)]
pub enum Color {
    Off,
    On,
}

/// How a closed shape is painted.
#[derive(Clone, Copy, Debug, PartialEq, Eq, Structural)]
pub enum Style {
    /// Outline only.
    Stroke { color: Color, width: u32 },
    /// Interior only.
    Fill { color: Color },
    /// Interior and outline.
    FillAndStroke { fill: Color, stroke: Color, width: u32 },
}

/// One drawing operation.
#[derive(Clone, Copy, Debug, PartialEq, Eq, Structural)]
pub enum Primitive {
    /// Paint the whole surface.
    Clear { color: Color },
    /// A circle given by its centre and diameter.
    Circle { center: Point, diameter: u32, style: Style },
    /// A straight line.
    Line { start: Point, end: Point, color: Color, width: u32 },
    /// A filled pie slice from 12 o'clock clockwise through `sweep`.
    Sector { center: Point, diameter: u32, sweep: Angle, color: Color },
}

/// The clock faces the renderer offers.
#[derive(Clone, Copy, Debug, PartialEq, Eq, Structural)]
pub enum FaceStyle {
    /// A round dial with twelve graduations and three hands.
    AnalogHands,
    /// Three concentric bands that fill clockwise: hours innermost, seconds
    /// outermost.
    FilledSectors,
}

/// Stroke width of the dial's outline.
pub const FACE_STROKE: u32 = 2;
/// Length of a graduation, inward from the dial's edge.
pub const GRADUATION_LENGTH: i32 = 10;
/// Distance of the hour hand's tip inside the dial's edge.
pub const HOUR_HAND_INSET: i32 = 10;
/// Distance of the minute hand's tip inside the dial's edge.
pub const MINUTE_HAND_INSET: i32 = 5;
/// Distance of the ring on the second hand inside the dial's edge.
pub const DECORATION_INSET: i32 = 20;
/// Diameter of the ring on the second hand.
pub const DECORATION_DIAMETER: u32 = 11;
/// Diameter of the disc covering the hands' origin.
pub const HUB_DIAMETER: u32 = 9;
/// Extra diameter of each band's hole, so that no stray pixel of the sector
/// survives at its inner edge.
pub const HOLE_PADDING: u32 = 2;

pub open spec fn clear_primitive() -> Primitive {
    Primitive::Clear { color: Color::Off }
}

/// The graduation at hour position `i`.
pub open spec fn graduation(face: Face, i: int) -> Primitive {
    Primitive::Line {
        start: polar_point(face.center, face.diameter, hour_angle(i), 0),
        end: polar_point(face.center, face.diameter, hour_angle(i), (-GRADUATION_LENGTH) as i32),
        color: Color::On,
        width: 1,
    }
}

pub open spec fn graduations(face: Face) -> Seq<Primitive> {
    Seq::new(12, |i: int| graduation(face, i))
}

/// A hand from the centre to `inset` pixels inside the dial's edge.
pub open spec fn hand(face: Face, angle: Angle, inset: i32) -> Primitive {
    Primitive::Line {
        start: face.center,
        end: polar_point(face.center, face.diameter, angle, (-inset) as i32),
        color: Color::On,
        width: 1,
    }
}

/// The hollow ring near the tip of the second hand.
pub open spec fn second_decoration(face: Face, angle: Angle) -> Primitive {
    Primitive::Circle {
        center: polar_point(face.center, face.diameter, angle, (-DECORATION_INSET) as i32),
        diameter: DECORATION_DIAMETER,
        style: Style::FillAndStroke { fill: Color::Off, stroke: Color::On, width: 1 },
    }
}

/// The analog dial at `t`: clear, outline, graduations, hour, minute and
/// second hands, the ring on the second hand, and the hub on top.
pub open spec fn analog_frame(t: Timestamp, bounds: Rect) -> Seq<Primitive> {
    let face = face_of(bounds);
    seq![
        clear_primitive(),
        Primitive::Circle {
            center: face.center,
            diameter: face.diameter,
            style: Style::Stroke { color: Color::On, width: FACE_STROKE },
        },
    ] + graduations(face) + seq![
        hand(face, hour_angle(t.hour as int), HOUR_HAND_INSET),
        hand(face, sexagesimal_angle(t.minute as int), MINUTE_HAND_INSET),
        hand(face, sexagesimal_angle(t.second as int), 0),
        second_decoration(face, sexagesimal_angle(t.second as int)),
        Primitive::Circle {
            center: face.center,
            diameter: HUB_DIAMETER,
            style: Style::Fill { color: Color::On },
        },
    ]
}

/// `diameter * num / den`, rounded down.
pub open spec fn fraction_of(diameter: u32, num: int, den: int) -> int {
    diameter * num / den
}

/// One band of the sector dial: the sector in the foreground colour, then
/// the hole in the background colour.
pub open spec fn band(center: Point, outer: int, inner: int, sweep: Angle) -> Seq<Primitive> {
    seq![
        Primitive::Sector { center, diameter: outer as u32, sweep, color: Color::On },
        Primitive::Circle {
            center,
            diameter: (inner + HOLE_PADDING) as u32,
            style: Style::Fill { color: Color::Off },
        },
    ]
}

/// The sector dial at `t`: clear, then the seconds band (from 5/6 of the
/// diameter to all of it), the minutes band (3/5 to 4/5) and the hours band
/// (1/4 to 2/4). Each band is drawn before the smaller ones, whose sectors fit
/// inside its hole.
pub open spec fn sector_frame(t: Timestamp, bounds: Rect) -> Seq<Primitive> {
    let face = face_of(bounds);
    let d = face.diameter;
    seq![clear_primitive()]
        + band(face.center, fraction_of(d, 1, 1), fraction_of(d, 5, 6), sexagesimal_angle(t.second as int))
        + band(face.center, fraction_of(d, 4, 5), fraction_of(d, 3, 5), sexagesimal_angle(t.minute as int))
        + band(face.center, fraction_of(d, 2, 4), fraction_of(d, 1, 4), hour_angle(t.hour as int))
}

pub open spec fn frame(style: FaceStyle, t: Timestamp, bounds: Rect) -> Seq<Primitive> {
    match style {
        FaceStyle::AnalogHands => analog_frame(t, bounds),
        FaceStyle::FilledSectors => sector_frame(t, bounds),
    }
}

/// Surfaces a frame can be drawn for.
pub open spec fn renderable(bounds: Rect) -> bool {
    bounds.wf() && bounds.holds_face()
}

fn push_hand(v: &mut Vec<Primitive>, face: &Face, angle: Angle, inset: i32)
    requires
        face.wf(),
        0 <= inset <= 20,
    ensures
        final(v)@ == old(v)@.push(hand(*face, angle, inset)),
{
    let end = face_polar(face, angle, -inset);
    v.push(Primitive::Line { start: face.center, end, color: Color::On, width: 1 });
}

/// The analog dial at a time of day.
#[derive(Clone, Copy, Debug, PartialEq, Eq, Structural)]
pub struct AnalogClock {
    pub time: Timestamp,
}

/// The sector dial at a time of day.
#[derive(Clone, Copy, Debug, PartialEq, Eq, Structural)]
pub struct MyClock {
    pub time: Timestamp,
}

impl AnalogClock {
    /// Draw list of the analog dial on a surface of the given bounds.
    pub fn draw(&self, bounds: &Rect) -> (r: Vec<Primitive>)
        requires
            renderable(*bounds),
        ensures
            r@ == analog_frame(self.time, *bounds),
    {
        let t = &self.time;
        let face = create_face(bounds);
        let mut v: Vec<Primitive> = Vec::new();
        v.push(Primitive::Clear { color: Color::Off });
        v.push(Primitive::Circle {
            center: face.center,
            diameter: face.diameter,
            style: Style::Stroke { color: Color::On, width: FACE_STROKE },
        });
        let ghost head = v@;
        let mut i: u32 = 0;
        while i < 12
            invariant
                0 <= i <= 12,
                face == face_of(*bounds),
                face.wf(),
                head.len() == 2,
                v@ == head + graduations(face).take(i as int),
            decreases 12 - i,
        {
            let angle = hour_to_angle(i);
            let start = face_polar(&face, angle, 0);
            let end = face_polar(&face, angle, -GRADUATION_LENGTH);
            v.push(Primitive::Line { start, end, color: Color::On, width: 1 });
            assert(graduations(face).take(i + 1) =~= graduations(face).take(i as int).push(graduation(face, i as int)));
            i = i + 1;
        }
        assert(graduations(face).take(12) =~= graduations(face));
        let second = sexagesimal_to_angle(t.second);
        push_hand(&mut v, &face, hour_to_angle(t.hour), HOUR_HAND_INSET);
        push_hand(&mut v, &face, sexagesimal_to_angle(t.minute), MINUTE_HAND_INSET);
        push_hand(&mut v, &face, second, 0);
        v.push(Primitive::Circle {
            center: face_polar(&face, second, -DECORATION_INSET),
            diameter: DECORATION_DIAMETER,
            style: Style::FillAndStroke { fill: Color::Off, stroke: Color::On, width: 1 },
        });
        v.push(Primitive::Circle {
            center: face.center,
            diameter: HUB_DIAMETER,
            style: Style::Fill { color: Color::On },
        });
        assert(v@ =~= analog_frame(self.time, *bounds));
        v
    }
}

fn fraction(diameter: u32, num: u32, den: u32) -> (r: u32)
    requires
        diameter <= crate::geometry::COORD_LIMIT,
        num <= 5,
        den > 0,
    ensures
        r == fraction_of(diameter, num as int, den as int),
        r <= 5 * crate::geometry::COORD_LIMIT,
{
    assert(diameter * num <= 5 * crate::geometry::COORD_LIMIT) by (nonlinear_arith)
        requires
            diameter <= crate::geometry::COORD_LIMIT,
            num <= 5,
    ;
    assert((diameter * num) as int / den as int <= diameter * num) by (nonlinear_arith)
        requires
            den > 0,
    ;
    diameter * num / den
}

fn push_band(v: &mut Vec<Primitive>, center: Point, outer: u32, inner: u32, sweep: Angle)
    requires
        inner <= 5 * crate::geometry::COORD_LIMIT,
    ensures
        final(v)@ == old(v)@ + band(center, outer as int, inner as int, sweep),
{
    v.push(Primitive::Sector { center, diameter: outer, sweep, color: Color::On });
    v.push(Primitive::Circle {
        center,
        diameter: inner + HOLE_PADDING,
        style: Style::Fill { color: Color::Off },
    });
    assert(final(v)@ =~= old(v)@ + band(center, outer as int, inner as int, sweep));
}

impl MyClock {
    /// Draw list of the sector dial on a surface of the given bounds.
    pub fn draw(&self, bounds: &Rect) -> (r: Vec<Primitive>)
        requires
            renderable(*bounds),
        ensures
            r@ == sector_frame(self.time, *bounds),
    {
        let t = &self.time;
        let face = create_face(bounds);
        let d = face.diameter;
        let mut v: Vec<Primitive> = Vec::new();
        v.push(Primitive::Clear { color: Color::Off });
        push_band(&mut v, face.center, fraction(d, 1, 1), fraction(d, 5, 6), sexagesimal_to_angle(t.second));
        push_band(&mut v, face.center, fraction(d, 4, 5), fraction(d, 3, 5), sexagesimal_to_angle(t.minute));
        push_band(&mut v, face.center, fraction(d, 2, 4), fraction(d, 1, 4), hour_to_angle(t.hour));
        assert(v@ =~= sector_frame(self.time, *bounds));
        v
    }
}

/// The frame of a face style at `t` on a surface of the given bounds.
pub fn render_frame(style: FaceStyle, t: &Timestamp, bounds: &Rect) -> (r: Vec<Primitive>)
    requires
        renderable(*bounds),
    ensures
        r@ == frame(style, *t, *bounds),
        r@.len() > 0,
        r@[0] == clear_primitive(),
{
    match style {
        FaceStyle::AnalogHands => AnalogClock { time: *t }.draw(bounds),
        FaceStyle::FilledSectors => MyClock { time: *t }.draw(bounds),
    }
}

/// Two times of day twelve hours apart (same hour on the 12-hour dial, same
/// minute and second) give the same analog frame: every hand, graduation and
/// circle at the same pixels.
pub proof fn lemma_analog_twelve_hour_round_trip(t1: Timestamp, t2: Timestamp, bounds: Rect)
    requires
        t1.hour % 12 == t2.hour % 12,
        t1.minute == t2.minute,
        t1.second == t2.second,
    ensures
        analog_frame(t1, bounds) == analog_frame(t2, bounds),
{
    assert(hour_angle(t1.hour as int) == hour_angle(t2.hour as int));
}

/// The bands of the sector dial do not cover one another: each band's hole
/// is at least as wide as the sectors drawn after it.
pub proof fn lemma_sector_bands_nested(d: u32)
    ensures
        fraction_of(d, 4, 5) <= fraction_of(d, 5, 6) + HOLE_PADDING,
        fraction_of(d, 2, 4) <= fraction_of(d, 3, 5) + HOLE_PADDING,
{
    let n = d as int;
    assert(n * 4 / 5 <= n * 5 / 6 + 2) by (nonlinear_arith)
        requires n >= 0;
    assert(n * 2 / 4 <= n * 3 / 5 + 2) by (nonlinear_arith)
        requires n >= 0;
}

} // verus!
