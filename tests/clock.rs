use epd_clock::{
    create_face, hour_to_angle, polar, render_frame,
    sexagesimal_to_angle, wake_delay_ms, Action, AnalogClock, Angle, App, ClockError, Color, Event,
    FaceStyle, MyClock, Phase, Point, Primitive, Rect, RefreshCadence, RefreshMode, RefreshPolicy, Size,
    Style, Timestamp,
};

fn at(hour: u32, minute: u32, second: u32) -> Timestamp {
    Timestamp::from_hms(hour, minute, second).unwrap()
}

fn panel() -> Rect {
    Rect { top_left: Point { x: 0, y: 0 }, size: Size { width: 250, height: 122 } }
}

#[test]
fn it_works() {
    let result = 2 + 2;
    assert_eq!(result, 4);
}

#[test]
fn hour_angle_reduces_to_twelve_hours() {
    for h in 0..24 {
        assert_eq!(hour_to_angle(h), hour_to_angle(h % 12));
    }
    assert_eq!(hour_to_angle(3).steps, 15);
    assert_eq!(hour_to_angle(15).steps, 15);
    assert_eq!(hour_to_angle(0).steps, 0);
}

#[test]
fn sexagesimal_angle_increases_and_wraps() {
    assert_eq!(sexagesimal_to_angle(0).steps, 0);
    for v in 0..60 {
        assert!(sexagesimal_to_angle(v).steps < sexagesimal_to_angle(v + 1).steps);
    }
    let c = Point { x: 100, y: 100 };
    assert_eq!(polar(c, 50, sexagesimal_to_angle(60), 0), polar(c, 50, sexagesimal_to_angle(0), 0));
}

#[test]
fn polar_on_the_axes() {
    let c = Point { x: 100, y: 100 };
    assert_eq!(polar(c, 50, Angle { steps: 0 }, 0), Point { x: 100, y: 75 });
    assert_eq!(polar(c, 50, Angle { steps: 15 }, 0), Point { x: 125, y: 100 });
    assert_eq!(polar(c, 50, Angle { steps: 30 }, 0), Point { x: 100, y: 125 });
    assert_eq!(polar(c, 50, Angle { steps: 45 }, 0), Point { x: 75, y: 100 });
}

#[test]
fn polar_truncates_toward_zero() {
    let c = Point { x: 100, y: 100 };
    // sin 30 deg * 25 = 12.5, cos 30 deg * 25 = 21.65
    assert_eq!(polar(c, 50, Angle { steps: 5 }, 0), Point { x: 112, y: 79 });
    // sin 240 deg * 25 = -21.65, cos 240 deg * 25 = -12.5
    assert_eq!(polar(c, 50, Angle { steps: 40 }, 0), Point { x: 79, y: 112 });
    // radius 25 - 10 = 15 straight right
    assert_eq!(polar(c, 50, Angle { steps: 15 }, -10), Point { x: 115, y: 100 });
    // odd diameter: radius 25.5 + 2 = 27.5, truncated
    assert_eq!(polar(c, 51, Angle { steps: 0 }, 2), Point { x: 100, y: 73 });
}

#[test]
fn face_is_centred_with_margin() {
    let face = create_face(&panel());
    assert_eq!(face.center, Point { x: 124, y: 60 });
    assert_eq!(face.diameter, 102);
    let odd = Rect { top_left: Point { x: 10, y: 20 }, size: Size { width: 25, height: 27 } };
    let face = create_face(&odd);
    assert_eq!(face.center, Point { x: 22, y: 33 });
    assert_eq!(face.diameter, 5);
}

#[test]
fn refresh_full_exactly_at_top_of_hour() {
    let mut policy = RefreshPolicy::new(RefreshCadence::EveryHour);
    assert_eq!(policy.classify(at(1, 59, 59)), RefreshMode::Quick);
    assert_eq!(policy.classify(at(2, 0, 0)), RefreshMode::Full);
    assert_eq!(policy.classify(at(2, 0, 1)), RefreshMode::Quick);
    for s in 1..60 {
        assert_eq!(policy.classify(at(2, 0, s)), RefreshMode::Quick);
    }
    assert_eq!(policy.last_full, Some(at(2, 0, 0)));
}

#[test]
fn refresh_cadences() {
    let mut minute = RefreshPolicy::new(RefreshCadence::EveryMinute);
    assert_eq!(minute.classify(at(3, 17, 0)), RefreshMode::Full);
    assert_eq!(minute.classify(at(3, 17, 1)), RefreshMode::Quick);
    let mut six = RefreshPolicy::new(RefreshCadence::EverySixHours);
    assert_eq!(six.classify(at(5, 0, 0)), RefreshMode::Quick);
    assert_eq!(six.last_full, None);
    assert_eq!(six.classify(at(18, 0, 0)), RefreshMode::Full);
    assert_eq!(six.classify(at(12, 0, 0)), RefreshMode::Full);
    assert_eq!(six.last_full, Some(at(12, 0, 0)));
}

#[test]
fn wake_delay_is_complement_to_next_second() {
    assert_eq!(wake_delay_ms(730), 270);
    assert_eq!(wake_delay_ms(0), 1000);
    assert_eq!(wake_delay_ms(999), 1);
    assert_eq!(wake_delay_ms(1500), 500);
}

#[test]
fn analog_hands_same_at_ten_and_twenty_two() {
    let morning = AnalogClock { time: at(10, 9, 0) }.draw(&panel());
    let evening = AnalogClock { time: at(22, 9, 0) }.draw(&panel());
    assert_eq!(morning, evening);
    assert_ne!(morning, AnalogClock { time: at(11, 9, 0) }.draw(&panel()));
}

#[test]
fn analog_frame_layout() {
    let f = AnalogClock { time: at(3, 0, 0) }.draw(&panel());
    assert_eq!(f.len(), 19);
    assert_eq!(f[0], Primitive::Clear { color: Color::Off });
    let center = Point { x: 124, y: 60 };
    assert_eq!(
        f[1],
        Primitive::Circle { center, diameter: 102, style: Style::Stroke { color: Color::On, width: 2 } }
    );
    // graduation at 12 o'clock, from the edge 10 px inward
    assert_eq!(
        f[2],
        Primitive::Line { start: Point { x: 124, y: 9 }, end: Point { x: 124, y: 19 }, color: Color::On, width: 1 }
    );
    // hour hand at 3 o'clock, 10 px short of the edge
    assert_eq!(
        f[14],
        Primitive::Line { start: center, end: Point { x: 165, y: 60 }, color: Color::On, width: 1 }
    );
    // minute and second hands at 12 o'clock
    assert_eq!(
        f[15],
        Primitive::Line { start: center, end: Point { x: 124, y: 14 }, color: Color::On, width: 1 }
    );
    assert_eq!(
        f[16],
        Primitive::Line { start: center, end: Point { x: 124, y: 9 }, color: Color::On, width: 1 }
    );
    assert_eq!(
        f[17],
        Primitive::Circle {
            center: Point { x: 124, y: 29 },
            diameter: 11,
            style: Style::FillAndStroke { fill: Color::Off, stroke: Color::On, width: 1 },
        }
    );
    assert_eq!(
        f[18],
        Primitive::Circle { center, diameter: 9, style: Style::Fill { color: Color::On } }
    );
}

#[test]
fn sector_frame_layout() {
    let f = MyClock { time: at(14, 30, 45) }.draw(&panel());
    let center = Point { x: 124, y: 60 };
    let hole = |d: u32| Primitive::Circle { center, diameter: d, style: Style::Fill { color: Color::Off } };
    let sector = |d: u32, s: u32| Primitive::Sector { center, diameter: d, sweep: Angle { steps: s }, color: Color::On };
    assert_eq!(
        f,
        vec![
            Primitive::Clear { color: Color::Off },
            sector(102, 45),
            hole(87),
            sector(81, 30),
            hole(63),
            sector(51, 10),
            hole(27),
        ]
    );
    assert_eq!(render_frame(FaceStyle::FilledSectors, &at(14, 30, 45), &panel()), f);
}

#[test]
fn timestamp_rejects_out_of_range() {
    assert!(Timestamp::from_hms(24, 0, 0).is_none());
    assert!(Timestamp::from_hms(0, 60, 0).is_none());
    assert!(Timestamp::from_hms(0, 0, 60).is_none());
    assert_eq!(
        Timestamp::from_hms(23, 59, 59),
        Some(Timestamp { hour: 23, minute: 59, second: 59, millis: 0 })
    );
}

#[test]
fn app_rejects_a_surface_too_small_for_a_face() {
    let small = Rect { top_left: Point { x: 0, y: 0 }, size: Size { width: 19, height: 200 } };
    assert!(App::new(FaceStyle::AnalogHands, small, RefreshCadence::EveryHour).is_none());
    let edge = Rect { top_left: Point { x: 0, y: 0 }, size: Size { width: 20, height: 20 } };
    assert!(App::new(FaceStyle::AnalogHands, edge, RefreshCadence::EveryHour).is_some());
}

#[test]
fn main_loop_scenario_three_ticks() {
    let mut app = App::new(FaceStyle::AnalogHands, panel(), RefreshCadence::EveryHour).unwrap();
    let times = [at(0, 0, 0), at(0, 0, 1), at(0, 30, 15)];
    let mut modes = Vec::new();
    let mut pushes = 0;
    let mut clears_before_push = Vec::new();
    let mut clears = 0;
    let mut drawn = false;
    let mut next = 0;
    let mut action = Action::WaitTick;
    let mut steps = 0;
    while steps < 100 {
        steps += 1;
        let event = match action {
            Action::WaitTick => {
                if next == times.len() {
                    break;
                }
                Event::Tick
            }
            Action::SampleTime => {
                next += 1;
                Event::TimeSampled(times[next - 1])
            }
            Action::Render(frame) => {
                clears += frame.iter().filter(|p| matches!(p, Primitive::Clear { .. })).count();
                drawn = true;
                Event::Rendered
            }
            Action::Push(mode) => {
                assert!(drawn);
                clears_before_push.push(clears);
                clears = 0;
                drawn = false;
                pushes += 1;
                modes.push(mode);
                Event::Pushed
            }
            Action::Halt(e) => panic!("halted: {:?}", e),
        };
        assert!(app.expects(&event));
        action = app.step(event);
    }
    assert_eq!(modes, vec![RefreshMode::Full, RefreshMode::Quick, RefreshMode::Quick]);
    assert_eq!(pushes, 3);
    assert_eq!(clears_before_push, vec![1, 1, 1]);
    assert_eq!(app.phase, Phase::AwaitingTick);
}

#[test]
fn main_loop_halts_on_each_failure() {
    let mut app = App::new(FaceStyle::AnalogHands, panel(), RefreshCadence::EveryHour).unwrap();
    assert!(matches!(app.step(Event::TimerFailed), Action::Halt(ClockError::Timer)));
    assert_eq!(app.phase, Phase::Halted(ClockError::Timer));
    assert!(!app.expects(&Event::Tick));

    let mut app = App::new(FaceStyle::FilledSectors, panel(), RefreshCadence::EveryHour).unwrap();
    assert!(matches!(app.step(Event::Tick), Action::SampleTime));
    assert!(!app.expects(&Event::TimeSampled(Timestamp { hour: 24, minute: 0, second: 0, millis: 0 })));
    assert!(matches!(app.step(Event::TimeSampled(at(1, 2, 3))), Action::Render(_)));
    assert!(matches!(app.step(Event::RenderFailed), Action::Halt(ClockError::Render)));

    let mut app = App::new(FaceStyle::AnalogHands, panel(), RefreshCadence::EveryHour).unwrap();
    app.step(Event::Tick);
    app.step(Event::TimeSampled(at(1, 2, 3)));
    assert!(matches!(app.step(Event::Rendered), Action::Push(RefreshMode::Quick)));
    assert!(matches!(app.step(Event::PushFailed), Action::Halt(ClockError::Push)));
    assert_eq!(app.phase, Phase::Halted(ClockError::Push));
}

#[test]
fn app_rejects_a_surface_beyond_the_coordinate_range() {
    let huge = Rect { top_left: Point { x: 0, y: 0 }, size: Size { width: 268435457, height: 100 } };
    assert!(App::new(FaceStyle::AnalogHands, huge, RefreshCadence::EveryHour).is_none());
    let far = Rect { top_left: Point { x: -268435457, y: 0 }, size: Size { width: 100, height: 100 } };
    assert!(App::new(FaceStyle::FilledSectors, far, RefreshCadence::EveryMinute).is_none());
}
