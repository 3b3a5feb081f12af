use clickei::double::Double;
use clickei::model::{
    copy_events, default_app_name, default_format_version, default_sequence_clicks,
    default_sequence_interval, word_of, ClickType, CursorMode, MacroData, MacroEvent,
    MacroEventType, MouseButton,
};

fn double(n: f64) -> Double {
    Double { bits: n.to_bits() }
}

fn event(event_type: MacroEventType) -> MacroEvent {
    MacroEvent {
        event_type,
        x: 10,
        y: -20,
        button: MouseButton::Right,
        key_code: 0x41,
        scan_code: 30,
        wheel_delta: -120,
        delay_ms: 5,
    }
}

#[test]
fn sanitize_clamps() {
    let mut d = MacroData {
        speed: double(99.0),
        loop_count: 99999,
        interval_ms: -5,
        ..MacroData::default()
    };
    d.sanitize();
    assert_eq!(f64::from_bits(d.speed.bits), 10.0);
    assert_eq!(d.loop_count, 9999);
    assert_eq!(d.interval_ms, 0);
}

#[test]
fn sanitize_handles_odd_speeds() {
    for (stored, sane) in [
        (0.0, 1.0),
        (-0.0, 1.0),
        (f64::NAN, 1.0),
        (f64::INFINITY, 1.0),
        (f64::NEG_INFINITY, 1.0),
        (-3.0, 0.25),
        (0.2, 0.25),
        (0.25, 0.25),
        (2.5, 2.5),
        (10.0, 10.0),
        (10.000001, 10.0),
        (f64::MIN_POSITIVE, 0.25),
        (5e-324, 0.25),
        (f64::MAX, 10.0),
    ] {
        let mut d = MacroData { speed: double(stored), ..MacroData::default() };
        d.sanitize();
        assert_eq!(f64::from_bits(d.speed.bits), sane, "speed {}", stored);
    }
}

#[test]
fn sanitize_twice_is_sanitize_once() {
    let mut d = MacroData {
        speed: double(0.01),
        loop_count: -4,
        interval_ms: 7,
        format_version: 0,
        events: vec![MacroEvent { delay_ms: -9, ..event(MacroEventType::KeyUp) }],
        ..MacroData::default()
    };
    d.sanitize();
    assert_eq!(d.loop_count, 1);
    assert_eq!(d.interval_ms, 7);
    assert_eq!(d.format_version, 1);
    assert_eq!(d.events[0].delay_ms, 0);
    let mut again = d.clone();
    again.sanitize();
    assert_eq!(again.speed, d.speed);
    assert_eq!(again.loop_count, d.loop_count);
    assert_eq!(again.events, d.events);
}

#[test]
fn macros_start_with_defaults() {
    let d = MacroData::default();
    assert_eq!(d.app_name, "Clickei");
    assert_eq!(d.app_name, default_app_name());
    assert_eq!(d.format_version, default_format_version());
    assert_eq!(d.saved_at_utc, None);
    assert_eq!(f64::from_bits(d.speed.bits), 1.0);
    assert_eq!((d.loop_count, d.infinite_loop, d.interval_ms), (1, false, 0));
    assert_eq!(d.event_count(), 0);
    let d = MacroData::of_events(vec![event(MacroEventType::KeyDown)]);
    assert_eq!(d.event_count(), 1);
    assert_eq!(copy_events(&d.events), d.events);
}

#[test]
fn events_are_described() {
    assert_eq!(event(MacroEventType::MouseMove).description(), "Move  (10, -20)");
    assert_eq!(event(MacroEventType::MouseDown).description(), "Down  Right (10, -20)");
    assert_eq!(event(MacroEventType::MouseUp).description(), "Up    Right (10, -20)");
    assert_eq!(event(MacroEventType::MouseWheel).description(), "Wheel -120");
    let up = MacroEvent { wheel_delta: 120, ..event(MacroEventType::MouseWheel) };
    assert_eq!(up.description(), "Wheel +120");
    assert_eq!(event(MacroEventType::KeyDown).description(), "KeyDown  VK 65 (0x41)");
    let small = MacroEvent { key_code: 9, ..event(MacroEventType::KeyUp) };
    assert_eq!(small.description(), "KeyUp    VK 9 (0x09)");
    let negative = MacroEvent { key_code: -1, ..event(MacroEventType::KeyUp) };
    assert_eq!(negative.description(), "KeyUp    VK -1 (0xFFFFFFFF)");
    let none = MacroEvent { button: MouseButton::NoButton, ..event(MacroEventType::MouseUp) };
    assert_eq!(none.description(), "Up    None (10, -20)");
}

#[test]
fn choices_have_defaults() {
    assert_eq!(MouseButton::default(), MouseButton::NoButton);
    assert_eq!(ClickType::default(), ClickType::Single);
    assert_eq!(CursorMode::default(), CursorMode::Current);
    assert_eq!((default_sequence_clicks(), default_sequence_interval()), (1, 500));
}

#[test]
fn buttons_are_flags() {
    let flags: Vec<i32> = [
        MouseButton::NoButton,
        MouseButton::Left,
        MouseButton::Right,
        MouseButton::Middle,
        MouseButton::X1,
        MouseButton::X2,
    ]
    .iter()
    .map(|b| b.flag())
    .collect();
    assert_eq!(flags, vec![0, 1, 2, 4, 8, 16]);
    assert_eq!(MouseButton::X1.name(), "X1");
}

#[test]
fn words_wrap() {
    assert_eq!(word_of(5), 5);
    assert_eq!(word_of(-1), u32::MAX);
    assert_eq!(word_of(i32::MIN), 0x8000_0000);
}

#[test]
fn doubles_follow_the_floats() {
    let samples = [
        0.0, -0.0, 1.0, -1.0, 0.25, 10.0, 280.0, 500.0, 1e-300, -1e300, f64::INFINITY,
        f64::NEG_INFINITY, 5e-324, -5e-324,
    ];
    for a in samples {
        assert_eq!(double(a).is_zero(), a == 0.0);
        assert_eq!(double(a).is_finite(), a.is_finite());
        assert!(!double(a).is_nan());
        for b in samples {
            assert_eq!(double(a).less(double(b)), a < b, "{} {}", a, b);
        }
        let c = double(a).clamp_to(double(0.25), double(10.0));
        assert_eq!(f64::from_bits(c.bits), a.clamp(0.25, 10.0));
    }
    assert!(double(f64::NAN).is_nan());
    assert!(double(f64::NAN).clamp_to(double(0.25), double(10.0)).is_nan());
    let low = double(f64::NAN).clamp_or_low(double(280.0), double(500.0));
    assert_eq!(f64::from_bits(low.bits), 280.0);
}
