use clickei::model::{ClickType, CursorMode, MouseButton, SequenceTarget};
use clickei::static_clicker::{
    interval_with, jitter_interval, jitter_pos, pos_with, ClickMode, RepeatMode, StaticClicker,
    StaticClickerConfig,
};

#[test]
fn interval_clamped() {
    let cfg = StaticClickerConfig {
        interval_ms: 0,
        button: MouseButton::Left,
        click_type: ClickType::Single,
        repeat: RepeatMode::Infinite,
        cursor: CursorMode::Current,
        mode: ClickMode::Foreground,
        sequence_targets: Vec::new(),
        sequence_enabled: true,
        interval_jitter_ms: 0,
        position_jitter_px: 0,
    };
    assert_eq!(cfg.interval_ms_clamped(), 1);
}

#[test]
fn sequence_target_default() {
    let t = SequenceTarget::default();
    assert_eq!(t.clicks, 1);
    assert_eq!(t.interval_ms, 500);
}

#[test]
fn cursor_mode_multitarget() {
    let cfg = StaticClickerConfig {
        interval_ms: 100,
        button: MouseButton::Left,
        click_type: ClickType::Single,
        repeat: RepeatMode::Count(2),
        cursor: CursorMode::MultiTarget,
        mode: ClickMode::Foreground,
        sequence_targets: vec![
            SequenceTarget { x: 100, y: 200, clicks: 2, interval_ms: 100 },
            SequenceTarget { x: 300, y: 400, clicks: 1, interval_ms: 200 },
        ],
        sequence_enabled: true,
        interval_jitter_ms: 0,
        position_jitter_px: 0,
    };
    assert_eq!(cfg.cursor, CursorMode::MultiTarget);
    assert_eq!(cfg.sequence_targets.len(), 2);
}

#[test]
fn jitter_interval_zero_unchanged() {
    assert_eq!(jitter_interval(100, 0), 100);
    assert_eq!(jitter_interval(1, 0), 1);
}

#[test]
fn jitter_interval_within_range() {
    for _ in 0..50 {
        let v = jitter_interval(100, 10);
        assert!(v >= 90 && v <= 110, "jittered {} not in [90,110]", v);
        assert!(v >= 1);
    }
    for _ in 0..20 {
        let v = jitter_interval(1, 10);
        assert!(v >= 1, "clamp failed {}", v);
        assert!(v <= 11);
    }
}

#[test]
fn jitter_pos_zero_unchanged() {
    assert_eq!(jitter_pos(123, 0), 123);
    assert_eq!(jitter_pos(-50, 0), -50);
}

#[test]
fn jitter_pos_within_range() {
    for _ in 0..50 {
        let v = jitter_pos(100, 5);
        assert!(v >= 95 && v <= 105, "pos jitter {} not in [95,105]", v);
    }
    for _ in 0..30 {
        let v = jitter_pos(0, 20);
        assert!(v >= -20 && v <= 20, "pos jitter {} not in [-20,20]", v);
    }
}

#[test]
fn jitter_varies() {
    let values: Vec<u64> = (0..200).map(|_| jitter_interval(10_000, 5000)).collect();
    assert!(values.iter().any(|v| *v != values[0]));
    assert!(values.iter().any(|v| *v < 10_000));
    assert!(values.iter().any(|v| *v > 10_000));
    let points: Vec<i32> = (0..200).map(|_| jitter_pos(0, 1000)).collect();
    assert!(points.iter().any(|p| *p < 0));
    assert!(points.iter().any(|p| *p > 0));
}

#[test]
fn deviated_intervals_are_exact() {
    assert_eq!(interval_with(100, 10, -7), 93);
    assert_eq!(interval_with(100, 10, 7), 107);
    assert_eq!(interval_with(3, 10, -10), 1);
    assert_eq!(interval_with(0, 0, 5), 0);
    assert_eq!(interval_with(0, 10, -5), 1);
    assert_eq!(jitter_interval(0, 0), 0);
    assert_eq!(interval_with(100, 0, 5), 100);
    assert_eq!(interval_with(i64::MAX as u64, 10, 10), i64::MAX as u64);
    assert_eq!(interval_with(u64::MAX, 10, 5), 4);
    assert_eq!(interval_with(u64::MAX, 10, -5), 1);
}

#[test]
fn deviated_points_stay_on_the_plane() {
    assert_eq!(pos_with(100, -3), 97);
    assert_eq!(pos_with(i32::MAX, 3), i32::MAX);
    assert_eq!(pos_with(i32::MIN, -3), i32::MIN);
}

#[test]
fn clicker_starts_once() {
    let mut c = StaticClicker::new();
    assert!(!c.is_running());
    assert!(c.start());
    assert!(!c.start());
    c.set_active(Some(2));
    assert_eq!(c.active_target_index(), Some(2));
    c.stop();
    assert!(c.is_running() && c.stop_flag);
    c.finished();
    assert!(!c.is_running());
    assert_eq!(c.active_target_index(), None);
    assert!(c.start());
    assert!(!c.stop_flag);
}
