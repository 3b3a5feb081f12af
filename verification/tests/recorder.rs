use clickei::config::{HotkeyCombo, SettingsBindings};
use clickei::hooks::CapturedEvent;
use clickei::model::{MacroEventType, MouseButton};
use clickei::recorder::Recorder;

const MS: u64 = 1_000_000;

fn down(vk: i32) -> CapturedEvent {
    CapturedEvent::KeyDown { vk, scan_code: 1 }
}

fn up(vk: i32) -> CapturedEvent {
    CapturedEvent::KeyUp { vk, scan_code: 1 }
}

fn go(x: i32, y: i32) -> CapturedEvent {
    CapturedEvent::MouseMove { x, y }
}

/// A recorder that leaves out Ctrl+R, Ctrl+P and nothing for stop.
fn recorder() -> Recorder {
    let b = SettingsBindings {
        record: HotkeyCombo::new(2, 0x52),
        play: HotkeyCombo::new(2, 0x50),
        stop: HotkeyCombo::none(),
        static_clicker: HotkeyCombo::new(0, 0x75),
    };
    let mut r = Recorder::new(0);
    r.reset(Some(&b), 0);
    r
}

fn kinds(r: &Recorder) -> Vec<(MacroEventType, i32)> {
    r.events().iter().map(|e| (e.event_type, e.key_code)).collect()
}

#[test]
fn redundant_moves_are_dropped_with_their_time_kept() {
    let mut r = recorder();
    r.handle_captured(go(1, 1), 10 * MS);
    r.handle_captured(go(1, 1), 20 * MS);
    r.handle_captured(go(1, 1), 30 * MS);
    r.handle_captured(go(2, 1), 45 * MS);
    assert_eq!(r.event_count(), 2);
    assert_eq!(r.events()[0].delay_ms, 10);
    assert_eq!(r.events()[1].delay_ms, 35);
}

#[test]
fn auto_repeat_is_dropped() {
    let mut r = recorder();
    r.handle_captured(down(0x41), MS);
    r.handle_captured(down(0x41), 2 * MS);
    r.handle_captured(up(0x41), 3 * MS);
    r.handle_captured(up(0x41), 4 * MS);
    assert_eq!(kinds(&r), vec![(MacroEventType::KeyDown, 0x41), (MacroEventType::KeyUp, 0x41)]);
    assert_eq!(r.events()[1].delay_ms, 2);
    assert_eq!(r.events()[0].scan_code, 1);
}

#[test]
fn hotkeys_leave_no_trace() {
    let mut r = recorder();
    r.handle_captured(go(5, 5), MS);
    r.handle_captured(down(0xA2), 2 * MS);
    r.handle_captured(down(0x52), 3 * MS);
    assert_eq!(r.event_count(), 1);
    r.handle_captured(go(6, 6), 4 * MS);
    r.handle_captured(up(0xA2), 5 * MS);
    r.handle_captured(up(0x52), 6 * MS);
    assert_eq!(r.event_count(), 1);
    r.handle_captured(down(0x41), 9 * MS);
    assert_eq!(kinds(&r)[1], (MacroEventType::KeyDown, 0x41));
    assert_eq!(r.events()[1].delay_ms, 8);
    r.handle_captured(go(6, 6), 10 * MS);
    assert_eq!(r.event_count(), 2);
}

#[test]
fn other_modifiers_make_no_hotkey() {
    let mut r = recorder();
    r.handle_captured(down(0xA2), MS);
    r.handle_captured(down(0xA0), MS);
    r.handle_captured(down(0x52), MS);
    assert_eq!(r.event_count(), 3);
}

#[test]
fn modifier_presses_before_something_else_stay() {
    let mut r = recorder();
    r.handle_captured(down(0xA2), MS);
    r.handle_captured(go(1, 2), MS);
    r.handle_captured(down(0x50), MS);
    assert_eq!(r.event_count(), 2);
    r.handle_captured(up(0xA2), 3 * MS);
    r.handle_captured(up(0x50), 4 * MS);
    assert_eq!(
        kinds(&r),
        vec![
            (MacroEventType::KeyDown, 0xA2),
            (MacroEventType::MouseMove, 0),
            (MacroEventType::KeyUp, 0xA2),
        ]
    );
    assert_eq!(r.events()[2].delay_ms, 2);
}

#[test]
fn repeated_hotkeys_leave_no_trace() {
    let mut r = recorder();
    for ev in [down(0x11), down(0x52), up(0x52), down(0x52), up(0x52), up(0x11)] {
        r.handle_captured(ev, MS);
    }
    assert_eq!(r.event_count(), 0);
    let other = [down(0x11), down(0x52), up(0x52), down(0x11), down(0x50), up(0x50), up(0x11)];
    for ev in other {
        r.handle_captured(ev, MS);
    }
    assert_eq!(r.event_count(), 0);
    r.handle_captured(down(0x52), MS);
    assert_eq!(kinds(&r), vec![(MacroEventType::KeyDown, 0x52)]);
}

#[test]
fn no_key_stays_pressed() {
    let mut r = recorder();
    for ev in [down(0x41), down(0x11), go(1, 1), down(0x52), up(0x11), up(0x41), up(0x52)] {
        r.handle_captured(ev, MS);
    }
    for vk in [0x11, 0x41] {
        let last = r.events().iter().rev().find(|e| e.key_code == vk).unwrap();
        assert_eq!(last.event_type, MacroEventType::KeyUp);
    }
    assert!(r.events().iter().all(|e| e.key_code != 0x52));
}

#[test]
fn presses_under_a_hotkey_are_not_recorded() {
    let mut r = recorder();
    for ev in [down(0x11), down(0x52), down(0x41), up(0x41), up(0x52), up(0x11)] {
        r.handle_captured(ev, MS);
    }
    assert_eq!(r.event_count(), 0);
}

#[test]
fn delays_count_from_the_last_event_that_stays() {
    let mut r = recorder();
    r.handle_captured(go(1, 1), 0);
    r.handle_captured(down(0x11), 1000 * MS);
    r.handle_captured(down(0x52), 1100 * MS);
    r.handle_captured(up(0x52), 1200 * MS);
    r.handle_captured(up(0x11), 1250 * MS);
    r.handle_captured(go(2, 2), 1300 * MS);
    assert_eq!(r.event_count(), 2);
    assert_eq!(r.events()[1].delay_ms, 1300);

    let mut r = recorder();
    r.handle_captured(down(0x11), 10 * MS);
    r.handle_captured(down(0x52), 20 * MS);
    r.handle_captured(up(0x52), 30 * MS);
    r.handle_captured(go(1, 1), 50 * MS);
    assert_eq!(r.events()[0].delay_ms, 50);
    r.take_events();
    r.handle_captured(go(2, 2), 57 * MS);
    assert_eq!(r.events()[0].delay_ms, 7);
}

#[test]
fn unbound_keys_are_no_hotkeys() {
    let mut r = recorder();
    r.handle_captured(down(0), MS);
    assert_eq!(r.event_count(), 1);
    r.handle_captured(down(0x75), MS);
    assert_eq!(r.event_count(), 2);
}

#[test]
fn buttons_and_wheel_are_recorded() {
    let mut r = recorder();
    let samples = vec![
        (CapturedEvent::MouseDown { button: MouseButton::Left, x: 3, y: 4 }, MS),
        (go(3, 4), 2 * MS),
        (CapturedEvent::MouseUp { button: MouseButton::Left, x: 3, y: 4 }, 3 * MS),
        (CapturedEvent::MouseWheel { delta: -120 }, 3 * MS + 999_999),
    ];
    assert_eq!(r.drain_receiver(&samples), vec![1, 1, 2, 3]);
    let e = &r.events()[1];
    assert_eq!((e.event_type, e.button, e.x, e.y), (MacroEventType::MouseUp, MouseButton::Left, 3, 4));
    assert_eq!(r.events()[2].wheel_delta, -120);
    assert_eq!(r.events()[2].delay_ms, 0);
}

#[test]
fn long_waits_are_capped() {
    let mut r = Recorder::new(5 * MS);
    r.handle_captured(go(0, 0), 4 * MS);
    assert_eq!(r.events()[0].delay_ms, 0);
    r.handle_captured(go(1, 0), u64::MAX);
    assert_eq!(r.events()[1].delay_ms, i32::MAX);
}

#[test]
fn events_are_handed_out() {
    let mut r = recorder();
    r.handle_captured(go(0, 0), MS);
    let taken = r.take_events();
    assert_eq!(taken.len(), 1);
    assert_eq!(r.event_count(), 0);
    r.handle_captured(go(0, 0), MS);
    assert_eq!(r.event_count(), 0);
    r.handle_captured(go(0, 1), 2 * MS);
    let d = r.into_macro_data();
    assert_eq!(d.events.len(), 1);
    assert_eq!(d.loop_count, 1);
}

#[test]
fn delays_add_up_to_the_time() {
    let mut r = Recorder::new(0);
    let mut at = 0;
    for i in 0..50u64 {
        at += 1_234_567 * (i % 7);
        r.handle_captured(go((i / 3) as i32, 0), at);
    }
    let total: i64 = r.events().iter().map(|e| e.delay_ms as i64).sum();
    let n = r.event_count() as i64;
    assert!(total * 1_000_000 <= at as i64);
    assert!(total > 0 && n == 17);
}
