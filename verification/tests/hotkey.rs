use clickei::acrylic::{
    abgr, acrylic_policy, after_blur, after_dark_mode, blur_policy, dark_mode, AfterBlur,
};
use clickei::config::{HotkeyCombo, SettingsBindings};
use clickei::hotkey::{
    class_name, loop_step, not_ready_failures, register_failures, register_plan, window_message,
    ApplyOutcome, HotkeyId, HotkeyManager, LoopStep, RegisterResult, RegisterStep, WindowMessage,
};
use clickei::shell::{instance_refusal, route, AppScreen, HotkeyChange, Route, Shell};

fn bindings(record: i32, play: i32, stop: i32, clicker: i32) -> SettingsBindings {
    SettingsBindings {
        record: HotkeyCombo::new(2, record),
        play: HotkeyCombo::new(2, play),
        stop: HotkeyCombo::new(2, stop),
        static_clicker: HotkeyCombo::new(2, clicker),
    }
}

#[test]
fn hotkeys_have_numbers() {
    for (id, n) in [
        (HotkeyId::Record, 1),
        (HotkeyId::Play, 2),
        (HotkeyId::Stop, 3),
        (HotkeyId::Static, 4),
    ] {
        assert_eq!(id.as_i32(), n);
        assert_eq!(HotkeyId::from_i32(n), Some(id));
    }
    assert_eq!(HotkeyId::from_i32(0), None);
    assert_eq!(HotkeyId::from_i32(5), None);
}

#[test]
fn each_hotkey_is_registered_or_reported() {
    let plan = register_plan(&bindings(0x41, 0x42, 0x41, 0));
    assert_eq!(plan.len(), 3);
    let combo = HotkeyCombo::new(2, 0x42);
    assert_eq!(
        plan[1],
        RegisterStep::Register { id: HotkeyId::Play, combo, modifiers: 0x4002, key: 0x42 }
    );
    let results = vec![
        RegisterResult::Registered,
        RegisterResult::Refused { error: "E".to_string(), system: "S".to_string() },
        RegisterResult::Registered,
    ];
    assert_eq!(
        register_failures(&plan, &results),
        vec![
            "Record (Ctrl+A): assigned to two actions",
            "Play (Ctrl+B): already in use by another program (RegisterHotKey failed: E / S)",
            "Stop (Ctrl+A): assigned to two actions",
        ]
    );
    assert!(register_plan(&bindings(0, 0, 0, 0)).is_empty());
}

#[test]
fn missing_window_is_reported_for_each_hotkey() {
    assert_eq!(
        not_ready_failures(&bindings(1, 0, 2, 3)),
        vec![
            "Record: hotkey window not ready",
            "Stop: hotkey window not ready",
            "Static: hotkey window not ready",
        ]
    );
}

#[test]
fn manager_remembers_what_is_wanted() {
    let mut m = HotkeyManager::new();
    assert_eq!(m.current_bindings, SettingsBindings::default());
    let b = bindings(1, 2, 3, 4);
    assert_eq!(
        m.apply(b, ApplyOutcome::TimedOut),
        vec!["hotkey thread did not respond (timeout)"]
    );
    assert_eq!(m.current_bindings, b);
    assert_eq!(m.resume(ApplyOutcome::NotReady).len(), 4);
    let answered = ApplyOutcome::Answered { failures: vec!["x".to_string()] };
    assert_eq!(m.resume(answered), vec!["x"]);
    assert_eq!(m.current_bindings, b);
}

#[test]
fn window_messages_are_decoded() {
    assert_eq!(window_message(0x0312, 3), WindowMessage::Pressed { id: Some(HotkeyId::Stop) });
    assert_eq!(
        window_message(0x0312, 0xABCD_0001),
        WindowMessage::Pressed { id: Some(HotkeyId::Record) }
    );
    assert_eq!(window_message(0x0312, 9), WindowMessage::Pressed { id: None });
    assert_eq!(window_message(0x8001, 0), WindowMessage::Apply);
    assert_eq!(window_message(0x8002, 0), WindowMessage::Unregister);
    assert_eq!(window_message(0x0010, 0), WindowMessage::Close);
    assert_eq!(window_message(0x0011, 0), WindowMessage::Other);
    assert_eq!(loop_step(0), LoopStep::Quit);
    assert_eq!(loop_step(-1), LoopStep::Failed);
    assert_eq!(loop_step(1), LoopStep::Dispatch);
    assert_eq!(class_name(0xAB), "TTE_Hotkey_00000000000000ab\0");
}

#[test]
fn only_the_shown_window_gets_hotkeys() {
    assert_eq!(route(AppScreen::Recording, HotkeyId::Play), Route::ToRecording);
    assert_eq!(route(AppScreen::Recording, HotkeyId::Static), Route::Ignored);
    assert_eq!(route(AppScreen::StaticClicker, HotkeyId::Static), Route::ToClicker);
    assert_eq!(route(AppScreen::StaticClicker, HotkeyId::Record), Route::Ignored);
}

#[test]
fn shell_switches_and_suspends() {
    let mut s = Shell::new();
    assert_eq!(s.screen, AppScreen::StaticClicker);
    assert_eq!(s.switch_to(AppScreen::StaticClicker), None);
    assert_eq!(s.switch_to(AppScreen::Recording), Some(AppScreen::StaticClicker));
    assert_eq!(s.screen.label(), "Recording");
    assert_eq!(s.screen.viewport_size(), (440, 300));
    assert_eq!(AppScreen::StaticClicker.viewport_size(), (520, 460));
    assert_eq!(s.note_dialog(false), HotkeyChange::Unchanged);
    assert_eq!(s.note_dialog(true), HotkeyChange::Suspend);
    assert_eq!(s.note_dialog(true), HotkeyChange::Unchanged);
    assert_eq!(s.note_dialog(false), HotkeyChange::Reapply);
    assert_eq!(instance_refusal(183), Some("Clickei is already running."));
    assert_eq!(instance_refusal(0), None);
}

#[test]
fn tints_are_turned_round() {
    assert_eq!(abgr(0x112233, 0xAF), 0xAF332211);
    assert_eq!(abgr(0xFF_112233, 0), 0x00332211);
    let p = acrylic_policy(7, 0x010203, 255).unwrap();
    assert_eq!((p.accent_state, p.accent_flags, p.gradient_color, p.animation_id), (4, 2, 0xFF030201, 0));
    assert_eq!(acrylic_policy(0, 1, 1), None);
    let p = blur_policy(7).unwrap();
    assert_eq!((p.accent_state, p.accent_flags, p.gradient_color), (3, 0, 0));
    assert_eq!(blur_policy(0), None);
}

#[test]
fn looks_fall_back() {
    assert_eq!(after_blur(true, true), AfterBlur::DarkTitleBar);
    assert_eq!(after_blur(false, true), AfterBlur::TryPlain);
    assert_eq!(after_blur(true, false), AfterBlur::DarkTitleBar);
    assert_eq!(after_blur(false, false), AfterBlur::GiveUp);
    assert_eq!((dark_mode().attribute, dark_mode().value), (20, 1));
    let list: Vec<(i32, i32)> = after_dark_mode(true).iter().map(|a| (a.attribute, a.value)).collect();
    assert_eq!(list, vec![(19, 1), (33, 2)]);
    assert_eq!(after_dark_mode(false).len(), 1);
}
