use std::collections::HashSet;

use clickei::config::{AppConfig, HotkeyCombo};
use clickei::double::Double;
use clickei::hooks::CapturedEvent;
use clickei::hotkey::HotkeyId;
use clickei::keys::{key_state_is_down, modifier_belongs, modifier_keys, vk_of_name};
use clickei::model::{MacroData, MacroEvent, MacroEventType, MouseButton};
use clickei::ui::capture::{keys_to_ask, poll_win32_hotkey, ui_hotkey};
use clickei::ui::console::{is_warning, line_of, plain_line_of, timestamp, Console};
use clickei::ui::interval::{compose_interval_ms, format_interval, split_interval_ms, unit_name};
use clickei::ui::main_window::{
    hotkey_row_label, program_name, Command, MainWindow, PlaybackSettings, PlayerMsg,
};

const MS: u64 = 1_000_000;
const NOON: u64 = 12 * 3600;

fn window() -> MainWindow {
    MainWindow::new(&AppConfig::default(), true, NOON, 0)
}

fn last(w: &MainWindow) -> String {
    w.console.line(w.console.len() - 1).to_string()
}

fn go(x: i32) -> CapturedEvent {
    CapturedEvent::MouseMove { x, y: 0 }
}

fn event(x: i32) -> MacroEvent {
    MacroEvent {
        event_type: MacroEventType::MouseMove,
        x,
        y: 0,
        button: MouseButton::NoButton,
        key_code: 0,
        scan_code: 0,
        wheel_delta: 0,
        delay_ms: 7,
    }
}

/// A window with a macro of three events.
fn with_macro() -> MainWindow {
    let mut w = window();
    w.macro_data = Some(MacroData::of_events(vec![event(1), event(2), event(3)]));
    w
}

#[test]
fn intervals_are_split_and_composed() {
    for (ms, split, shown) in [
        (0, (0, 0), "0ms"),
        (1, (1, 0), "1ms"),
        (1000, (1, 1), "1s"),
        (1500, (1500, 0), "1500ms"),
        (60_000, (1, 2), "1m"),
        (90_000, (90, 1), "90s"),
        (3_600_000, (1, 3), "1h"),
        (7_200_000, (2, 3), "2h"),
        (i32::MAX, (i32::MAX, 0), "2147483647ms"),
        (-1000, (-1, 1), "-1s"),
        (-7, (-7, 0), "-7ms"),
    ] {
        assert_eq!(split_interval_ms(ms), split);
        assert_eq!(format_interval(ms), shown);
        assert_eq!(compose_interval_ms(split.0, split.1), ms.max(0));
    }
    assert_eq!(compose_interval_ms(i32::MAX, 3), i32::MAX);
    assert_eq!(compose_interval_ms(5, 9), 5);
    assert_eq!([unit_name(0), unit_name(1), unit_name(2), unit_name(3)], ["ms", "sec", "min", "hr"]);
}

#[test]
fn console_lines_have_a_time_and_a_mark() {
    assert_eq!(timestamp(86400 * 3 + 3661), "01:01:01");
    assert_eq!(timestamp(86399), "23:59:59");
    assert_eq!(line_of(0, "hi", false), "[00:00:00] ● hi");
    assert_eq!(line_of(0, "hi", true), "[00:00:00] ! hi");
    assert_eq!(plain_line_of(0, "hi"), "[00:00:00] hi");
    assert!(is_warning("[00:00:00] ! hi"));
    assert!(is_warning("WARN"));
    assert!(!is_warning("[00:00:00] ● hi!"));
}

#[test]
fn console_is_cut_to_its_last_lines() {
    let mut c = Console::new();
    for i in 0..400 {
        c.add_line(format!("{}", i));
    }
    assert_eq!(c.len(), 400);
    c.add_line("400".to_string());
    assert_eq!(c.len(), 300);
    assert_eq!(c.line(0), "101");
    assert_eq!(c.line(299), "400");
}

#[test]
fn windows_open_with_the_stored_settings() {
    let mut cfg = AppConfig::default();
    cfg.default_speed = Double { bits: 99.0f64.to_bits() };
    cfg.loop_count = 0;
    cfg.interval_ms = 120_000;
    let w = MainWindow::new(&cfg, true, NOON, 0);
    assert_eq!(f64::from_bits(w.settings.speed.bits), 10.0);
    assert_eq!(w.settings.loop_count, 1);
    assert_eq!((w.settings.interval_value, w.settings.interval_unit), (2, 2));
    assert_eq!(w.transport.total_loops, Some(1));
    assert_eq!(w.console.len(), 2);
    assert_eq!(
        w.console.line(0),
        "[12:00:00] Ready. Right-click for file, playback & settings options."
    );
    assert_eq!(
        last(&w),
        "[12:00:00] Hotkeys: Record=Ctrl+Alt+Shift+R  Play=Ctrl+Alt+Shift+P  Stop=Ctrl+Alt+Shift+S"
    );
    assert_eq!(MainWindow::new(&cfg, false, NOON, 0).console.len(), 1);
}

#[test]
fn recordings_become_the_macro() {
    let mut w = window();
    w.open_path = Some("old".to_string());
    assert_eq!(w.toggle_record(&vec![], NOON, 0), Command::InstallHooks);
    w.hooks_installed(None, NOON);
    assert!(w.transport.recording && w.open_path.is_none());
    assert_eq!(last(&w), "[12:00:00] ● Recording…");
    w.drain_hooks(&vec![(go(1), MS)]);
    assert_eq!(w.status(), "● Rec (1 ev)");
    assert_eq!(w.record_label(), "■ Stop");
    assert_eq!(w.toggle_record(&vec![(go(2), 3 * MS)], NOON, 4 * MS), Command::RemoveHooks);
    assert_eq!(last(&w), "[12:00:00] ● 2 event(s) recorded.");
    let d = w.macro_data.as_ref().unwrap();
    assert_eq!(d.events.len(), 2);
    assert_eq!(d.events[1].delay_ms, 2);
    assert_eq!(w.status(), "2 ev • 1× • 0ms");
    assert_eq!(w.record_label(), "● Record");
}

#[test]
fn failed_hooks_record_nothing() {
    let mut w = with_macro();
    assert_eq!(w.start_recording(NOON, 0), Command::InstallHooks);
    w.hooks_installed(Some("no".to_string()), NOON);
    assert!(!w.transport.recording);
    assert!(w.macro_data.is_some());
    assert_eq!(last(&w), "[12:00:00] ! Could not install hooks: no");
}

#[test]
fn playback_takes_the_settings() {
    let mut w = with_macro();
    w.settings = PlaybackSettings {
        speed: Double::one(),
        loop_count: 4,
        infinite: false,
        interval_value: 2,
        interval_unit: 1,
    };
    assert_eq!(w.toggle_play_pause(&vec![], NOON), Command::Play);
    assert_eq!(last(&w), "[12:00:00] ● Playing… (loop 1/4)");
    let d = w.macro_data.as_ref().unwrap();
    assert_eq!((d.loop_count, d.interval_ms), (4, 2000));
    w.poll_player(&vec![PlayerMsg::LoopStarted { current: 2, total: Some(4) }], NOON);
    assert_eq!(w.status(), "▶ 2 / 4");
    assert_eq!(w.play_label(), "⏸ Pause");
    assert_eq!(w.toggle_play_pause(&vec![], NOON), Command::PausePlayer);
    assert_eq!(last(&w), "[12:00:00] ● Paused (loop 2/4)");
    assert_eq!(w.status(), "⏸ 2 / 4");
    assert_eq!(w.play_label(), "▶ Play");
    assert_eq!(w.toggle_play_pause(&vec![], NOON), Command::ResumePlayer);
    assert_eq!(last(&w), "[12:00:00] ● Resumed (loop 2/4)");
    w.poll_player(&vec![PlayerMsg::PauseChanged(true), PlayerMsg::Completed(true)], NOON);
    assert!(!w.transport.playing && !w.transport.paused);
    assert_eq!(last(&w), "[12:00:00] ● Playback finished (2/4 loops)");
}

#[test]
fn playback_needs_events() {
    let mut w = window();
    assert_eq!(w.start_playback(&vec![], NOON), Command::Nothing);
    assert_eq!(last(&w), "[12:00:00] ! Nothing to play yet — record or open a macro.");
    w.macro_data = Some(MacroData::default());
    assert_eq!(w.start_playback(&vec![], NOON), Command::Nothing);
    assert_eq!(last(&w), "[12:00:00] ! Nothing to play yet — macro is empty.");
}

#[test]
fn recording_and_playing_exclude_each_other() {
    let mut w = with_macro();
    w.start_playback(&vec![], NOON);
    assert_eq!(w.handle_hotkey(HotkeyId::Record, &vec![], NOON, 0), Command::StopPlayerAndInstallHooks);
    assert!(!w.transport.playing);
    w.hooks_installed(None, NOON);
    assert_eq!(w.handle_hotkey(HotkeyId::Play, &vec![], NOON, 0), Command::RemoveHooks);
    assert!(!w.transport.recording && !w.transport.playing);
    assert_eq!(w.handle_hotkey(HotkeyId::Static, &vec![], NOON, 0), Command::Nothing);
}

#[test]
fn stopping_says_what_stopped() {
    let mut w = with_macro();
    assert_eq!(w.stop_all(&vec![], NOON), Command::Nothing);
    assert_eq!(last(&w), "[12:00:00] ● Idle.");
    w.settings.infinite = true;
    w.start_playback(&vec![], NOON);
    assert_eq!(last(&w), "[12:00:00] ● Playing… (loop 1/∞)");
    assert_eq!(w.stop_all(&vec![], NOON), Command::StopPlayer);
    assert_eq!(last(&w), "[12:00:00] ● Stopped.");
    w.poll_player(&vec![PlayerMsg::Completed(false)], NOON);
    assert_eq!(last(&w), "[12:00:00] ● Playback stopped.");
    w.poll_player(&vec![PlayerMsg::Completed(true)], NOON);
    assert_eq!(last(&w), "[12:00:00] ● Playback finished (0 infinite loop(s))");
}

#[test]
fn leaving_and_emergency_stop_end_everything() {
    let mut w = with_macro();
    w.start_playback(&vec![], NOON);
    w.do_settings();
    assert!(w.on_leave(&vec![], NOON));
    assert!(!w.is_busy() && !w.dialogs.settings);
    w.start_recording(NOON, 0);
    w.hooks_installed(None, NOON);
    w.drain_hooks(&vec![(go(1), 1)]);
    assert!(!w.emergency_stop(NOON));
    assert!(!w.is_busy());
    assert_eq!(w.recorder.event_count(), 0);
    assert_eq!(last(&w), "[12:00:00] ! ⚠ Emergency stop triggered");
}

#[test]
fn macros_are_saved_and_opened() {
    let mut w = window();
    assert!(w.do_save(NOON).is_none());
    assert_eq!(last(&w), "[12:00:00] ! Nothing to save yet.");
    let mut w = with_macro();
    w.settings.loop_count = 6;
    w.settings.speed = Double { bits: 2.5f64.to_bits() };
    let d = w.do_save(NOON).unwrap();
    assert_eq!(d.loop_count, 6);
    let mut c = AppConfig::default();
    assert!(!w.saved(d.clone(), "a.ttx".to_string(), Some("full".to_string()), NOON, &mut c));
    assert_eq!(c.last_file_path, None);
    assert_eq!(last(&w), "[12:00:00] ! Could not save: full");
    assert_eq!(w.open_path, None);
    assert!(w.saved(d.clone(), "a.ttx".to_string(), None, NOON, &mut c));
    assert_eq!(c.last_file_path, Some("a.ttx".to_string()));
    assert_eq!(last(&w), "[12:00:00] ● Saved 3 event(s) → a.ttx");
    assert_eq!(w.open_path, Some("a.ttx".to_string()));
    w.settings.loop_count = 1;
    w.settings.speed = Double::one();
    assert!(w.do_open(NOON));
    let mut c = AppConfig::default();
    assert!(w.opened(Ok(d), "a.ttx".to_string(), NOON, &mut c));
    assert_eq!(c.last_file_path, Some("a.ttx".to_string()));
    assert_eq!(w.settings.loop_count, 6);
    assert_eq!(f64::from_bits(w.settings.speed.bits), 2.5);
    assert_eq!(w.transport.total_loops, Some(6));
    assert_eq!(last(&w), "[12:00:00] ● Loaded 3 event(s) from a.ttx");
    assert!(!w.opened(Err("bad".to_string()), "b.ttx".to_string(), NOON, &mut c));
    assert_eq!(c.last_file_path, Some("a.ttx".to_string()));
    assert_eq!(last(&w), "[12:00:00] ! Open failed: bad");
    w.start_playback(&vec![], NOON);
    assert!(!w.do_open(NOON));
    assert_eq!(last(&w), "[12:00:00] ! Cannot open while recording/playing.");
}

#[test]
fn programs_are_asked_for() {
    let mut w = window();
    assert!(w.do_compile(NOON).is_none());
    assert_eq!(last(&w), "[12:00:00] ! Nothing to compile yet.");
    let mut w = with_macro();
    assert!(w.do_compile(NOON).is_some());
    assert!(!w.compile_saved("a".to_string(), Some("e".to_string()), NOON));
    assert_eq!(last(&w), "[12:00:00] ! Could not write temp macro: e");
    assert!(w.compile_saved("a".to_string(), None, NOON));
    assert_eq!(w.open_path, Some("a".to_string()));
    w.compile_requested("a", "b", NOON);
    assert_eq!(
        w.console.line(w.console.len() - 2),
        "[12:00:00] ● Compile requested: macro=a → exe=b"
    );
    assert_eq!(program_name(Some("x")), "x.exe");
    assert_eq!(program_name(None), "macro.exe");
}

#[test]
fn editor_moves_and_deletes() {
    let mut w = window();
    w.do_edit(NOON);
    assert!(!w.dialogs.editor);
    assert_eq!(last(&w), "[12:00:00] ! Nothing to edit yet.");
    let mut w = with_macro();
    w.open_path = Some("a".to_string());
    w.do_edit(NOON);
    assert_eq!(w.editor_row(1), "  1: Move  (2, 0)  [7ms]");
    assert!(!w.can_move_up(0) && w.can_move_up(2) && !w.can_move_up(3));
    assert!(w.can_move_down(1) && !w.can_move_down(2));
    w.editor_move_down(0);
    assert_eq!(w.editor_events, vec![event(2), event(1), event(3)]);
    w.editor_move_up(1);
    assert_eq!(w.editor_events, vec![event(1), event(2), event(3)]);
    w.editor_delete(1);
    w.editor_apply(NOON);
    assert_eq!(last(&w), "[12:00:00] ● Edited macro — 2 event(s).");
    assert_eq!(w.macro_data.as_ref().unwrap().events, vec![event(1), event(3)]);
    assert!(!w.dialogs.editor && w.open_path.is_none());
    w.do_edit(NOON);
    w.editor_clear();
    w.editor_cancel();
    assert_eq!(w.macro_data.as_ref().unwrap().events.len(), 2);
}

#[test]
fn hotkeys_are_rebound() {
    let mut w = window();
    w.do_settings();
    w.captured(Some(HotkeyCombo::new(0, 1)));
    assert_eq!(w.bindings.play, HotkeyCombo::new(7, 0x50));
    w.begin_capture(HotkeyId::Play);
    assert_eq!(w.hotkey_button(HotkeyId::Play), "⌨ Capturing…");
    w.captured(None);
    assert_eq!(w.dialogs.capturing, Some(HotkeyId::Play));
    w.captured(Some(HotkeyCombo::new(7, 0x52)));
    assert_eq!(w.hotkey_button(HotkeyId::Play), "Ctrl+Alt+Shift+R");
    assert_eq!(w.duplicates(), vec!["Duplicate: Record and Play both Ctrl+Alt+Shift+R"]);
    w.clear_hotkey(HotkeyId::Play);
    assert!(w.duplicates().is_empty());
    w.clear_hotkey(HotkeyId::Stop);
    assert!(w.duplicates().is_empty());
    let mut cfg = AppConfig::default();
    assert!(w.settle_bindings(true, &mut cfg));
    assert_eq!(w.bindings.play, HotkeyCombo::none());
    assert_eq!(cfg.hotkeys.get("Play"), Some(HotkeyCombo::none()));
    w.close_settings(true, Some(vec![]), NOON);
    assert_eq!(last(&w), "[12:00:00] ● Hotkeys updated.");
    w.close_settings(true, Some(vec!["x".to_string()]), NOON);
    assert_eq!(last(&w), "[12:00:00] ! Hotkey warning: x");
    w.close_settings(false, Some(vec!["y".to_string()]), NOON);
    assert_eq!(last(&w), "[12:00:00] ! Hotkey resume warning: y");
    let n = w.console.len();
    w.close_settings(false, None, NOON);
    assert_eq!(w.console.len(), n);
    let mut stored = AppConfig::default();
    assert!(!w.settle_bindings(false, &mut stored));
    assert_eq!(stored.hotkeys.get("Play"), AppConfig::default().hotkeys.get("Play"));
    assert_eq!(w.bindings.play, HotkeyCombo::new(7, 0x50));
    assert_eq!(hotkey_row_label(HotkeyId::Stop), "Stop  ");
    assert_eq!(w.hover_text("Record", HotkeyId::Record), "Record (Ctrl+Alt+Shift+R)");
}

#[test]
fn options_are_taken_over() {
    let mut w = with_macro();
    w.do_playback_options();
    w.settings.loop_count = 8;
    let mut c = AppConfig::default();
    assert!(!w.close_playback_options(false, NOON, &mut c));
    assert_eq!(c.loop_count, AppConfig::default().loop_count);
    assert_eq!(w.macro_data.as_ref().unwrap().loop_count, 1);
    assert!(w.close_playback_options(true, NOON, &mut c));
    assert_eq!(c.loop_count, 8);
    assert_eq!(w.macro_data.as_ref().unwrap().loop_count, 8);
    assert_eq!(w.transport.total_loops, Some(8));
    assert_eq!(last(&w), "[12:00:00] ● Playback options updated.");
    w.toggle_always_on_top(NOON, &mut c);
    assert!(c.always_on_top);
    assert_eq!(last(&w), "[12:00:00] ● Always on top — on.");
    assert_eq!(w.top_label(), "☑ Always on top");
    assert!(w.take_top_request());
    assert!(!w.take_top_request());
    w.toggle_always_on_top(NOON, &mut c);
    assert!(!c.always_on_top);
    assert_eq!(last(&w), "[12:00:00] ● Always on top — off.");
    w.set_context(true);
    assert!(w.dialogs.context);
}

#[test]
fn offers_depend_on_what_runs() {
    let w = window();
    assert_eq!(w.status(), "Idle • 0ms");
    assert!(!w.offers().save && w.offers().open && !w.offers().stop && w.offers().play);
    let mut w = with_macro();
    assert!(w.offers().save && w.offers().edit && w.offers().compile);
    w.start_playback(&vec![], NOON);
    assert!(!w.offers().open && w.offers().stop && w.offers().save);
    w.start_recording(NOON, 0);
    w.hooks_installed(None, NOON);
    assert!(!w.offers().play && !w.offers().save && !w.offers().playback_options);
}

#[test]
fn pressed_combinations_are_caught() {
    let caught = |keys: &[i32]| {
        let down: HashSet<i32> = keys.iter().copied().collect();
        poll_win32_hotkey(&down)
    };
    assert_eq!(caught(&[]), None);
    assert_eq!(caught(&[0xA2]), None);
    assert_eq!(caught(&[0x1B]), Some(HotkeyCombo::none()));
    assert_eq!(caught(&[0x1B, 0xA2]), Some(HotkeyCombo::new(2, 0x1B)));
    assert_eq!(caught(&[0x61, 0x31]), Some(HotkeyCombo::new(0, 0x61)));
    assert_eq!(caught(&[0x11, 0x10, 0x12, 0x5B, 0x75]), Some(HotkeyCombo::new(15, 0x75)));
    assert_eq!(caught(&[0x41, 0x20]), Some(HotkeyCombo::new(0, 0x41)));
    assert_eq!(caught(&[0x2C]), Some(HotkeyCombo::new(0, 0x2C)));
    assert_eq!(keys_to_ask().len(), 10 + 5 + 12 + 10 + 10 + 26 + 6 + 11);
}

#[test]
fn named_keys_are_caught() {
    let names: Vec<String> = ["Minus", "PageUp", "A"].iter().map(|s| s.to_string()).collect();
    assert_eq!(ui_hotkey(false, true, false, true, &names), Some(HotkeyCombo::new(3, 0x21)));
    assert_eq!(ui_hotkey(true, true, false, true, &names), Some(HotkeyCombo::none()));
    assert_eq!(ui_hotkey(false, true, false, false, &vec![]), None);
    for (name, vk) in [
        ("A", Some(0x41)),
        ("Z", Some(0x5A)),
        ("0", Some(0x30)),
        ("F1", Some(0x70)),
        ("F12", Some(0x7B)),
        ("F13", None),
        ("Escape", Some(0x1B)),
        ("Space", Some(0x20)),
        ("Enter", Some(0x0D)),
        ("Tab", Some(0x09)),
        ("Backspace", Some(0x08)),
        ("Delete", Some(0x2E)),
        ("Insert", Some(0x2D)),
        ("Home", Some(0x24)),
        ("End", Some(0x23)),
        ("PageDown", Some(0x22)),
        ("Left", Some(0x25)),
        ("Up", Some(0x26)),
        ("Right", Some(0x27)),
        ("Down", Some(0x28)),
        ("a", None),
    ] {
        assert_eq!(vk_of_name(name), vk, "{}", name);
    }
}

#[test]
fn key_names_are_those_of_the_window_system() {
    for (key, vk) in [
        (egui::Key::A, 0x41),
        (egui::Key::Num7, 0x37),
        (egui::Key::F12, 0x7B),
        (egui::Key::Escape, 0x1B),
        (egui::Key::ArrowLeft, 0x25),
        (egui::Key::ArrowDown, 0x28),
        (egui::Key::PageUp, 0x21),
        (egui::Key::PageDown, 0x22),
        (egui::Key::Backspace, 0x08),
        (egui::Key::Space, 0x20),
        (egui::Key::Enter, 0x0D),
        (egui::Key::Tab, 0x09),
        (egui::Key::Delete, 0x2E),
        (egui::Key::Insert, 0x2D),
        (egui::Key::Home, 0x24),
        (egui::Key::End, 0x23),
    ] {
        assert_eq!(vk_of_name(key.name()), Some(vk));
    }
    assert_eq!(vk_of_name(egui::Key::Minus.name()), None);
}

#[test]
fn modifiers_belong_to_combinations() {
    let c = HotkeyCombo::new(2, 1);
    assert!(modifier_belongs(&c, 0xA3));
    assert!(!modifier_belongs(&c, 0xA0));
    assert!(!modifier_belongs(&c, 0x41));
    assert_eq!(modifier_keys().len(), 11);
    assert!(key_state_is_down(i16::MIN));
    assert!(!key_state_is_down(1));
}

#[test]
fn kept_settings_open_again() {
    let mut w = window();
    w.settings.speed = Double { bits: 4.0f64.to_bits() };
    w.settings.loop_count = 12;
    w.settings.infinite = true;
    w.settings.interval_value = 120;
    w.settings.interval_unit = 1;
    w.always_on_top = true;
    w.bindings.play = HotkeyCombo::new(2, 0x51);
    let mut c = AppConfig::default();
    w.persist_config(&mut c);
    assert_eq!(c.interval_ms, 120_000);
    let again = MainWindow::new(&c, false, NOON, 0);
    assert_eq!(again.bindings, w.bindings);
    assert!(again.always_on_top && again.settings.infinite);
    assert_eq!(again.settings.speed, w.settings.speed);
    assert_eq!(again.settings.loop_count, 12);
    assert_eq!((again.settings.interval_value, again.settings.interval_unit), (2, 2));
}
