use std::collections::HashSet;

use clickei::config::{AppConfig, HotkeyCombo};
use clickei::double::Double;
use clickei::hooks::SafeHwnd;
use clickei::model::{ClickType, CursorMode, MouseButton, SequenceTarget};
use clickei::static_clicker::{ClickMode, RepeatMode};
use clickei::ui::sequence_window::{
    delete_target, picking_label, pop_label, row_mark, row_number, shown, summary, toggle_expand,
    typed, warns_off, PanelAction,
};
use clickei::ui::static_clicker_window::{
    button_name, click_type_name, conflict_text, finish_note, ClickerCommand, PickInput, SideRoom,
    StaticClickerWindow,
};

fn window() -> StaticClickerWindow {
    StaticClickerWindow::new(&AppConfig::default(), 0)
}

fn keys(list: &[i32]) -> HashSet<i32> {
    list.iter().copied().collect()
}

fn input(left_down: bool) -> PickInput {
    PickInput { escape: false, left_down, cursor: Some((3, -4)), over_app: false, window: Some(SafeHwnd(9)) }
}

fn target(x: i32) -> SequenceTarget {
    SequenceTarget { x, y: 0, clicks: 1, interval_ms: 500 }
}

#[test]
fn clicker_opens_with_the_stored_settings() {
    let w = window();
    assert_eq!(w.status, "Ready. Set interval and press Start (F6)");
    assert_eq!(w.fields.total_ms(), 100);
    let mut c = AppConfig::default();
    c.static_clicker_interval_ms = 3_600_000 + 2 * 60_000 + 3 * 1000 + 4;
    c.static_clicker_cursor_mode = CursorMode::Fixed { x: 7, y: 8 };
    c.static_clicker_foreground = false;
    c.static_clicker_bg_title = "Game".to_string();
    c.static_clicker_interval_jitter_ms = 20_000;
    c.static_clicker_position_jitter_px = u32::MAX;
    c.sequence_panel_width = Double { bits: 9000.0f64.to_bits() };
    let w = StaticClickerWindow::new(&c, 5);
    let f = w.fields;
    assert_eq!((f.hours, f.mins, f.secs, f.millis), (1, 2, 3, 4));
    assert_eq!((f.fixed_x, f.fixed_y), (7, 8));
    assert_eq!((f.interval_jitter_ms, f.position_jitter_px), (9999, 0));
    assert_eq!(w.bg_hwnd, Some(SafeHwnd(5)));
    assert_eq!(f64::from_bits(w.panel.width.bits), 500.0);
    c.static_clicker_foreground = true;
    assert_eq!(StaticClickerWindow::new(&c, 5).bg_hwnd, None);
    c.static_clicker_interval_ms = 0;
    assert_eq!(StaticClickerWindow::new(&c, 5).fields.total_ms(), 1);
}

#[test]
fn intervals_of_fields() {
    let mut f = window().fields;
    f.hours = -5;
    f.mins = 1;
    f.secs = 1;
    f.millis = 1;
    assert_eq!(f.total_ms(), 61_001);
    f.mins = 0;
    f.secs = 0;
    f.millis = 0;
    assert_eq!(f.total_ms(), 1);
    f.hours = i32::MAX;
    assert_eq!(f.total_ms(), i32::MAX as u64 * 3_600_000);
}

#[test]
fn stored_settings_open_again() {
    let mut w = window();
    w.fields.mins = 3;
    w.fields.button = MouseButton::Middle;
    w.fields.click_type = ClickType::Double;
    w.fields.interval_jitter_ms = 50;
    w.sequence_targets = vec![target(1), target(2)];
    w.bg_title = "Game".to_string();
    w.panel.collapsed = true;
    let mut c = AppConfig::default();
    w.persist_static_state(&mut c);
    w.persist_panel_state(&mut c);
    let again = StaticClickerWindow::new(&c, 0);
    assert_eq!(again.fields, w.fields);
    assert_eq!(again.sequence_targets, w.sequence_targets);
    assert_eq!(again.bg_title, "Game");
    assert!(again.panel.collapsed);
}

#[test]
fn presets_are_saved_loaded_and_deleted() {
    let mut c = AppConfig::default();
    let mut w = window();
    assert!(!c.has_presets());
    w.preset_input = "   ".to_string();
    assert!(!w.handle_preset_save(&mut c));
    assert_eq!(w.status, "Preset name cannot be empty — enter a name first");
    assert!(w.is_warning);
    w.preset_input = " Boss ".to_string();
    w.fields.secs = 5;
    w.sequence_targets = vec![target(9)];
    assert!(w.handle_preset_save(&mut c));
    assert!(c.has_presets());
    assert_eq!(w.status, "Preset 'Boss' saved");
    assert_eq!(w.preset_selected, "Boss");
    let saved = w.fields;
    w.fields.secs = 6;
    w.fields.foreground = false;
    w.sequence_targets.clear();
    assert!(!w.handle_preset_save(&mut c));
    assert!(w.dialogs.overwrite);
    assert!(!w.answer_overwrite(false, &mut c));
    assert!(!w.dialogs.overwrite);
    assert!(w.handle_preset_load(true, &c).is_none());
    assert_eq!(w.status, "Stop the clicker before loading a preset");
    let p = w.handle_preset_load(false, &c).unwrap();
    w.load_preset(&p, 0, &mut c);
    assert_eq!(c.static_clicker_interval_ms, saved.total_ms());
    assert_eq!(c.static_clicker_sequence_targets, vec![target(9)]);
    assert_eq!(w.fields, saved);
    assert_eq!(w.sequence_targets, vec![target(9)]);
    assert_eq!(w.status, "Preset 'Boss' loaded");
    assert!(w.can_delete_preset(&c));
    w.handle_preset_delete(&c);
    assert!(w.dialogs.delete);
    assert!(w.answer_delete(true, &mut c));
    assert_eq!(w.status, "Preset 'Boss' deleted");
    assert_eq!((w.preset_selected.as_str(), w.preset_input.as_str()), ("", ""));
    assert_eq!(c.static_clicker_presets.len(), 0);
    assert_eq!(w.preset_label(), "— New Preset —");
    w.handle_preset_delete(&c);
    assert_eq!(w.status, "Select a preset first");
    w.select_preset("Gone".to_string());
    w.handle_preset_delete(&c);
    assert_eq!(w.status, "Preset 'Gone' not found");
    assert!(w.handle_preset_load(false, &c).is_none());
    assert_eq!(w.status, "Preset 'Gone' not found");
    w.select_new_preset();
    assert_eq!(w.preset_input, "Gone");
}

#[test]
fn presets_are_overwritten_after_a_question() {
    let mut c = AppConfig::default();
    let mut w = window();
    w.preset_input = "A".to_string();
    w.handle_preset_save(&mut c);
    w.fields.repeat_count = -7;
    w.fields.hours = 9999;
    w.handle_preset_save(&mut c);
    assert!(w.answer_overwrite(true, &mut c));
    assert_eq!(c.static_clicker_presets.len(), 1);
    assert_eq!(c.static_clicker_presets[0].repeat_count, 1);
    assert_eq!(c.static_clicker_presets[0].interval_ms, u32::MAX);
}

#[test]
fn clicker_starts_with_its_settings() {
    let mut w = window();
    w.fields.cursor_mode = CursorMode::Fixed { x: 0, y: 0 };
    w.fields.fixed_x = 5;
    w.fields.repeat_until_stopped = false;
    w.fields.repeat_count = 0;
    w.clicks_done = 9;
    assert!(w.start_clicker(true, true).is_none());
    let c = w.start_clicker(false, true).unwrap();
    assert_eq!(c.cursor, CursorMode::Fixed { x: 5, y: 0 });
    assert_eq!(w.fields.cursor_mode, c.cursor);
    assert_eq!(c.repeat, RepeatMode::Count(1));
    assert_eq!(c.mode, ClickMode::Foreground);
    assert_eq!(c.interval_ms, 100);
    assert_eq!(w.status, "Running… interval 100 ms");
    assert_eq!(w.clicks_done, 0);
    assert_eq!(w.status_line(true), "Running… 0 clicks");
}

#[test]
fn clicker_refuses_to_start_without_what_it_needs() {
    let mut w = window();
    w.fields.cursor_mode = CursorMode::MultiTarget;
    assert!(w.start_clicker(false, true).is_none());
    assert_eq!(w.status, "Add at least 1 target first");
    assert!(w.lacks_targets());
    w.fields.sequence_enabled = false;
    assert!(w.start_clicker(false, true).is_some());
    w.fields.foreground = false;
    assert!(w.start_clicker(false, true).is_none());
    assert_eq!(w.status, "Background mode: pick a window first");
    w.bg_hwnd = Some(SafeHwnd(3));
    assert!(w.start_clicker(false, false).is_none());
    assert_eq!(w.status, "Selected window is no longer valid — pick again");
    assert_eq!(w.start_clicker(false, true).unwrap().mode, ClickMode::Background(SafeHwnd(3)));
    w.fields.sequence_enabled = true;
    w.sequence_targets.push(target(1));
    assert!(w.start_clicker(false, true).is_some());
    assert_eq!(w.status, "Running sequence… 1 target(s)");
}

#[test]
fn held_hotkey_acts_once() {
    let mut w = window();
    let f6 = keys(&[0x75]);
    assert!(matches!(w.handle_hotkey(false, true, &f6), ClickerCommand::Start { .. }));
    assert!(matches!(w.handle_hotkey(true, true, &f6), ClickerCommand::Nothing));
    let mut note = None;
    w.poll_f6_hotkey(1, true, &f6, &mut note);
    assert!(matches!(w.handle_hotkey(true, true, &f6), ClickerCommand::Nothing));
    w.poll_f6_hotkey(2, true, &keys(&[]), &mut note);
    assert!(matches!(w.handle_hotkey(true, true, &f6), ClickerCommand::StopAndWait));
    w.stopped(3);
    assert_eq!(w.status, "Stopped — 3 clicks");
    w.poll_f6_hotkey(3, false, &keys(&[]), &mut note);
    w.toggle_pick_window();
    assert!(matches!(w.handle_hotkey(false, true, &f6), ClickerCommand::Nothing));
}

#[test]
fn the_end_of_the_clicker_is_told() {
    let mut w = window();
    w.start_clicker(false, true);
    let mut note = Some(finish_note(true, None));
    w.poll_f6_hotkey(4, true, &keys(&[]), &mut note);
    assert!(note.is_some());
    w.poll_f6_hotkey(5, false, &keys(&[]), &mut note);
    assert_eq!(w.status, "Completed — 5 clicks");
    assert!(note.is_none());
    w.stop_clicker();
    assert_eq!(w.status, "Stopping…");
    w.poll_f6_hotkey(6, false, &keys(&[]), &mut note);
    assert_eq!(w.status, "Stopped — 6 clicks");
    w.stop_clicker();
    note = Some(finish_note(false, Some("broken")));
    w.poll_f6_hotkey(6, false, &keys(&[]), &mut note);
    assert_eq!((w.status.as_str(), w.is_warning), ("broken", true));
    w.stop_clicker();
    note = Some(finish_note(false, None));
    w.poll_f6_hotkey(7, false, &keys(&[]), &mut note);
    assert_eq!(w.status, "Stopped — 7 clicks");
}

#[test]
fn picking_needs_a_fresh_press() {
    let mut w = window();
    w.toggle_pick_location();
    assert!(!w.poll_picking(input(true), ""));
    assert!(w.picking.location && !w.picking.location_armed);
    assert!(!w.poll_picking(input(false), ""));
    assert!(w.picking.location_armed);
    assert!(w.poll_picking(input(true), ""));
    assert_eq!(w.fields.cursor_mode, CursorMode::Fixed { x: 3, y: -4 });
    assert_eq!(w.status, "Location picked: 3 , -4");
    assert!(!w.picking.location);
}

#[test]
fn targets_are_picked_one_by_one() {
    let mut w = window();
    w.fields.cursor_mode = CursorMode::MultiTarget;
    w.picking.sequence = true;
    w.poll_picking(input(false), "");
    assert!(w.poll_picking(input(true), ""));
    assert!(!w.poll_picking(input(true), ""));
    assert_eq!(w.status, "Target added: 3 , -4 (1 total)");
    w.poll_picking(input(false), "");
    assert!(!w.poll_picking(PickInput { over_app: true, ..input(true) }, ""));
    assert_eq!(w.sequence_targets, vec![SequenceTarget { x: 3, y: -4, clicks: 1, interval_ms: 500 }]);
    w.poll_picking(input(false), "");
    assert!(!w.poll_picking(PickInput { cursor: None, ..input(true) }, ""));
    w.fields.cursor_mode = CursorMode::Current;
    w.poll_picking(input(false), "");
    assert!(!w.picking.sequence);
}

#[test]
fn windows_are_picked() {
    let mut w = window();
    w.toggle_pick_window();
    w.poll_picking(input(false), "");
    assert!(w.poll_picking(input(true), "Game"));
    assert_eq!((w.bg_hwnd, w.bg_title.as_str()), (Some(SafeHwnd(9)), "Game"));
    assert_eq!(w.status, "Window picked: Game");
    w.toggle_pick_window();
    w.poll_picking(input(false), "");
    assert!(!w.poll_picking(PickInput { window: None, ..input(true) }, ""));
    assert_eq!(w.status, "No window at cursor");
    assert!(w.is_warning && !w.picking.window);
}

#[test]
fn escape_cancels_picking() {
    for (which, text) in [
        (0, "Pick location cancelled"),
        (1, "Pick window cancelled"),
        (2, "Sequence picking cancelled"),
    ] {
        let mut w = window();
        match which {
            0 => w.toggle_pick_location(),
            1 => w.toggle_pick_window(),
            _ => w.picking.sequence = true,
        }
        assert!(!w.poll_picking(PickInput { escape: true, ..input(true) }, ""));
        assert_eq!(w.status, text);
        assert!(!w.picking.location && !w.picking.window && !w.picking.sequence);
    }
}

#[test]
fn leaving_and_emergency_stop_end_picking() {
    let mut w = window();
    w.toggle_pick_location();
    w.open_hotkey_dialog(&AppConfig::default());
    w.on_leave();
    assert!(!w.picking.location && !w.hotkey_dialog_open());
    w.toggle_pick_window();
    w.emergency_stop();
    assert!(!w.picking.window);
    assert_eq!((w.status.as_str(), w.is_warning), ("⚠ Emergency stop triggered", true));
}

#[test]
fn clicker_hotkey_is_set() {
    let mut c = AppConfig::default();
    let mut w = window();
    w.open_hotkey_dialog(&c);
    w.captured(Some(HotkeyCombo::new(0, 1)));
    assert_eq!(w.hotkey_button(), "F6");
    w.begin_capture();
    assert_eq!(w.hotkey_button(), "⌨ Press hotkey… (Esc = clear)");
    w.captured(Some(HotkeyCombo::new(7, 0x52)));
    assert_eq!(w.hotkey_conflicts(), vec!["Record"]);
    assert_eq!(conflict_text("Record"), "Conflicts with Recording hotkey: Record");
    w.clear_hotkey();
    assert!(w.hotkey_conflicts().is_empty());
    w.begin_capture();
    w.captured(Some(HotkeyCombo::new(0, 0x76)));
    w.confirm_hotkey(&mut c);
    assert_eq!(w.status, "Hotkey set: F7 — press to Start/Stop");
    assert_eq!(c.hotkeys.get("StaticClicker"), Some(HotkeyCombo::new(0, 0x76)));
    w.clear_hotkey();
    w.cancel_hotkey(&c);
    assert_eq!(w.hotkeys.own, HotkeyCombo::new(0, 0x76));
    w.close_hotkey_dialog();
    assert_eq!(w.with_hotkey("Start"), "Start (F7)");
    assert!(w.is_hotkey_down(&keys(&[0x76])));
}

#[test]
fn clicker_shows_its_state() {
    let mut w = window();
    assert_eq!(w.interval_text(), "= 100 ms total");
    assert_eq!(w.side_room(), SideRoom::Nothing);
    w.fields.cursor_mode = CursorMode::MultiTarget;
    assert_eq!(w.interval_text(), "= 100 ms total — overridden (Multi Target active)");
    assert!(w.is_docked_panel_active() && w.interval_overridden());
    assert_eq!(w.side_room(), SideRoom::Full);
    w.panel.collapsed = true;
    assert_eq!(w.side_room(), SideRoom::Strip);
    w.panel.popped_out = true;
    assert!(w.is_popped_out() && !w.is_docked_panel_active());
    assert_eq!(w.targets_text(" target(s)"), "0 target(s)");
    assert_eq!(w.window_text(), "(no window selected)");
    assert_eq!(w.pick_location_label(), "Pick location");
    assert_eq!(w.pick_window_label(), "Pick window");
    w.fields.fixed_x = 4;
    w.choose_fixed();
    w.fields.fixed_y = 6;
    w.sync_fixed();
    assert_eq!(w.fields.cursor_mode, CursorMode::Fixed { x: 4, y: 6 });
    w.fields.interval_jitter_ms = 10_000;
    w.fields.position_jitter_px = -1;
    assert!(!w.interval_jitter_edited(false) && !w.position_jitter_edited(false));
    assert_eq!((w.fields.interval_jitter_ms, w.fields.position_jitter_px), (10_000, -1));
    assert!(w.interval_jitter_edited(true));
    assert_eq!((w.fields.interval_jitter_ms, w.fields.position_jitter_px), (9999, -1));
    assert!(w.position_jitter_edited(true));
    assert_eq!((w.fields.interval_jitter_ms, w.fields.position_jitter_px), (9999, 0));
    w.help();
    assert!(w.status.starts_with("Foreground = moves cursor"));
    w.always_on_top = true;
    assert!(w.take_top_request());
    assert!(!w.take_top_request());
    assert_eq!(button_name(MouseButton::X1), "Left");
    assert_eq!(button_name(MouseButton::Middle), "Middle");
    assert_eq!(click_type_name(ClickType::Double), "Double");
}

#[test]
fn rows_open_and_go() {
    assert_eq!(toggle_expand(None, 2), Some(2));
    assert_eq!(toggle_expand(Some(2), 2), None);
    assert_eq!(toggle_expand(Some(1), 2), Some(2));
    for (open, row, now) in [
        (Some(0), 1, Some(0)),
        (Some(1), 1, None),
        (Some(2), 1, Some(1)),
        (None, 1, None),
    ] {
        let mut list = vec![target(1), target(2), target(3)];
        assert_eq!(delete_target(&mut list, open, row), now);
        assert_eq!(list, vec![target(1), target(3)]);
    }
    assert_eq!(summary(&target(1)), "1× / 500ms");
    assert_eq!(row_number(0), "1");
    assert_eq!((typed(-4), typed(0), typed(7)), (1, 1, 7));
    assert_eq!((shown(7), shown(u32::MAX)), (7, -1));
    assert_eq!((row_mark(true), row_mark(false)), ("●", "○"));
    assert_eq!(picking_label(true), "Stop Picking");
    assert_eq!(pop_label(false).0, "Pop out");
    assert_eq!(pop_label(true).0, "Dock back");
    assert!(warns_off(false, &vec![target(1)]));
    assert!(!warns_off(false, &vec![]));
}

#[test]
fn a_deleted_row_is_stored_and_nothing_else_changes() {
    let mut w = window();
    w.sequence_targets = vec![target(1), target(2), target(3)];
    w.panel.expanded_row = Some(2);
    let (fields, picking, panel) = (w.fields, w.picking, w.panel);
    let action = PanelAction::DeleteRow { row: 1 };
    assert!(action.fits(&w.sequence_targets) && action.stores());
    assert!(w.panel_action(action));
    assert_eq!(w.sequence_targets, vec![target(1), target(3)]);
    assert_eq!(w.panel.expanded_row, Some(1));
    assert_eq!((w.fields, w.picking), (fields, picking));
    assert!(!w.panel_changed(panel));
    assert!(!PanelAction::DeleteRow { row: 2 }.fits(&w.sequence_targets));
    assert!(PanelAction::ToggleRow { row: 2 }.fits(&w.sequence_targets));
    assert!(w.panel_action(PanelAction::DeleteRow { row: 1 }));
    assert_eq!(w.panel.expanded_row, None);
    assert_eq!(w.sequence_targets, vec![target(1)]);
}

#[test]
fn switches_of_the_list_are_stored() {
    let mut w = window();
    let before = w.panel;
    assert!(w.panel_action(PanelAction::SwitchOff));
    assert!(!w.fields.sequence_enabled);
    assert!(w.panel_action(PanelAction::SwitchOn));
    assert!(w.panel_action(PanelAction::SwitchOn));
    assert!(w.fields.sequence_enabled && !w.panel_changed(before));
    assert!(w.panel_action(PanelAction::PopOut));
    assert!(w.panel.popped_out && w.panel_changed(before));
    assert!(w.panel_action(PanelAction::PopOut));
    assert!(!w.panel.popped_out && !w.panel_changed(before));
}

#[test]
fn picking_and_open_rows_are_not_stored() {
    let mut w = window();
    w.sequence_targets = vec![target(1)];
    let (fields, panel) = (w.fields, w.panel);
    assert!(!w.panel_action(PanelAction::TogglePicking));
    assert!(w.picking.sequence);
    assert!(!w.panel_action(PanelAction::TogglePicking));
    assert!(!w.picking.sequence);
    assert!(!w.panel_action(PanelAction::ToggleRow { row: 0 }));
    assert_eq!(w.panel.expanded_row, Some(0));
    assert_eq!(w.fields, fields);
    assert!(!w.panel_changed(panel));
    assert!(!w.panel_action(PanelAction::ToggleRow { row: 0 }));
    assert_eq!(w.panel, panel);
}

#[test]
fn edits_of_a_target_are_stored_once_done() {
    let mut w = window();
    w.sequence_targets = vec![target(1), target(2)];
    for done in [false, true] {
        assert_eq!(w.panel_action(PanelAction::EditPoint { row: 1, x: -7, y: 8, done }), done);
        assert_eq!(w.panel_action(PanelAction::EditClicks { row: 1, clicks: 0, done }), done);
        let action = PanelAction::EditInterval { row: 1, interval_ms: 40, done };
        assert_eq!(w.panel_action(action), done);
        let edited = SequenceTarget { x: -7, y: 8, clicks: 1, interval_ms: 40 };
        assert_eq!(w.sequence_targets, vec![target(1), edited]);
    }
    assert!(w.panel_action(PanelAction::EditClicks { row: 0, clicks: 12, done: true }));
    assert!(w.panel_action(PanelAction::EditInterval { row: 0, interval_ms: -1, done: true }));
    assert_eq!((w.sequence_targets[0].clicks, w.sequence_targets[0].interval_ms), (12, 1));
}

#[test]
fn the_place_of_the_list_is_stored() {
    let mut w = window();
    let before = w.panel;
    w.set_collapsed(true);
    assert!(w.panel.collapsed && w.panel_changed(before));
    w.set_collapsed(false);
    assert!(!w.panel_changed(before));
    w.panel.width = Double { bits: 300.0f64.to_bits() };
    assert!(w.panel_changed(before));
    w.panel = before;
    w.panel.expanded_row = Some(3);
    assert!(!w.panel_changed(before));
    w.panel_action(PanelAction::PopOut);
    w.close_popped_out();
    assert!(!w.panel.popped_out);
    w.close_popped_out();
    assert!(!w.panel.popped_out);
    w.picking.sequence = true;
    w.picking.sequence_armed = true;
    w.settle_picking();
    assert!(w.picking.sequence_armed);
    w.picking.sequence = false;
    w.settle_picking();
    assert!(!w.picking.sequence_armed);
}

#[test]
fn settings_are_stored_once_chosen_or_edited() {
    let mut w = window();
    let before = w.fields;
    assert!(w.interval_edited(true) && !w.interval_edited(false));
    w.fields.cursor_mode = CursorMode::MultiTarget;
    w.fields.sequence_enabled = true;
    assert!(w.interval_overridden() && !w.interval_edited(true));
    assert!(w.position_changed(before, false));
    w.fields = before;
    assert!(w.position_changed(before, true) && !w.position_changed(before, false));

    assert!(!w.options_changed(before));
    w.fields.button = MouseButton::Right;
    assert!(w.options_changed(before));
    w.fields = before;
    w.fields.click_type = ClickType::Double;
    assert!(w.options_changed(before));
    w.fields.button = before.button;
    w.fields.click_type = before.click_type;
    w.fields.repeat_count = 77;
    assert!(!w.options_changed(before));
    assert!(w.repeat_changed(before, true) && !w.repeat_changed(before, false));
    w.fields.repeat_until_stopped = !before.repeat_until_stopped;
    assert!(w.repeat_changed(before, false));

    assert!(!w.mode_changed(before, ""));
    assert!(w.mode_changed(before, "Game"));
    w.bg_title = "Game".to_string();
    assert!(!w.mode_changed(before, "Game"));
    w.fields.foreground = !before.foreground;
    assert!(w.mode_changed(before, "Game"));
}

#[test]
fn staying_on_top_is_chosen_and_stored() {
    let mut c = AppConfig::default();
    let mut w = window();
    for on in [true, false, true] {
        w.choose_always_on_top(on, &mut c);
        assert_eq!((w.always_on_top, c.always_on_top), (on, on));
    }
}

#[test]
fn a_jitter_is_stored_alike_in_and_out_of_its_bounds() {
    for n in [-5, 0, 3, 20, 10_000] {
        let (mut early, mut late) = (AppConfig::default(), AppConfig::default());
        let mut w = window();
        w.fields.interval_jitter_ms = n;
        w.fields.position_jitter_px = n;
        w.persist_static_state(&mut early);
        w.interval_jitter_edited(true);
        w.position_jitter_edited(true);
        w.persist_static_state(&mut late);
        assert_eq!(early.static_clicker_interval_jitter_ms, late.static_clicker_interval_jitter_ms);
        assert_eq!(early.static_clicker_position_jitter_px, late.static_clicker_position_jitter_px);
    }
}

#[test]
fn stored_fields_and_targets_open_again() {
    let mut w = window();
    w.fields.mins = 3;
    w.fields.interval_jitter_ms = 44;
    w.fields.position_jitter_px = 20;
    w.fields.button = MouseButton::Middle;
    w.fields.cursor_mode = CursorMode::Fixed { x: 5, y: 6 };
    w.fields.fixed_x = 5;
    w.fields.fixed_y = 6;
    w.fields.foreground = false;
    w.bg_title = "Game".to_string();
    w.sequence_targets = vec![target(4), target(5)];
    let mut c = AppConfig::default();
    w.persist_static_state(&mut c);
    let again = StaticClickerWindow::new(&c, 0);
    assert_eq!(again.fields, w.fields);
    assert_eq!(again.sequence_targets, w.sequence_targets);
    assert_eq!(again.bg_title, "Game");
}

#[test]
fn a_running_clicker_offers_its_stop() {
    let mut w = window();
    w.fields.repeat_until_stopped = false;
    w.fields.cursor_mode = CursorMode::Fixed { x: 0, y: 0 };
    let o = w.offers(false);
    assert!(o.start && !o.stop && o.interval && o.settings);
    assert!(o.repeat_count && o.pick_location && o.point);
    let o = w.offers(true);
    assert!(!o.start && o.stop && !o.interval && !o.settings);
    assert!(!o.repeat_count && !o.pick_location && !o.point);
    w.fields.repeat_until_stopped = true;
    w.fields.cursor_mode = CursorMode::Current;
    let o = w.offers(false);
    assert!(!o.repeat_count && o.pick_location && !o.point);
    w.fields.cursor_mode = CursorMode::MultiTarget;
    w.fields.sequence_enabled = true;
    let o = w.offers(false);
    assert!(!o.interval && !o.pick_location && !o.point && o.settings);
    w.fields.sequence_enabled = false;
    assert!(w.offers(false).interval);
}
