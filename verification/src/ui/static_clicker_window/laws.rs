//! What the window of the clicker does with its settings, its presets and what is picked.

use std::collections::HashSet;

use vstd::arithmetic::power2::{lemma_pow2_pos, pow2};
use vstd::prelude::*;

use crate::config;
use crate::config::{presets, AppConfig, HotkeyCombo};
use crate::hooks::SafeHwnd;
use crate::keys;
use crate::model::{CursorMode, MouseButton, SequenceTarget, StaticClickerPreset};
use crate::static_clicker::{ClickMode, RepeatMode, StaticClickerConfig};
use crate::text;
use crate::ui::sequence_window::PanelAction;
use crate::ui::static_clicker_window;
use crate::ui::static_clicker_window::{
    ClickerCommand, ClickerOffers, Fields, Panel, PickInput, SideRoom, StaticClickerWindow,
};

verus! {

// ---------------------------------------------------------------------------
// Start and stop
// ---------------------------------------------------------------------------

/// Whether the clicker has what it needs: targets where it is to go through them, and a window
/// that is still there where one is to be told of the clicks.
pub open spec fn has_what_it_needs(w: StaticClickerWindow, window_alive: bool) -> bool {
    &&& w.fields.cursor_mode is MultiTarget && w.fields.sequence_enabled
        ==> w.sequence_targets@.len() > 0
    &&& w.fields.foreground || (w.bg_hwnd is Some && window_alive)
}

/// The clicker starts just where it does not run and has what it needs, with what the window
/// shows: the button, the kind of click, the interval in all its parts, how often, where, in
/// which window, the targets, and the deviations within their bounds.
pub proof fn law_clicker_gets_what_is_shown(
    w: &mut StaticClickerWindow,
    running: bool,
    window_alive: bool,
    r: Option<StaticClickerConfig>,
)
    requires
        call_ensures(StaticClickerWindow::start_clicker, (w, running, window_alive), r),
    ensures
        r is Some <==> !running && has_what_it_needs(*old(w), window_alive),
        r matches Some(c) ==> {
            let f = old(w).fields;
            &&& c.button == f.button
            &&& c.click_type == f.click_type
            &&& f.hours >= 0 && f.mins >= 0 && f.secs >= 0 && f.millis >= 0 && f.hours + f.mins
                + f.secs + f.millis > 0 ==> c.interval_ms == 3_600_000 * f.hours + 60_000 * f.mins
                + 1000 * f.secs + f.millis
            &&& c.interval_ms >= 1
            &&& c.repeat is Infinite <==> f.repeat_until_stopped
            &&& !f.repeat_until_stopped && f.repeat_count >= 1 ==> c.repeat == RepeatMode::Count(
                f.repeat_count as u32,
            )
            &&& f.cursor_mode is Fixed ==> c.cursor == (CursorMode::Fixed {
                x: f.fixed_x,
                y: f.fixed_y,
            })
            &&& !(f.cursor_mode is Fixed) ==> c.cursor == f.cursor_mode
            &&& f.foreground ==> c.mode is Foreground
            &&& !f.foreground ==> c.mode == ClickMode::Background(old(w).bg_hwnd->0)
            &&& c.sequence_targets@ == old(w).sequence_targets@
            &&& c.sequence_enabled == f.sequence_enabled
            &&& 0 <= f.interval_jitter_ms <= 9999 ==> c.interval_jitter_ms == f.interval_jitter_ms
            &&& f.interval_jitter_ms < 0 ==> c.interval_jitter_ms == 0
            &&& f.interval_jitter_ms > 9999 ==> c.interval_jitter_ms == 9999
            &&& 0 <= f.position_jitter_px <= 20 ==> c.position_jitter_px == f.position_jitter_px
            &&& f.position_jitter_px < 0 ==> c.position_jitter_px == 0
            &&& f.position_jitter_px > 20 ==> c.position_jitter_px == 20
            &&& final(w)@.clicks_done == 0
            &&& !final(w)@.warning
            &&& static_clicker_window::says_running(final(w)@.status)
        },
        r is None && !running ==> final(w)@.warning && final(w)@.fields == old(w)@.fields,
        running ==> final(w)@ == old(w)@,
        final(w)@.targets == old(w)@.targets,
{
    reveal_strlit("Running");
    reveal_strlit("Running sequence… ");
    reveal_strlit("Running… interval ");
    let s = final(w)@.status;
    if r is Some {
        assert(s.take(7) =~= "Running"@);
    }
}

/// The hotkey starts a clicker that does not run as the button does, and stops one that runs. It
/// does neither while something is picked, the hotkey is being set, or it is still held.
pub proof fn law_hotkey_starts_and_stops(
    by_key: &mut StaticClickerWindow,
    running: bool,
    window_alive: bool,
    down: HashSet<i32>,
    key: ClickerCommand,
)
    requires
        call_ensures(
            StaticClickerWindow::handle_hotkey,
            (by_key, running, window_alive, &down),
            key,
        ),
    ensures
        ({
            let v = *old(by_key);
            let heeded = !v.picking.location && !v.picking.window && !v.picking.sequence
                && !v.dialogs.hotkey && !v.hotkeys.was_down;
            &&& key is StopAndWait <==> heeded && running
            &&& key is Start <==> heeded && !running && has_what_it_needs(v, window_alive)
            &&& !heeded ==> final(by_key)@ == v@
            &&& heeded ==> final(by_key)@.hotkeys.was_down == keys::pressed(v.hotkeys.own, down@)
            &&& key matches ClickerCommand::Start { config } ==> {
                &&& config.button == v.fields.button
                &&& config.click_type == v.fields.click_type
                &&& config.sequence_targets@ == v.sequence_targets@
                &&& config.repeat is Infinite <==> v.fields.repeat_until_stopped
                &&& config.mode is Foreground <==> v.fields.foreground
                &&& final(by_key)@.clicks_done == 0
            }
        }),
{
}

/// A hotkey that is let go can be pressed again; one that is held stays as it is. The clicks
/// that were made are shown, and the status stays while the clicker runs.
pub proof fn law_hotkey_is_let_go(
    w: &mut StaticClickerWindow,
    live: u32,
    running: bool,
    down: HashSet<i32>,
    note: &mut Option<String>,
)
    requires
        call_ensures(StaticClickerWindow::poll_f6_hotkey, (w, live, running, &down, note), ()),
    ensures
        !keys::pressed(old(w)@.hotkeys.own, down@) ==> !final(w)@.hotkeys.was_down,
        keys::pressed(old(w)@.hotkeys.own, down@) ==> final(w)@.hotkeys.was_down
            == old(w)@.hotkeys.was_down,
        final(w)@.hotkeys.own == old(w)@.hotkeys.own,
        final(w)@.clicks_done == live,
        running ==> final(w)@.status == old(w)@.status && final(w)@.warning == old(w)@.warning
            && *final(note) == *old(note),
        final(w)@.fields == old(w)@.fields,
        final(w)@.targets == old(w)@.targets,
{
}

/// What went wrong with a clicker is told once it has ended, as a warning, and only once.
pub proof fn law_failure_of_the_clicker_is_told(
    error: &str,
    told: String,
    w: &mut StaticClickerWindow,
    live: u32,
    down: HashSet<i32>,
    note: &mut Option<String>,
)
    requires
        static_clicker_window::says_running(old(w)@.status),
        call_ensures(static_clicker_window::finish_note, (false, Some(error)), told),
        error@ != "Completed"@ && error@ != "Stopped"@,
        *old(note) == Some(told),
        call_ensures(StaticClickerWindow::poll_f6_hotkey, (w, live, false, &down, note), ()),
    ensures
        final(w)@.status == error@,
        final(w)@.warning,
        *final(note) is None,
{
}

/// The clicks that were made are told with the word for the end, and shown while it runs.
pub proof fn law_clicks_are_told(
    w: &mut StaticClickerWindow,
    clicks: u32,
    shown: StaticClickerWindow,
    line: String,
    idle: String,
)
    requires
        call_ensures(StaticClickerWindow::stopped, (w, clicks), ()),
        call_ensures(StaticClickerWindow::status_line, (&shown, true), line),
        call_ensures(StaticClickerWindow::status_line, (&shown, false), idle),
    ensures
        final(w)@.clicks_done == clicks,
        !final(w)@.warning,
        exists|n: Seq<char>|
            final(w)@.status == "Stopped"@ + " — "@ + n + " clicks"@ && #[trigger] text::dec_value(n)
                == clicks,
        exists|n: Seq<char>|
            line@ == "Running… "@ + n + " clicks"@ && #[trigger] text::dec_value(n)
                == shown@.clicks_done,
        idle@ == shown@.status,
{
    let n = text::dec_nat(clicks as nat);
    text::law_dec_reads_back(clicks as nat);
    assert(final(w)@.status == "Stopped"@ + " — "@ + n + " clicks"@);
    assert(text::dec_value(n) == clicks);
    let m = text::dec_nat(shown@.clicks_done as nat);
    text::law_dec_reads_back(shown@.clicks_done as nat);
    assert(line@ == "Running… "@ + m + " clicks"@);
    assert(text::dec_value(m) == shown@.clicks_done);
}

/// Whether no press of the mouse picks anything before the button was seen up.
pub open spec fn nothing_is_armed(w: StaticClickerWindow) -> bool {
    !w.picking.location_armed && !w.picking.window_armed && !w.picking.sequence_armed
}

/// An emergency stop and leaving the window both end all picking; the first warns.
pub proof fn law_leaving_ends_picking(a: &mut StaticClickerWindow, b: &mut StaticClickerWindow)
    requires
        call_ensures(StaticClickerWindow::on_leave, (a,), ()),
        call_ensures(StaticClickerWindow::emergency_stop, (b,), ()),
    ensures
        !static_clicker_window::is_picking(final(a)@.picking),
        !static_clicker_window::is_picking(final(b)@.picking),
        nothing_is_armed(*final(a)) && nothing_is_armed(*final(b)),
        !final(a)@.dialogs.hotkey && !final(a)@.dialogs.capturing,
        final(b)@.warning,
        final(a)@.fields == old(a)@.fields && final(a)@.targets == old(a)@.targets,
        final(b)@.fields == old(b)@.fields && final(b)@.targets == old(b)@.targets,
{
}

// ---------------------------------------------------------------------------
// Picking
// ---------------------------------------------------------------------------

/// A location that is picked is where the mouse was at the press: once picking was begun and
/// the button seen up, the next press makes its point the fixed one, ends picking and is stored.
pub proof fn law_picked_location_is_clicked(
    a: &mut StaticClickerWindow,
    b: &mut StaticClickerWindow,
    up: PickInput,
    c: &mut StaticClickerWindow,
    press: PickInput,
    title: &str,
    early: bool,
    picked: bool,
    x: i32,
    y: i32,
)
    requires
        !static_clicker_window::is_picking(old(a)@.picking),
        call_ensures(StaticClickerWindow::toggle_pick_location, (a,), ()),
        *old(b) == *final(a),
        !up.escape && !up.left_down,
        call_ensures(StaticClickerWindow::poll_picking, (b, up, title), early),
        *old(c) == *final(b),
        !press.escape && press.left_down && press.cursor == Some((x, y)),
        call_ensures(StaticClickerWindow::poll_picking, (c, press, title), picked),
    ensures
        !early && final(b)@.fields == old(a)@.fields,
        picked,
        final(c)@.fields.cursor_mode == (CursorMode::Fixed { x, y }),
        final(c)@.fields.fixed_x == x && final(c)@.fields.fixed_y == y,
        final(c)@.fields.button == old(a)@.fields.button,
        !static_clicker_window::is_picking(final(c)@.picking),
        final(c)@.targets == old(a)@.targets,
        final(c)@.window == old(a)@.window,
{
}

/// A target that is picked comes last, at the point of the press, to be clicked once with half
/// a second to the next; the targets before it stay. Picking goes on.
pub proof fn law_picked_target_comes_last(
    w: &mut StaticClickerWindow,
    press: PickInput,
    title: &str,
    picked: bool,
    x: i32,
    y: i32,
)
    requires
        old(w)@.picking.sequence && old(w)@.picking.sequence_armed,
        !old(w)@.picking.location && !old(w)@.picking.window,
        old(w)@.fields.cursor_mode is MultiTarget,
        !press.escape && press.left_down && !press.over_app && press.cursor == Some((x, y)),
        call_ensures(StaticClickerWindow::poll_picking, (w, press, title), picked),
    ensures
        picked,
        final(w)@.targets == old(w)@.targets.push(
            SequenceTarget { x, y, clicks: 1, interval_ms: 500 },
        ),
        final(w)@.picking.sequence && !final(w)@.picking.sequence_armed,
        final(w)@.fields == old(w)@.fields,
        !final(w)@.warning,
{
    assert(old(w)@.targets.push(SequenceTarget { x, y, clicks: 1, interval_ms: 500 }).len()
        != old(w)@.targets.len());
}

/// A window that is picked is the one under the mouse at the press, with its title; where there
/// is none the old one stays and the user is warned. Either way picking ends.
pub proof fn law_picked_window_gets_the_clicks(
    w: &mut StaticClickerWindow,
    press: PickInput,
    title: &str,
    picked: bool,
)
    requires
        old(w)@.picking.window && old(w)@.picking.window_armed,
        !old(w)@.picking.location && !old(w)@.picking.sequence,
        !press.escape && press.left_down && press.cursor is Some,
        call_ensures(StaticClickerWindow::poll_picking, (w, press, title), picked),
    ensures
        picked <==> press.window is Some,
        picked ==> final(w)@.window == press.window && final(w)@.title == title@
            && !final(w)@.warning,
        !picked ==> final(w)@.window == old(w)@.window && final(w)@.title == old(w)@.title
            && final(w)@.warning,
        !final(w)@.picking.window,
        final(w)@.fields == old(w)@.fields,
        final(w)@.targets == old(w)@.targets,
{
}

/// Picking is begun and given up by the same button, which has to see a new press each time.
pub proof fn law_pick_buttons_turn_about(
    a: &mut StaticClickerWindow,
    b: &mut StaticClickerWindow,
)
    requires
        call_ensures(StaticClickerWindow::toggle_pick_location, (a,), ()),
        call_ensures(StaticClickerWindow::toggle_pick_window, (b,), ()),
    ensures
        final(a)@.picking.location != old(a)@.picking.location,
        !final(a)@.picking.location_armed,
        final(a)@.picking.window == old(a)@.picking.window,
        final(b)@.picking.window != old(b)@.picking.window,
        !final(b)@.picking.window_armed,
        final(b)@.picking.location == old(b)@.picking.location,
{
}

// ---------------------------------------------------------------------------
// Presets
// ---------------------------------------------------------------------------

/// A preset is saved under the name that was typed, without white space around it: at once where
/// the name is new, after a question where it is taken, and not at all without a name.
pub proof fn law_preset_is_saved_under_its_name(
    a: &mut StaticClickerWindow,
    c: &mut AppConfig,
    saved: bool,
    b: &mut StaticClickerWindow,
    d: &mut AppConfig,
    yes: bool,
    overwritten: bool,
)
    requires
        call_ensures(StaticClickerWindow::handle_preset_save, (a, c), saved),
        *old(b) == *final(a),
        *old(d) == *final(c),
        final(a)@.dialogs.overwrite,
        call_ensures(StaticClickerWindow::answer_overwrite, (b, yes, d), overwritten),
    ensures
        ({
            let name = text::trimmed(old(a)@.preset_input);
            let taken = presets::found(old(c).presets(), name) is Some;
            &&& saved <==> name.len() > 0 && !taken
            &&& !saved ==> *final(c) == *old(c)
            &&& saved ==> presets::found(final(c).presets(), name) is Some
                && presets::found(final(c).presets(), name)->0.settings.button
                == old(a)@.fields.button
            &&& name.len() > 0 && taken ==> final(a)@.pending_overwrite == name
            &&& name.len() == 0 ==> final(a)@.warning
            &&& overwritten == yes
            &&& !yes ==> *final(d) == *old(d)
            &&& yes && name.len() > 0 && taken ==> {
                let p = presets::found(final(d).presets(), name);
                &&& p is Some
                &&& p->0.settings.button == old(a)@.fields.button
                &&& p->0.settings.click_type == old(a)@.fields.click_type
                &&& p->0.settings.sequence_targets == old(a)@.targets
                &&& final(d).presets().len() == old(c).presets().len()
            }
            &&& !final(b)@.dialogs.overwrite
            &&& final(a)@.fields == old(a)@.fields
            &&& final(b)@.fields == old(a)@.fields
        }),
{
    let name = text::trimmed(old(a)@.preset_input);
    let p = static_clicker_window::preset_of(old(a)@, name);
    presets::law_saved_preset_is_found(old(c).presets(), p);
    presets::law_saved_preset_keeps_its_place(old(c).presets(), p);
    assert(static_clicker_window::preset_of(final(a)@, name) == static_clicker_window::preset_of(
        old(a)@,
        name,
    ));
}

/// A preset is loaded where the clicker does not run and there is one of the name that is
/// selected or typed. Nothing changes else but that the user is warned.
pub proof fn law_preset_is_loaded_by_its_name(
    w: &mut StaticClickerWindow,
    running: bool,
    c: AppConfig,
    r: Option<StaticClickerPreset>,
)
    requires
        call_ensures(StaticClickerWindow::handle_preset_load, (w, running, &c), r),
    ensures
        ({
            let name = if old(w)@.preset_selected.len() > 0 {
                old(w)@.preset_selected
            } else {
                text::trimmed(old(w)@.preset_input)
            };
            &&& r is Some <==> !running && name.len() > 0 && presets::found(
                c.presets(),
                name,
            ) is Some
            &&& r matches Some(p) ==> p.name@ == name && c.presets().contains(p@)
            &&& r is None ==> final(w)@.warning
            &&& final(w)@.fields == old(w)@.fields && final(w)@.targets == old(w)@.targets
        }),
{
    presets::law_found_preset_is_one_of_the_list(
        c.presets(),
        static_clicker_window::meant(old(w)@),
    );
}

/// A preset is deleted after a question that was answered with yes: just the one of the name
/// that was asked about. Answered with no, all stay.
pub proof fn law_preset_is_deleted_when_asked(
    a: &mut StaticClickerWindow,
    c: &mut AppConfig,
    b: &mut StaticClickerWindow,
    yes: bool,
    r: bool,
    other: Seq<char>,
)
    requires
        call_ensures(StaticClickerWindow::handle_preset_delete, (a, old(c)), ()),
        *old(b) == *final(a),
        final(a)@.dialogs.delete && !old(a)@.dialogs.delete,
        call_ensures(StaticClickerWindow::answer_delete, (b, yes, c), r),
    ensures
        ({
            let name = if old(a)@.preset_selected.len() > 0 {
                old(a)@.preset_selected
            } else {
                text::trimmed(old(a)@.preset_input)
            };
            &&& name.len() > 0 && presets::found(old(c).presets(), name) is Some
            &&& r == yes
            &&& yes ==> presets::found(final(c).presets(), name) is None
            &&& yes && other != name ==> presets::found(final(c).presets(), other)
                == presets::found(old(c).presets(), other)
            &&& yes ==> final(b)@.preset_selected != name
            &&& !yes ==> *final(c) == *old(c)
            &&& !final(b)@.dialogs.delete
            &&& final(c).hotkeys == old(c).hotkeys
            &&& final(b)@.fields == old(a)@.fields && final(b)@.targets == old(a)@.targets
        }),
{
    let name = static_clicker_window::meant(old(a)@);
    presets::law_deleted_preset_is_gone(old(c).presets(), name, other);
}

// ---------------------------------------------------------------------------
// Opening and storing
// ---------------------------------------------------------------------------

/// The window opens with what is stored, nothing being picked, the hotkeys as they are bound,
/// and a list of targets between 280 and 500 wide.
pub proof fn law_clicker_opens_as_it_was_left(c: AppConfig, found: usize, w: StaticClickerWindow)
    requires
        call_ensures(StaticClickerWindow::new, (&c, found), w),
    ensures
        ({
            let f = w@.fields;
            let b = config::bindings_of(c.hotkeys@);
            &&& f.button == c.static_clicker_button
            &&& f.click_type == c.static_clicker_click_type
            &&& f.repeat_until_stopped == c.static_clicker_repeat_until_stopped
            &&& f.repeat_count == c.static_clicker_repeat_count
            &&& f.cursor_mode == c.static_clicker_cursor_mode
            &&& f.cursor_mode matches CursorMode::Fixed { x, y } ==> f.fixed_x == x && f.fixed_y
                == y
            &&& f.foreground == c.static_clicker_foreground
            &&& f.sequence_enabled == c.static_clicker_sequence_enabled
            &&& 0 <= f.interval_jitter_ms <= 9999
            &&& 0 <= f.position_jitter_px <= 20
            &&& c.static_clicker_interval_jitter_ms <= 9999 ==> f.interval_jitter_ms
                == c.static_clicker_interval_jitter_ms
            &&& c.static_clicker_position_jitter_px <= 20 ==> f.position_jitter_px
                == c.static_clicker_position_jitter_px
            &&& 1 <= c.static_clicker_interval_ms <= i32::MAX * 3_600_000
                ==> static_clicker_window::interval_of(f) == c.static_clicker_interval_ms
            &&& w@.targets == c.static_clicker_sequence_targets@
            &&& w@.title == c.static_clicker_bg_title@
            &&& w@.window is Some <==> !f.foreground && w@.title.len() > 0 && found != 0
            &&& w@.window is Some ==> w@.window == Some(SafeHwnd(found))
            &&& w@.hotkeys.own == b.static_clicker && !w@.hotkeys.was_down
            &&& w@.hotkeys.record == b.record && w@.hotkeys.play == b.play && w@.hotkeys.stop
                == b.stop
            &&& w@.always_on_top == c.always_on_top
            &&& w@.panel.collapsed == c.sequence_panel_collapsed
            &&& w@.panel.popped_out == c.sequence_panel_popped_out
            &&& 280 * pow2(1074) <= w@.panel.width.value() <= 500 * pow2(1074)
            &&& !c.sequence_panel_width.nan() && 280 * pow2(1074) <= c.sequence_panel_width.value()
                <= 500 * pow2(1074) ==> w@.panel.width == c.sequence_panel_width
            &&& !static_clicker_window::is_picking(w@.picking) && nothing_is_armed(w)
            &&& !w@.warning && w@.clicks_done == 0
        }),
{
    crate::double::law_named_doubles();
    lemma_pow2_pos(1074);
    let ms = c.static_clicker_interval_ms as int;
    if 1 <= ms <= i32::MAX * 3_600_000 {
        static_clicker_window::law_interval_reads_back(w@.fields, ms);
    }
}

/// What the window shows is stored each in its place, and nothing else is.
pub proof fn law_settings_are_stored_in_their_places(w: StaticClickerWindow, c: &mut AppConfig)
    requires
        call_ensures(StaticClickerWindow::persist_static_state, (&w, c), ()),
    ensures
        final(c).static_clicker_button == w.fields.button,
        final(c).static_clicker_click_type == w.fields.click_type,
        final(c).static_clicker_interval_ms == static_clicker_window::interval_of(w.fields),
        final(c).static_clicker_repeat_until_stopped == w.fields.repeat_until_stopped,
        final(c).static_clicker_repeat_count == w.fields.repeat_count,
        final(c).static_clicker_cursor_mode == w.fields.cursor_mode,
        final(c).static_clicker_foreground == w.fields.foreground,
        final(c).static_clicker_bg_title@ == w.bg_title@,
        final(c).static_clicker_sequence_targets@ == w.sequence_targets@,
        final(c).static_clicker_sequence_enabled == w.fields.sequence_enabled,
        0 <= w.fields.interval_jitter_ms <= 9999 ==> final(c).static_clicker_interval_jitter_ms
            == w.fields.interval_jitter_ms,
        0 <= w.fields.position_jitter_px <= 20 ==> final(c).static_clicker_position_jitter_px
            == w.fields.position_jitter_px,
        final(c).hotkeys == old(c).hotkeys,
        final(c).always_on_top == old(c).always_on_top,
        final(c).last_file_path == old(c).last_file_path,
        final(c).default_speed == old(c).default_speed,
        final(c).loop_count == old(c).loop_count,
        final(c).infinite_loop == old(c).infinite_loop,
        final(c).interval_ms == old(c).interval_ms,
        final(c).static_clicker_presets == old(c).static_clicker_presets,
        final(c).sequence_panel_width == old(c).sequence_panel_width,
        final(c).sequence_panel_collapsed == old(c).sequence_panel_collapsed,
        final(c).sequence_panel_popped_out == old(c).sequence_panel_popped_out,
{
}

/// The parts of the interval add up, and one that is negative counts as none. The whole is at
/// least a millisecond.
pub proof fn law_interval_adds_up(f: Fields, r: u64)
    requires
        call_ensures(Fields::total_ms, (&f,), r),
    ensures
        r >= 1,
        f.hours >= 0 && f.mins >= 0 && f.secs >= 0 && f.millis >= 0 && f.hours + f.mins + f.secs
            + f.millis > 0 ==> r == 3_600_000 * f.hours + 60_000 * f.mins + 1000 * f.secs
            + f.millis,
        f.hours <= 0 && f.mins <= 0 && f.secs <= 0 && f.millis <= 0 ==> r == 1,
        f.hours <= 0 && f.mins <= 0 && f.secs <= 0 && f.millis >= 1 ==> r == f.millis,
{
}

/// Settings are stored whenever something of them changed or an edit was done. The interval is
/// not while the targets have their own.
pub proof fn law_changes_of_settings_are_stored(
    w: StaticClickerWindow,
    before: Fields,
    title: &str,
    done: bool,
    interval: bool,
    options: bool,
    repeat: bool,
    position: bool,
    mode: bool,
)
    requires
        call_ensures(StaticClickerWindow::interval_edited, (&w, done), interval),
        call_ensures(StaticClickerWindow::options_changed, (&w, before), options),
        call_ensures(StaticClickerWindow::repeat_changed, (&w, before, done), repeat),
        call_ensures(StaticClickerWindow::position_changed, (&w, before, done), position),
        call_ensures(StaticClickerWindow::mode_changed, (&w, before, title), mode),
    ensures
        interval <==> done && !(w.fields.cursor_mode is MultiTarget && w.fields.sequence_enabled),
        options <==> w.fields.button != before.button || w.fields.click_type != before.click_type,
        repeat <==> done || w.fields.repeat_until_stopped != before.repeat_until_stopped,
        position <==> done || w.fields.cursor_mode != before.cursor_mode,
        mode <==> w.fields.foreground != before.foreground || w.bg_title@ != title@,
{
}

/// A deviation that was edited is brought into its bounds and stored once the edit is done.
pub proof fn law_edited_deviation_is_in_bounds(
    a: &mut StaticClickerWindow,
    b: &mut StaticClickerWindow,
    done: bool,
    stored_a: bool,
    stored_b: bool,
)
    requires
        call_ensures(StaticClickerWindow::interval_jitter_edited, (a, done), stored_a),
        call_ensures(StaticClickerWindow::position_jitter_edited, (b, done), stored_b),
    ensures
        stored_a == done && stored_b == done,
        done ==> 0 <= final(a)@.fields.interval_jitter_ms <= 9999,
        done ==> 0 <= final(b)@.fields.position_jitter_px <= 20,
        0 <= old(a)@.fields.interval_jitter_ms <= 9999 ==> final(a)@ == old(a)@,
        0 <= old(b)@.fields.position_jitter_px <= 20 ==> final(b)@ == old(b)@,
        !done ==> final(a)@ == old(a)@ && final(b)@ == old(b)@,
        final(a)@.fields.position_jitter_px == old(a)@.fields.position_jitter_px,
        final(b)@.fields.interval_jitter_ms == old(b)@.fields.interval_jitter_ms,
{
}

/// The fixed point is the one of the fields: where it is chosen, and where it is edited. Other
/// choices of where is clicked are left alone.
pub proof fn law_fixed_point_is_the_one_typed(
    a: &mut StaticClickerWindow,
    b: &mut StaticClickerWindow,
)
    requires
        call_ensures(StaticClickerWindow::choose_fixed, (a,), ()),
        call_ensures(StaticClickerWindow::sync_fixed, (b,), ()),
    ensures
        final(a)@.fields.cursor_mode == (CursorMode::Fixed {
            x: old(a)@.fields.fixed_x,
            y: old(a)@.fields.fixed_y,
        }),
        old(b)@.fields.cursor_mode is Fixed ==> final(b)@.fields.cursor_mode == (CursorMode::Fixed {
            x: old(b)@.fields.fixed_x,
            y: old(b)@.fields.fixed_y,
        }),
        !(old(b)@.fields.cursor_mode is Fixed) ==> final(b)@ == old(b)@,
        final(a)@.fields.fixed_x == old(a)@.fields.fixed_x,
        final(a)@.fields.button == old(a)@.fields.button,
{
}

/// Whether the window stays on top is shown and stored as it was chosen. The system is asked
/// once.
pub proof fn law_chosen_top_is_stored(
    a: &mut StaticClickerWindow,
    on: bool,
    c: &mut AppConfig,
    b: &mut StaticClickerWindow,
    d: &mut StaticClickerWindow,
    first: bool,
    second: bool,
)
    requires
        call_ensures(StaticClickerWindow::choose_always_on_top, (a, on, c), ()),
        call_ensures(StaticClickerWindow::take_top_request, (b,), first),
        *old(d) == *final(b),
        call_ensures(StaticClickerWindow::take_top_request, (d,), second),
    ensures
        final(a)@.always_on_top == on,
        final(c).always_on_top == on,
        final(c).hotkeys == old(c).hotkeys && final(c).static_clicker_presets
            == old(c).static_clicker_presets,
        first <==> old(b)@.always_on_top && !old(b)@.top_initialized,
        !second,
{
}

// ---------------------------------------------------------------------------
// The hotkey
// ---------------------------------------------------------------------------

/// The hotkey that is caught is the clicker's. Confirmed, it is stored and those of the
/// recording window stay; cancelled, the stored one comes back.
pub proof fn law_caught_hotkey_is_the_clickers(
    a: &mut StaticClickerWindow,
    b: &mut StaticClickerWindow,
    combo: HotkeyCombo,
    d: &mut StaticClickerWindow,
    c: &mut AppConfig,
    e: &mut StaticClickerWindow,
    stored: AppConfig,
    f: &mut StaticClickerWindow,
)
    requires
        call_ensures(StaticClickerWindow::begin_capture, (a,), ()),
        *old(b) == *final(a),
        call_ensures(StaticClickerWindow::captured, (b, Some(combo)), ()),
        *old(d) == *final(b),
        call_ensures(StaticClickerWindow::confirm_hotkey, (d, c), ()),
        call_ensures(StaticClickerWindow::cancel_hotkey, (e, &stored), ()),
        call_ensures(StaticClickerWindow::clear_hotkey, (f,), ()),
    ensures
        final(a)@.dialogs.capturing,
        final(b)@.hotkeys.own == combo && !final(b)@.dialogs.capturing,
        final(d)@.hotkeys.own == combo && !final(d)@.dialogs.hotkey,
        config::bindings_of(final(c).hotkeys@).static_clicker == combo,
        config::bindings_of(final(c).hotkeys@).record == config::bindings_of(
            old(c).hotkeys@,
        ).record,
        config::bindings_of(final(c).hotkeys@).play == config::bindings_of(old(c).hotkeys@).play,
        config::bindings_of(final(c).hotkeys@).stop == config::bindings_of(old(c).hotkeys@).stop,
        final(e)@.hotkeys.own == config::bindings_of(stored.hotkeys@).static_clicker,
        !final(e)@.dialogs.hotkey,
        final(f)@.hotkeys.own.key == 0,
        final(d)@.fields == old(a)@.fields,
{
    config::law_bindings_survive_storing(
        config::SettingsBindings {
            static_clicker: combo,
            ..config::bindings_of(old(c).hotkeys@)
        },
    );
}

/// The dialog opens with the hotkeys of the recording window as they are stored, and closes
/// without a change. Nothing is caught unasked.
pub proof fn law_hotkey_dialog_opens_and_closes(
    a: &mut StaticClickerWindow,
    c: AppConfig,
    open: bool,
    b: &mut StaticClickerWindow,
    d: &mut StaticClickerWindow,
    combo: Option<HotkeyCombo>,
)
    requires
        call_ensures(StaticClickerWindow::open_hotkey_dialog, (a, &c), ()),
        call_ensures(StaticClickerWindow::hotkey_dialog_open, (final(a),), open),
        call_ensures(StaticClickerWindow::close_hotkey_dialog, (b,), ()),
        combo is None || !old(d)@.dialogs.capturing,
        call_ensures(StaticClickerWindow::captured, (d, combo), ()),
    ensures
        open,
        final(a)@.hotkeys.record == config::bindings_of(c.hotkeys@).record,
        final(a)@.hotkeys.play == config::bindings_of(c.hotkeys@).play,
        final(a)@.hotkeys.stop == config::bindings_of(c.hotkeys@).stop,
        final(a)@.hotkeys.own == old(a)@.hotkeys.own,
        !final(b)@.dialogs.hotkey && !final(b)@.dialogs.capturing,
        final(b)@.hotkeys == old(b)@.hotkeys,
        final(d)@ == old(d)@,
{
}

/// Each hotkey of the recording window that the clicker's is the same as is told.
pub proof fn law_conflicts_are_told(w: StaticClickerWindow, r: Vec<String>)
    requires
        call_ensures(StaticClickerWindow::hotkey_conflicts, (&w,), r),
    ensures
        ({
            let h = w.hotkeys;
            let any = h.own.key != 0;
            let n = config::laws::one_if(any && h.own == h.record);
            let m = config::laws::one_if(any && h.own == h.play);
            let k = config::laws::one_if(any && h.own == h.stop);
            &&& r@.len() == n + m + k
            &&& n == 1 ==> r@[0]@ == "Record"@
            &&& m == 1 ==> r@[n]@ == "Play"@
            &&& k == 1 ==> r@[n + m]@ == "Stop"@
        }),
{
    let h = w.hotkeys;
    let list = text::views(r@);
    assert(r@.len() == list.len());
    assert(forall|i: int| 0 <= i < r@.len() ==> #[trigger] r@[i]@ == list[i]);
    assert(list == static_clicker_window::conflicts_of(h));
}

// ---------------------------------------------------------------------------
// The list of targets and what is offered
// ---------------------------------------------------------------------------

/// With several targets their list stands either in this window or in one of its own, and else
/// in neither. It takes room in this window where it stands there: all it needs, or a strip.
pub proof fn law_list_stands_in_one_place(
    w: StaticClickerWindow,
    docked: bool,
    popped: bool,
    room: SideRoom,
)
    requires
        call_ensures(StaticClickerWindow::is_docked_panel_active, (&w,), docked),
        call_ensures(StaticClickerWindow::is_popped_out, (&w,), popped),
        call_ensures(StaticClickerWindow::side_room, (&w,), room),
    ensures
        !(docked && popped),
        docked || popped <==> w.fields.cursor_mode is MultiTarget,
        popped ==> w.panel.popped_out,
        docked ==> !w.panel.popped_out,
        room is Nothing <==> !docked,
        docked ==> (room is Strip <==> w.panel.collapsed),
{
}

/// What is done in the list changes what it is about in the window and leaves the rest, and it
/// is stored as the list says.
pub proof fn law_list_changes_just_its_own(
    w: &mut StaticClickerWindow,
    action: PanelAction,
    store: bool,
    stored: bool,
)
    requires
        action.is_within(old(w)@.targets.len()),
        call_ensures(StaticClickerWindow::panel_action, (w, action), store),
        call_ensures(PanelAction::stores, (&action,), stored),
    ensures
        store == stored,
        final(w)@.fields.sequence_enabled == (action is SwitchOn || (old(w)@.fields.sequence_enabled && !(action is SwitchOff))),
        final(w)@.picking.sequence != old(w)@.picking.sequence <==> action is TogglePicking,
        final(w)@.panel.popped_out != old(w)@.panel.popped_out <==> action is PopOut,
        final(w)@.fields.button == old(w)@.fields.button,
        final(w)@.fields.cursor_mode == old(w)@.fields.cursor_mode,
        final(w)@.panel.width == old(w)@.panel.width,
        final(w)@.panel.collapsed == old(w)@.panel.collapsed,
        action is SwitchOn || action is SwitchOff || action is PopOut || action is TogglePicking
            || action is ToggleRow ==> final(w)@.targets == old(w)@.targets,
        action matches PanelAction::DeleteRow { row } ==> final(w)@.targets.len() == old(w)@.targets.len() - 1,
        action matches PanelAction::EditPoint { row, x, y, .. } ==> final(w)@.targets[row as int].x == x && final(w)@.targets[row as int].y == y,
        final(w)@.hotkeys == old(w)@.hotkeys,
        final(w)@.status == old(w)@.status,
{
}

/// How the list is shown is stored when it differs, each part in its place.
pub proof fn law_shown_list_is_stored(
    w: StaticClickerWindow,
    before: Panel,
    differs: bool,
    c: &mut AppConfig,
    a: &mut StaticClickerWindow,
    collapsed: bool,
    b: &mut StaticClickerWindow,
    d: &mut StaticClickerWindow,
)
    requires
        call_ensures(StaticClickerWindow::panel_changed, (&w, before), differs),
        call_ensures(StaticClickerWindow::persist_panel_state, (&w, c), ()),
        call_ensures(StaticClickerWindow::set_collapsed, (a, collapsed), ()),
        call_ensures(StaticClickerWindow::close_popped_out, (b,), ()),
        call_ensures(StaticClickerWindow::settle_picking, (d,), ()),
    ensures
        differs <==> w.panel.collapsed != before.collapsed || w.panel.width != before.width
            || w.panel.popped_out != before.popped_out,
        final(c).sequence_panel_collapsed == w.panel.collapsed,
        final(c).sequence_panel_width == w.panel.width,
        final(c).sequence_panel_popped_out == w.panel.popped_out,
        final(c).static_clicker_sequence_targets == old(c).static_clicker_sequence_targets,
        final(c).hotkeys == old(c).hotkeys,
        final(a)@.panel.collapsed == collapsed && final(a)@.panel.popped_out
            == old(a)@.panel.popped_out,
        !final(b)@.panel.popped_out && final(b)@.panel.collapsed == old(b)@.panel.collapsed,
        !final(d)@.picking.sequence ==> !final(d)@.picking.sequence_armed,
        final(d)@.picking.sequence ==> final(d)@ == old(d)@,
{
}

/// A clicker that does not run can be started and its settings changed; one that runs can only
/// be stopped. The common interval is offered where it counts, the number of clicks where there
/// is one, a point where one is fixed, and picking a point unless there are several.
pub proof fn law_what_can_be_changed_is_offered(
    w: StaticClickerWindow,
    running: bool,
    offers: ClickerOffers,
    overridden: bool,
    lacking: bool,
)
    requires
        call_ensures(StaticClickerWindow::offers, (&w, running), offers),
        call_ensures(StaticClickerWindow::interval_overridden, (&w,), overridden),
        call_ensures(StaticClickerWindow::lacks_targets, (&w,), lacking),
    ensures
        offers.stop <==> running,
        offers.start <==> !running,
        offers.settings <==> !running,
        overridden <==> w.fields.cursor_mode is MultiTarget && w.fields.sequence_enabled,
        offers.interval <==> !running && !overridden,
        offers.repeat_count <==> !running && !w.fields.repeat_until_stopped,
        offers.pick_location <==> !running && !(w.fields.cursor_mode is MultiTarget),
        offers.point <==> !running && w.fields.cursor_mode is Fixed,
        lacking ==> !has_what_it_needs(w, true),
        lacking <==> overridden && w.sequence_targets@.len() == 0,
{
}

/// Buttons and kinds of clicks are told apart by their names, and so are the labels of a button
/// that picks and one that waits for the pick.
pub proof fn law_choices_have_names_of_their_own(
    left: &'static str,
    right: &'static str,
    middle: &'static str,
    single: &'static str,
    double: &'static str,
)
    requires
        call_ensures(static_clicker_window::button_name, (MouseButton::Left,), left),
        call_ensures(static_clicker_window::button_name, (MouseButton::Right,), right),
        call_ensures(static_clicker_window::button_name, (MouseButton::Middle,), middle),
        call_ensures(
            static_clicker_window::click_type_name,
            (crate::model::ClickType::Single,),
            single,
        ),
        call_ensures(
            static_clicker_window::click_type_name,
            (crate::model::ClickType::Double,),
            double,
        ),
    ensures
        left@ == MouseButton::Left.spec_name(),
        right@ == MouseButton::Right.spec_name(),
        middle@ == MouseButton::Middle.spec_name(),
        single@[0] == 'S',
        double@[0] == 'D',
{
    reveal_strlit("Single");
    reveal_strlit("Double");
}

/// The labels say what is picked while it is, what window gets the clicks, and which preset is
/// selected.
pub proof fn law_labels_say_what_is_chosen(
    a: StaticClickerWindow,
    b: StaticClickerWindow,
    location_a: &'static str,
    location_b: &'static str,
    window_a: &'static str,
    window_b: &'static str,
    title: String,
    preset: String,
    hotkey: String,
)
    requires
        call_ensures(StaticClickerWindow::pick_location_label, (&a,), location_a),
        call_ensures(StaticClickerWindow::pick_location_label, (&b,), location_b),
        call_ensures(StaticClickerWindow::pick_window_label, (&a,), window_a),
        call_ensures(StaticClickerWindow::pick_window_label, (&b,), window_b),
        call_ensures(StaticClickerWindow::window_text, (&a,), title),
        call_ensures(StaticClickerWindow::preset_label, (&a,), preset),
        call_ensures(StaticClickerWindow::hotkey_button, (&a,), hotkey),
    ensures
        location_a@ == location_b@ <==> a.picking.location == b.picking.location,
        location_a@[0] == 'C' <==> a.picking.location,
        window_a@ == window_b@ <==> a.picking.window == b.picking.window,
        window_a@[0] == 'C' <==> a.picking.window,
        a.bg_title@.len() > 0 ==> title@ == a.bg_title@,
        a.bg_title@.len() == 0 ==> title@[0] == '(',
        a.preset_selected@.len() > 0 ==> preset@ == a.preset_selected@,
        !a.dialogs.capturing ==> hotkey@ == a.hotkeys.own.spec_display(),
{
    reveal_strlit("Click anywhere… (Esc to cancel)");
    reveal_strlit("Pick location");
    reveal_strlit("Click target window… (Esc to cancel)");
    reveal_strlit("Pick window");
    reveal_strlit("(no window selected)");
    assert("Click anywhere… (Esc to cancel)"@[0] == 'C' && "Pick location"@[0] == 'P');
    assert("Click target window… (Esc to cancel)"@[0] == 'C' && "Pick window"@[0] == 'P');
}

} // verus!
