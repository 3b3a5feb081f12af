//! What the recording window does with its buttons, its hotkeys and its files.

use vstd::prelude::*;

use crate::config;
use crate::config::{AppConfig, HotkeyCombo};
use crate::hooks::CapturedEvent;
use crate::hotkey::HotkeyId;
use crate::model;
use crate::model::MacroData;
use crate::recorder;
use crate::text;
use crate::ui::console;
use crate::ui::interval;
use crate::ui::main_window;
use crate::ui::main_window::{Command, MainWindow, Offers, PlayerMsg};

verus! {

// ---------------------------------------------------------------------------
// Recording
// ---------------------------------------------------------------------------

/// What comes in between the start and the end of a recording is the macro that the window has
/// afterwards, in the settings of the window and in no file. The hotkeys of the window are left
/// out of it.
pub proof fn law_recording_becomes_the_macro(
    a: &mut MainWindow,
    secs: u64,
    now: u64,
    begun: Command,
    b: &mut MainWindow,
    c: &mut MainWindow,
    samples: Vec<(CapturedEvent, u64)>,
)
    requires
        main_window::sound(old(a)@),
        !old(a)@.transport.recording,
        call_ensures(MainWindow::start_recording, (a, secs, now), begun),
        *old(b) == *final(a),
        call_ensures(MainWindow::hooks_installed, (b, None::<String>, secs), ()),
        *old(c) == *final(b),
        call_ensures(MainWindow::stop_recording, (c, &samples, secs), ()),
    ensures
        old(a)@.transport.playing ==> begun is StopPlayerAndInstallHooks,
        !old(a)@.transport.playing ==> begun is InstallHooks,
        !final(a)@.transport.recording && !final(a)@.transport.playing,
        final(b)@.transport.recording && !final(b)@.transport.playing,
        final(b)@.macro_data is None && final(b)@.open_path is None,
        !final(c)@.transport.recording && !final(c)@.transport.playing,
        final(c)@.open_path is None,
        final(c)@.settings == old(a)@.settings,
        final(c)@.bindings == old(a)@.bindings,
        final(c)@.macro_data is Some,
        ({
            let d = final(c)@.macro_data->0;
            let s = old(a)@.settings;
            let own = recorder::combos_of(Some(old(a)@.bindings));
            &&& d.events == recorder::run(recorder::fresh(own, now as nat), samples@).events
            &&& d.speed == s.speed
            &&& d.loop_count == s.loop_count
            &&& d.infinite_loop == s.infinite
            &&& d.interval_ms == interval::spec_compose(s.interval_value, s.interval_unit)
        }),
{
}

/// Where the hooks could not be installed nothing is recorded, nothing is lost, and the user is
/// warned of it.
pub proof fn law_failed_recording_loses_nothing(w: &mut MainWindow, error: String, secs: u64)
    requires
        call_ensures(MainWindow::hooks_installed, (w, Some(error), secs), ()),
    ensures
        final(w)@.transport == old(w)@.transport,
        final(w)@.macro_data == old(w)@.macro_data,
        final(w)@.open_path == old(w)@.open_path,
        final(w)@.recorder == old(w)@.recorder,
        console::spec_is_warning(final(w)@.console.last()),
{
    console::law_warnings_are_seen(secs, "Could not install hooks: "@ + error@);
}

/// Samples count only while the window records.
pub proof fn law_samples_count_while_recording(
    w: &mut MainWindow,
    samples: Vec<(CapturedEvent, u64)>,
)
    requires
        call_ensures(MainWindow::drain_hooks, (w, &samples), ()),
    ensures
        old(w)@.transport.recording ==> final(w)@.recorder == recorder::run(
            old(w)@.recorder,
            samples@,
        ),
        !old(w)@.transport.recording ==> final(w)@.recorder == old(w)@.recorder,
        final(w)@.transport == old(w)@.transport,
        final(w)@.macro_data == old(w)@.macro_data,
        final(w)@.console == old(w)@.console,
{
}

/// The record button ends a recording and begins one where there is none.
pub proof fn law_record_button_turns_recording_on_and_off(
    w: &mut MainWindow,
    samples: Vec<(CapturedEvent, u64)>,
    secs: u64,
    now: u64,
    r: Command,
)
    requires
        main_window::sound(old(w)@),
        call_ensures(MainWindow::toggle_record, (w, &samples, secs, now), r),
    ensures
        r is RemoveHooks <==> old(w)@.transport.recording,
        r is StopPlayerAndInstallHooks <==> old(w)@.transport.playing,
        r is InstallHooks <==> !old(w)@.transport.recording && !old(w)@.transport.playing,
        !final(w)@.transport.recording && !final(w)@.transport.playing,
        old(w)@.transport.recording ==> final(w)@.macro_data is Some
            && final(w)@.macro_data->0.events == recorder::run(
            old(w)@.recorder,
            samples@,
        ).events,
{
}

// ---------------------------------------------------------------------------
// Playback
// ---------------------------------------------------------------------------

/// The play button pauses a playback and lets it go on, ends a recording, and else plays the
/// macro if it has events.
pub proof fn law_play_button_does_what_is_next(
    w: &mut MainWindow,
    samples: Vec<(CapturedEvent, u64)>,
    secs: u64,
    r: Command,
)
    requires
        main_window::sound(old(w)@),
        call_ensures(MainWindow::toggle_play_pause, (w, &samples, secs), r),
    ensures
        ({
            let t = old(w)@.transport;
            let u = final(w)@.transport;
            let some = old(w)@.macro_data is Some && old(w)@.macro_data->0.events.len() > 0;
            &&& r is ResumePlayer <==> t.playing && t.paused
            &&& r is PausePlayer <==> t.playing && !t.paused
            &&& r is RemoveHooks <==> t.recording
            &&& r is Play <==> !t.playing && !t.recording && some
            &&& r is Nothing <==> !t.playing && !t.recording && !some
            &&& t.playing ==> u.playing && u.paused == !t.paused && u.current_loop
                == t.current_loop && u.total_loops == t.total_loops
            &&& r is Play ==> u.playing && !u.paused && u.current_loop == 0
            &&& r is Nothing || r is RemoveHooks ==> !u.playing && !u.recording
            &&& r is Nothing ==> console::spec_is_warning(final(w)@.console.last())
        }),
{
    console::law_warnings_are_seen(secs, "Nothing to play yet — record or open a macro."@);
    console::law_warnings_are_seen(secs, "Nothing to play yet — macro is empty."@);
}

/// What is played are the events of the macro, at the speed, as often and with the waits that
/// the window shows.
pub proof fn law_macro_is_played_in_the_settings_shown(
    w: &mut MainWindow,
    samples: Vec<(CapturedEvent, u64)>,
    secs: u64,
    r: Command,
)
    requires
        call_ensures(MainWindow::start_playback, (w, &samples, secs), r),
        r is Play,
    ensures
        old(w)@.macro_data is Some && final(w)@.macro_data is Some,
        ({
            let d = final(w)@.macro_data->0;
            let s = old(w)@.settings;
            &&& d.events == old(w)@.macro_data->0.events
            &&& d.speed == s.speed
            &&& d.loop_count == s.loop_count
            &&& d.infinite_loop == s.infinite
            &&& d.interval_ms == interval::spec_compose(s.interval_value, s.interval_unit)
            &&& s.infinite ==> final(w)@.transport.total_loops is None
            &&& !s.infinite && s.loop_count >= 1 ==> final(w)@.transport.total_loops == Some(
                s.loop_count as usize,
            )
            &&& !s.infinite && s.loop_count < 1 ==> final(w)@.transport.total_loops == Some(1usize)
            &&& final(w)@.settings == s
            &&& final(w)@.open_path == old(w)@.open_path
        }),
{
}

/// The stop button stops what runs, and only that.
pub proof fn law_stop_button_stops_what_runs(
    w: &mut MainWindow,
    samples: Vec<(CapturedEvent, u64)>,
    secs: u64,
    r: Command,
)
    requires
        main_window::sound(old(w)@),
        call_ensures(MainWindow::stop_all, (w, &samples, secs), r),
    ensures
        r is RemoveHooks <==> old(w)@.transport.recording,
        r is StopPlayer <==> old(w)@.transport.playing,
        r is Nothing <==> !old(w)@.transport.recording && !old(w)@.transport.playing,
        !final(w)@.transport.recording && !final(w)@.transport.playing,
        old(w)@.transport.playing ==> !final(w)@.transport.paused,
        !old(w)@.transport.recording ==> final(w)@.macro_data == old(w)@.macro_data,
        old(w)@.transport.recording ==> final(w)@.macro_data is Some
            && final(w)@.macro_data->0.events == recorder::run(
            old(w)@.recorder,
            samples@,
        ).events,
{
}

/// A hotkey does what its button does: the one for recording as the record button, the one for
/// playing as the play button, the one for stopping as the stop button. The one of the clicker
/// does nothing here.
pub proof fn law_hotkey_does_what_its_button_does(
    id: HotkeyId,
    samples: Vec<(CapturedEvent, u64)>,
    secs: u64,
    now: u64,
    by_key: &mut MainWindow,
    key: Command,
    by_record: &mut MainWindow,
    record: Command,
    by_play: &mut MainWindow,
    play: Command,
    by_stop: &mut MainWindow,
    stop: Command,
)
    requires
        main_window::sound(old(by_key)@),
        *old(by_record) == *old(by_key),
        *old(by_play) == *old(by_key),
        *old(by_stop) == *old(by_key),
        call_ensures(MainWindow::handle_hotkey, (by_key, id, &samples, secs, now), key),
        call_ensures(MainWindow::toggle_record, (by_record, &samples, secs, now), record),
        call_ensures(MainWindow::toggle_play_pause, (by_play, &samples, secs), play),
        call_ensures(MainWindow::stop_all, (by_stop, &samples, secs), stop),
    ensures
        id is Record ==> final(by_key)@ == final(by_record)@ && key == record,
        id is Play ==> final(by_key)@ == final(by_play)@ && key == play,
        id is Stop ==> final(by_key)@ == final(by_stop)@ && key == stop,
        id is Static ==> final(by_key)@ == old(by_key)@ && key is Nothing,
{
}

/// Whether a report says that the playback is over.
pub open spec fn is_over(msg: PlayerMsg) -> bool {
    msg is Completed
}

/// The window shows what the playback reports: the loop it is in, whether it is paused, and
/// that it is over. Nothing else of the window changes but its console.
pub proof fn law_reports_are_shown(w: &mut MainWindow, msgs: Vec<PlayerMsg>, secs: u64)
    requires
        msgs@.len() > 0,
        call_ensures(MainWindow::poll_player, (w, &msgs, secs), ()),
    ensures
        ({
            let t = old(w)@.transport;
            let u = final(w)@.transport;
            &&& msgs@.last() matches PlayerMsg::LoopStarted { current, total } ==> u.current_loop
                == current && u.total_loops == total
            &&& msgs@.last() matches PlayerMsg::PauseChanged(paused) ==> u.paused == paused
            &&& msgs@.last() is Completed ==> !u.playing && !u.paused
            &&& (exists|i: int| 0 <= i < msgs@.len() && is_over(#[trigger] msgs@[i]))
                ==> !u.playing
            &&& (forall|i: int| 0 <= i < msgs@.len() ==> !is_over(#[trigger] msgs@[i]))
                ==> u.playing == t.playing && final(w)@.console == old(w)@.console
            &&& u.recording == t.recording
            &&& final(w)@.macro_data == old(w)@.macro_data
            &&& final(w)@.settings == old(w)@.settings
            &&& final(w)@.open_path == old(w)@.open_path
        }),
{
    lemma_reports(old(w)@, msgs@, secs);
}

proof fn lemma_reports(v: main_window::MainView, msgs: Seq<PlayerMsg>, secs: u64)
    ensures
        ({
            let w = main_window::player_polled(v, msgs, secs);
            &&& (exists|i: int| 0 <= i < msgs.len() && is_over(#[trigger] msgs[i]))
                ==> !w.transport.playing
            &&& (forall|i: int| 0 <= i < msgs.len() ==> !is_over(#[trigger] msgs[i]))
                ==> w.transport.playing == v.transport.playing && w.console == v.console
            &&& w.transport.recording == v.transport.recording
            &&& w.macro_data == v.macro_data
            &&& w.settings == v.settings
            &&& w.open_path == v.open_path
        }),
    decreases msgs.len(),
{
    if msgs.len() > 0 {
        let before = msgs.drop_last();
        lemma_reports(v, before, secs);
        if exists|i: int| 0 <= i < msgs.len() && is_over(#[trigger] msgs[i]) {
            let i = choose|i: int| 0 <= i < msgs.len() && is_over(#[trigger] msgs[i]);
            if i < before.len() {
                assert(is_over(before[i]));
            }
        }
        if forall|i: int| 0 <= i < msgs.len() ==> !is_over(#[trigger] msgs[i]) {
            assert forall|i: int| 0 <= i < before.len() implies !is_over(#[trigger] before[i]) by {
                assert(before[i] == msgs[i]);
            }
            assert(!is_over(msgs[msgs.len() - 1]));
        }
    }
}

/// Leaving the window and an emergency stop both say whether a playback has to be stopped, and
/// an emergency stop is told as a warning. What was recorded so far is the macro of a window
/// that is left.
pub proof fn law_leaving_stops_the_player(
    a: &mut MainWindow,
    samples: Vec<(CapturedEvent, u64)>,
    secs: u64,
    stopped: bool,
    b: &mut MainWindow,
    stopped_at_once: bool,
)
    requires
        call_ensures(MainWindow::on_leave, (a, &samples, secs), stopped),
        call_ensures(MainWindow::emergency_stop, (b, secs), stopped_at_once),
    ensures
        stopped == old(a)@.transport.playing,
        stopped_at_once == old(b)@.transport.playing,
        !final(a)@.transport.playing && !final(a)@.transport.recording,
        !final(b)@.transport.playing && !final(b)@.transport.recording,
        old(a)@.transport.recording ==> final(a)@.macro_data is Some
            && final(a)@.macro_data->0.events == recorder::run(
            old(a)@.recorder,
            samples@,
        ).events,
        !old(a)@.transport.recording ==> final(a)@.macro_data == old(a)@.macro_data,
        !final(a)@.dialogs.settings && !final(a)@.dialogs.playback && !final(a)@.dialogs.editor,
        !final(a)@.dialogs.context && final(a)@.dialogs.capturing is None,
        console::spec_is_warning(final(b)@.console.last()),
        final(b)@.settings == old(b)@.settings,
{
    console::law_warnings_are_seen(secs, "⚠ Emergency stop triggered"@);
}

// ---------------------------------------------------------------------------
// Files
// ---------------------------------------------------------------------------

/// What is saved are the events of the macro in the settings that the window shows. Once it is,
/// the file is the open one and the last one; where it could not be, nothing changes.
pub proof fn law_saved_file_is_the_macro(
    a: &mut MainWindow,
    secs: u64,
    out: Option<MacroData>,
    b: &mut MainWindow,
    data: MacroData,
    path: String,
    error: Option<String>,
    c: &mut AppConfig,
    store: bool,
)
    requires
        call_ensures(MainWindow::do_save, (a, secs), out),
        call_ensures(MainWindow::saved, (b, data, path, error, secs, c), store),
    ensures
        out is Some <==> old(a)@.macro_data is Some,
        out matches Some(d) ==> {
            let s = old(a)@.settings;
            &&& d.events@ == old(a)@.macro_data->0.events
            &&& d.speed == s.speed && d.loop_count == s.loop_count && d.infinite_loop == s.infinite
            &&& d.interval_ms == interval::spec_compose(s.interval_value, s.interval_unit)
            &&& final(a)@ == old(a)@
        },
        store <==> error is None,
        store ==> {
            &&& final(b)@.open_path == Some(path@)
            &&& final(b)@.macro_data == Some(data@)
            &&& final(c).last_file_path is Some && final(c).last_file_path->0@ == path@
        },
        !store ==> {
            &&& final(b)@.open_path == old(b)@.open_path
            &&& final(b)@.macro_data == old(b)@.macro_data
            &&& *final(c) == *old(c)
            &&& console::spec_is_warning(final(b)@.console.last())
        },
        final(b)@.settings == old(b)@.settings,
        final(b)@.transport == old(b)@.transport,
        final(c).hotkeys == old(c).hotkeys && final(c).loop_count == old(c).loop_count,
{
    if let Some(e) = error {
        console::law_warnings_are_seen(secs, "Could not save: "@ + e@);
    }
    if let Some(d) = out {
        assert(main_window::opt_macro(out) == Some(d@));
    }
}

/// A macro that was opened is the macro of the window, with its file as the open and the last
/// one and its settings as those of the window where they are in bounds. Where it could not be
/// opened nothing changes.
pub proof fn law_opened_macro_is_taken_over(
    w: &mut MainWindow,
    result: Result<MacroData, String>,
    path: String,
    secs: u64,
    c: &mut AppConfig,
    store: bool,
)
    requires
        call_ensures(MainWindow::opened, (w, result, path, secs, c), store),
    ensures
        store <==> result is Ok,
        result matches Ok(d) ==> {
            let s = final(w)@.settings;
            &&& final(w)@.macro_data == Some(d@)
            &&& final(w)@.open_path == Some(path@)
            &&& final(c).last_file_path is Some && final(c).last_file_path->0@ == path@
            &&& s.infinite == d.infinite_loop
            &&& 1 <= d.loop_count <= 9999 ==> s.loop_count == d.loop_count
            &&& d.interval_ms >= 0 ==> interval::spec_compose(s.interval_value, s.interval_unit)
                == d.interval_ms
            &&& d.speed == model::sane_speed(d.speed) ==> s.speed == d.speed
            &&& final(w)@.transport.total_loops is None <==> d.infinite_loop
        },
        result is Err ==> {
            &&& final(w)@.macro_data == old(w)@.macro_data
            &&& final(w)@.open_path == old(w)@.open_path
            &&& final(w)@.settings == old(w)@.settings
            &&& final(w)@.transport == old(w)@.transport
            &&& *final(c) == *old(c)
            &&& console::spec_is_warning(final(w)@.console.last())
        },
        final(w)@.bindings == old(w)@.bindings,
{
    match result {
        Ok(d) => {
            if d.interval_ms >= 0 {
                interval::law_compose_undoes_split(d.interval_ms);
            }
            crate::double::law_named_doubles();
            vstd::arithmetic::power2::lemma_pow2_pos(1074);
        },
        Err(e) => {
            console::law_warnings_are_seen(secs, "Open failed: "@ + e@);
        },
    }
}

/// The name of a program made of a macro is that of the macro with the ending of programs.
pub proof fn law_program_is_named_after_its_macro(stem: &str, r: String, unnamed: String)
    requires
        call_ensures(main_window::program_name, (Some(stem),), r),
        call_ensures(main_window::program_name, (None::<&str>,), unnamed),
    ensures
        r@ == stem@ + seq!['.', 'e', 'x', 'e'],
        unnamed@ == seq!['m', 'a', 'c', 'r', 'o', '.', 'e', 'x', 'e'],
{
    reveal_strlit(".exe");
    reveal_strlit("macro");
    assert(r@ =~= stem@ + seq!['.', 'e', 'x', 'e']);
    assert(unnamed@ =~= seq!['m', 'a', 'c', 'r', 'o', '.', 'e', 'x', 'e']);
}

// ---------------------------------------------------------------------------
// Editing
// ---------------------------------------------------------------------------

/// The editor opens on the events of the macro and works on a copy: until the changes are
/// applied the macro stays. Applied, they are the events of the macro, which is in no file then;
/// cancelled, they are dropped. The settings of the macro stay.
pub proof fn law_edits_are_applied_or_dropped(
    a: &mut MainWindow,
    secs: u64,
    b: &mut MainWindow,
    c: &mut MainWindow,
)
    requires
        old(a)@.macro_data is Some,
        old(a)@.macro_data->0.events.len() > 0,
        call_ensures(MainWindow::do_edit, (a, secs), ()),
        old(b)@.macro_data == old(a)@.macro_data,
        old(c)@.macro_data == old(a)@.macro_data,
        call_ensures(MainWindow::editor_apply, (b, secs), ()),
        call_ensures(MainWindow::editor_cancel, (c,), ()),
    ensures
        final(a)@.dialogs.editor,
        final(a)@.editor == old(a)@.macro_data->0.events,
        final(a)@.macro_data == old(a)@.macro_data,
        final(b)@.macro_data == Some(
            (model::MacroView { events: old(b)@.editor, ..old(a)@.macro_data->0 }),
        ),
        final(b)@.open_path is None,
        !final(b)@.dialogs.editor,
        !final(c)@.dialogs.editor,
        final(c)@.macro_data == old(c)@.macro_data,
        final(c)@.open_path == old(c)@.open_path,
{
}

/// Deleting a row leaves all the others in their order; clearing leaves none. The macro stays.
pub proof fn law_deleting_leaves_the_other_rows(a: &mut MainWindow, i: usize, b: &mut MainWindow)
    requires
        i < old(a)@.editor.len(),
        call_ensures(MainWindow::editor_delete, (a, i), ()),
        call_ensures(MainWindow::editor_clear, (b,), ()),
    ensures
        final(a)@.editor.len() == old(a)@.editor.len() - 1,
        forall|k: int| 0 <= k < i ==> final(a)@.editor[k] == #[trigger] old(a)@.editor[k],
        forall|k: int|
            i < k < old(a)@.editor.len() ==> final(a)@.editor[k - 1] == #[trigger] old(a)@.editor[k],
        final(a)@.macro_data == old(a)@.macro_data,
        final(b)@.editor.len() == 0,
        final(b)@.macro_data == old(b)@.macro_data,
{
}

/// A row that can be moved up changes places with the one above it, one that can be moved down
/// with the one below it. The first cannot be moved up and the last not down.
pub proof fn law_rows_change_places(
    a: &mut MainWindow,
    b: &mut MainWindow,
    i: usize,
    can_up: bool,
    can_down: bool,
)
    requires
        i < old(a)@.editor.len(),
        *old(b) == *old(a),
        call_ensures(MainWindow::can_move_up, (old(a), i), can_up),
        call_ensures(MainWindow::can_move_down, (old(a), i), can_down),
        call_ensures(MainWindow::editor_move_up, (a, i), ()),
        call_ensures(MainWindow::editor_move_down, (b, i), ()),
    ensures
        can_up <==> i != 0,
        can_down <==> i != old(a)@.editor.len() - 1,
        can_up ==> {
            &&& final(a)@.editor[i - 1] == old(a)@.editor[i as int]
            &&& final(a)@.editor[i as int] == old(a)@.editor[i - 1]
            &&& final(a)@.editor.len() == old(a)@.editor.len()
            &&& forall|k: int|
                0 <= k < old(a)@.editor.len() && k != i && k != i - 1 ==> final(a)@.editor[k]
                    == #[trigger] old(a)@.editor[k]
        },
        can_down ==> {
            &&& final(b)@.editor[i + 1] == old(b)@.editor[i as int]
            &&& final(b)@.editor[i as int] == old(b)@.editor[i + 1]
            &&& final(b)@.editor.len() == old(b)@.editor.len()
            &&& forall|k: int|
                0 <= k < old(b)@.editor.len() && k != i && k != i + 1 ==> final(b)@.editor[k]
                    == #[trigger] old(b)@.editor[k]
        },
{
}

// ---------------------------------------------------------------------------
// Settings
// ---------------------------------------------------------------------------

/// The combination that is caught is bound to the action that it was caught for, and to no
/// other; a cleared action has no key.
pub proof fn law_caught_hotkey_is_bound(
    a: &mut MainWindow,
    id: HotkeyId,
    b: &mut MainWindow,
    combo: HotkeyCombo,
    c: &mut MainWindow,
    other: HotkeyId,
)
    requires
        call_ensures(MainWindow::begin_capture, (a, id), ()),
        *old(b) == *final(a),
        call_ensures(MainWindow::captured, (b, Some(combo)), ()),
        *old(c) == *final(b),
        call_ensures(MainWindow::clear_hotkey, (c, id), ()),
    ensures
        final(a)@.dialogs.capturing == Some(id),
        final(a)@.bindings == old(a)@.bindings,
        final(b)@.dialogs.capturing is None,
        id.bound_in(final(b)@.bindings) == combo,
        id.bound_in(final(c)@.bindings).key == 0 && id.bound_in(final(c)@.bindings).modifiers == 0,
        other != id ==> {
            &&& other.bound_in(final(b)@.bindings) == other.bound_in(old(a)@.bindings)
            &&& other.bound_in(final(c)@.bindings) == other.bound_in(old(a)@.bindings)
        },
        final(c)@.macro_data == old(a)@.macro_data,
        final(c)@.settings == old(a)@.settings,
{
}

/// Nothing is bound while nothing was pressed, or while none is being caught.
pub proof fn law_nothing_is_bound_unasked(w: &mut MainWindow, combo: Option<HotkeyCombo>)
    requires
        combo is None || old(w)@.dialogs.capturing is None,
        call_ensures(MainWindow::captured, (w, combo), ()),
    ensures
        final(w)@ == old(w)@,
{
}

/// Hotkeys that were changed are stored where the changes are applied; else those that are
/// stored come back.
pub proof fn law_hotkeys_are_stored_or_come_back(
    w: &mut MainWindow,
    apply: bool,
    c: &mut AppConfig,
    store: bool,
)
    requires
        call_ensures(MainWindow::settle_bindings, (w, apply, c), store),
    ensures
        store == apply,
        config::bindings_of(final(c).hotkeys@) == final(w)@.bindings,
        apply ==> final(w)@.bindings == old(w)@.bindings,
        !apply ==> *final(c) == *old(c),
        final(c).last_file_path == old(c).last_file_path,
        final(c).static_clicker_interval_ms == old(c).static_clicker_interval_ms,
        final(c).static_clicker_presets == old(c).static_clicker_presets,
{
    config::law_bindings_survive_storing(old(w)@.bindings);
}

/// Playback options that are applied are stored and put into the macro, whose events stay;
/// closed without applying they change neither the macro nor what is stored.
pub proof fn law_playback_options_reach_the_macro(
    w: &mut MainWindow,
    apply: bool,
    secs: u64,
    c: &mut AppConfig,
    store: bool,
)
    requires
        call_ensures(MainWindow::close_playback_options, (w, apply, secs, c), store),
    ensures
        store == apply,
        !final(w)@.dialogs.playback,
        final(w)@.settings == old(w)@.settings,
        final(w)@.macro_data is Some <==> old(w)@.macro_data is Some,
        ({
            let s = old(w)@.settings;
            let ms = interval::spec_compose(s.interval_value, s.interval_unit);
            &&& apply ==> final(c).default_speed == s.speed && final(c).loop_count == s.loop_count
                && final(c).infinite_loop == s.infinite && final(c).interval_ms == ms
            &&& apply && old(w)@.macro_data is Some ==> {
                let d = final(w)@.macro_data->0;
                &&& d.events == old(w)@.macro_data->0.events
                &&& d.speed == s.speed && d.loop_count == s.loop_count
                &&& d.infinite_loop == s.infinite && d.interval_ms == ms
            }
            &&& apply ==> (final(w)@.transport.total_loops is None <==> s.infinite)
            &&& !apply ==> *final(c) == *old(c) && final(w)@.macro_data == old(w)@.macro_data
        }),
{
}

/// The window stays on top or not in turn, and what it does is stored each time. The system is
/// asked once when the window opens, and only where it is to stay on top.
pub proof fn law_staying_on_top_is_turned_about(
    a: &mut MainWindow,
    b: &mut MainWindow,
    c: &mut AppConfig,
    d: &mut AppConfig,
    secs: u64,
    e: &mut MainWindow,
    f: &mut MainWindow,
    first: bool,
    second: bool,
)
    requires
        call_ensures(MainWindow::toggle_always_on_top, (a, secs, c), ()),
        *old(b) == *final(a),
        *old(d) == *final(c),
        call_ensures(MainWindow::toggle_always_on_top, (b, secs, d), ()),
        call_ensures(MainWindow::take_top_request, (e,), first),
        *old(f) == *final(e),
        call_ensures(MainWindow::take_top_request, (f,), second),
    ensures
        final(a)@.always_on_top != old(a)@.always_on_top,
        final(b)@.always_on_top == old(a)@.always_on_top,
        final(c).always_on_top == final(a)@.always_on_top,
        final(d).always_on_top == final(b)@.always_on_top,
        first ==> old(e)@.always_on_top,
        old(e)@.always_on_top && !old(e)@.top_initialized ==> first,
        !second,
        final(e)@.always_on_top == old(e)@.always_on_top,
{
}

/// The window opens idle, without a macro, with the stored hotkeys and with the stored settings
/// where they are in bounds.
pub proof fn law_window_opens_as_it_was_left(
    c: AppConfig,
    hotkeys: bool,
    secs: u64,
    now: u64,
    w: MainWindow,
)
    requires
        call_ensures(MainWindow::new, (&c, hotkeys, secs, now), w),
    ensures
        !w@.transport.recording && !w@.transport.playing && !w@.transport.paused,
        w@.macro_data is None && w@.open_path is None,
        w@.bindings == config::bindings_of(c.hotkeys@),
        w@.always_on_top == c.always_on_top,
        w@.settings.infinite == c.infinite_loop,
        w@.transport.total_loops is None <==> c.infinite_loop,
        1 <= c.loop_count <= 9999 ==> w@.settings.loop_count == c.loop_count,
        1 <= w@.settings.loop_count <= 9999,
        c.interval_ms >= 0 ==> interval::spec_compose(
            w@.settings.interval_value,
            w@.settings.interval_unit,
        ) == c.interval_ms,
        c.default_speed == model::sane_speed(c.default_speed) ==> w@.settings.speed
            == c.default_speed,
        !w@.dialogs.settings && !w@.dialogs.playback && !w@.dialogs.editor && !w@.dialogs.context,
        w@.console.len() == if hotkeys {
            2int
        } else {
            1
        },
        !w@.top_initialized,
{
    if c.interval_ms >= 0 {
        interval::law_compose_undoes_split(c.interval_ms);
    }
    crate::double::law_named_doubles();
    vstd::arithmetic::power2::lemma_pow2_pos(1074);
}

// ---------------------------------------------------------------------------
// What is shown
// ---------------------------------------------------------------------------

/// What is offered works: what can be stopped, opened, saved, made a program of and edited is.
/// Playing is offered unless a recording runs.
pub proof fn law_what_is_offered_works(
    w: MainWindow,
    offers: Offers,
    samples: Vec<(CapturedEvent, u64)>,
    secs: u64,
    busy: bool,
    a: &mut MainWindow,
    stop: Command,
    b: &mut MainWindow,
    open: bool,
    c: &mut MainWindow,
    save: Option<MacroData>,
    d: &mut MainWindow,
    compile: Option<MacroData>,
    e: &mut MainWindow,
)
    requires
        !w@.dialogs.editor,
        call_ensures(MainWindow::offers, (&w,), offers),
        call_ensures(MainWindow::is_busy, (&w,), busy),
        *old(a) == w && *old(b) == w && *old(c) == w && *old(d) == w && *old(e) == w,
        call_ensures(MainWindow::stop_all, (a, &samples, secs), stop),
        call_ensures(MainWindow::do_open, (b, secs), open),
        call_ensures(MainWindow::do_save, (c, secs), save),
        call_ensures(MainWindow::do_compile, (d, secs), compile),
        call_ensures(MainWindow::do_edit, (e, secs), ()),
    ensures
        offers.stop <==> busy,
        offers.stop <==> !(stop is Nothing),
        offers.open <==> open,
        open <==> !busy,
        offers.save ==> save is Some && save->0.events@.len() > 0,
        offers.compile ==> compile is Some,
        offers.edit ==> final(e)@.dialogs.editor,
        !w@.transport.recording ==> (offers.compile <==> compile is Some) && (offers.edit
            <==> final(e)@.dialogs.editor),
        w@.transport.recording <==> !offers.play,
        w@.transport.recording ==> !offers.save && !offers.edit && !offers.compile
            && !offers.playback_options,
        !w@.transport.recording ==> offers.playback_options,
{
}

/// The labels of the buttons change with what the buttons do next.
pub proof fn law_labels_change_with_the_state(
    a: MainWindow,
    b: MainWindow,
    record_a: &'static str,
    record_b: &'static str,
    play_a: &'static str,
    play_b: &'static str,
    top_a: &'static str,
    top_b: &'static str,
)
    requires
        call_ensures(MainWindow::record_label, (&a,), record_a),
        call_ensures(MainWindow::record_label, (&b,), record_b),
        call_ensures(MainWindow::play_label, (&a,), play_a),
        call_ensures(MainWindow::play_label, (&b,), play_b),
        call_ensures(MainWindow::top_label, (&a,), top_a),
        call_ensures(MainWindow::top_label, (&b,), top_b),
    ensures
        record_a@ == record_b@ <==> a@.transport.recording == b@.transport.recording,
        record_a@[2] == 'S' <==> a@.transport.recording,
        play_a@.len() == 7 <==> a@.transport.playing && !a@.transport.paused,
        play_a@ == play_b@ <==> (a@.transport.playing && !a@.transport.paused) == (
        b@.transport.playing && !b@.transport.paused),
        top_a@ == top_b@ <==> a@.always_on_top == b@.always_on_top,
{
    reveal_strlit("■ Stop");
    reveal_strlit("● Record");
    reveal_strlit("⏸ Pause");
    reveal_strlit("▶ Play");
    reveal_strlit("☑ Always on top");
    reveal_strlit("☐ Always on top");
    assert("■ Stop"@[2] == 'S' && "● Record"@[2] == 'R');
    assert("⏸ Pause"@.len() == 7 && "▶ Play"@.len() == 6);
    assert("☑ Always on top"@[0] == '☑' && "☐ Always on top"@[0] == '☐');
}

/// The hotkey of an action is shown as it is bound, and not while a new one is being caught.
pub proof fn law_hotkey_is_shown_as_bound(
    w: MainWindow,
    id: HotkeyId,
    word: &str,
    button: String,
    hover: String,
    shown: String,
)
    requires
        w@.dialogs.capturing != Some(id),
        call_ensures(MainWindow::hotkey_button, (&w, id), button),
        call_ensures(MainWindow::hover_text, (&w, word, id), hover),
        call_ensures(HotkeyCombo::display_owned, (&id.bound_in(w@.bindings),), shown),
    ensures
        button@ == shown@,
        hover@ == word@ + seq![' ', '('] + shown@ + seq![')'],
{
    reveal_strlit(" (");
    reveal_strlit(")");
    assert(hover@ =~= word@ + seq![' ', '('] + shown@ + seq![')']);
}

/// There is a warning for each two actions of the window that have one combination.
pub proof fn law_each_duplicate_is_warned_of(w: MainWindow, r: Vec<String>)
    requires
        call_ensures(MainWindow::duplicates, (&w,), r),
    ensures
        ({
            let b = w@.bindings;
            r@.len() == config::laws::one_if(b.record.key != 0 && b.record == b.play)
                + config::laws::one_if(b.record.key != 0 && b.record == b.stop)
                + config::laws::one_if(b.play.key != 0 && b.play == b.stop)
        }),
{
    assert(r@.len() == text::views(r@).len());
}

/// The status tells a recording, a playback that runs and one that is paused apart.
pub proof fn law_status_tells_what_runs(w: MainWindow, r: String)
    requires
        main_window::sound(w@),
        call_ensures(MainWindow::status, (&w,), r),
    ensures
        w@.transport.recording ==> r@[0] == '●' && r@[2] == 'R',
        w@.transport.playing && !w@.transport.paused ==> r@[0] == '▶',
        w@.transport.playing && w@.transport.paused ==> r@[0] == '⏸',
        !w@.transport.recording && !w@.transport.playing && w@.macro_data is None ==> r@[0] == 'I',
        w@.transport.recording ==> exists|n: Seq<char>|
            r@ == "● Rec ("@ + n + " ev)"@ && #[trigger] text::dec_value(n)
                == w@.recorder.events.len(),
{
    reveal_strlit("● Rec (");
    reveal_strlit("▶ ");
    reveal_strlit("⏸ ");
    reveal_strlit("Idle • ");
    let n = text::dec_nat(w@.recorder.events.len());
    text::law_dec_reads_back(w@.recorder.events.len());
    if w@.transport.recording {
        assert(r@ == "● Rec ("@ + n + " ev)"@);
        assert(text::dec_value(n) == w@.recorder.events.len());
    }
}

// ---------------------------------------------------------------------------
// What the console says
// ---------------------------------------------------------------------------

/// The message of the newest line of the console.
pub open spec fn newest(v: main_window::MainView) -> Seq<char> {
    v.console.last().skip(13)
}

/// Whether the newest line of the console is marked as a warning.
pub open spec fn newest_warns(v: main_window::MainView) -> bool {
    v.console.last()[11] == '!'
}

/// Whether a message holds a number between two texts.
pub open spec fn tells_number(message: Seq<char>, before: Seq<char>, n: nat, after: Seq<char>) -> bool {
    exists|digits: Seq<char>|
        message == before + digits + after && #[trigger] text::dec_value(digits) == n
}

proof fn lemma_number_is_told(before: Seq<char>, n: nat, after: Seq<char>)
    ensures
        tells_number(before + text::dec_nat(n) + after, before, n, after),
{
    text::law_dec_reads_back(n);
    assert(text::dec_value(text::dec_nat(n)) == n);
}

/// What is logged is the newest line of the console, marked as a warning where it is one, and
/// the console is scrolled to it.
pub proof fn law_log_is_seen(w: &mut MainWindow, message: &str, warning: bool, secs: u64)
    requires
        call_ensures(MainWindow::log, (w, message, warning, secs), ()),
    ensures
        newest(final(w)@) == message@,
        newest_warns(final(w)@) == warning,
        final(w)@.autoscroll,
        final(w)@.transport == old(w)@.transport,
        final(w)@.macro_data == old(w)@.macro_data,
{
    console::lemma_mark(secs, message@, warning);
}

/// What the play button did is told without a warning, unless there was nothing to play: that a
/// playback runs, that it is paused, and that it goes on.
pub proof fn law_playback_is_told(
    w: &mut MainWindow,
    samples: Vec<(CapturedEvent, u64)>,
    secs: u64,
    r: Command,
)
    requires
        call_ensures(MainWindow::toggle_play_pause, (w, &samples, secs), r),
    ensures
        newest_warns(final(w)@) <==> r is Nothing,
        r is PausePlayer ==> newest(final(w)@).take(6) == "Paused"@,
        r is ResumePlayer ==> newest(final(w)@).take(7) == "Resumed"@,
        r is Play ==> newest(final(w)@).take(8) == "Playing…"@,
        final(w)@.autoscroll,
{
    let v = old(w)@;
    let t = v.transport;
    let total = main_window::loops_of(v.settings.infinite, v.settings.loop_count);
    reveal_strlit("Paused");
    reveal_strlit("Resumed");
    reveal_strlit("Playing…");
    reveal_strlit("Playing… (loop 1/");
    let playing = "Playing… (loop 1/"@ + main_window::total_text(total) + ")"@;
    let resumed = "Resumed"@ + main_window::loop_of_text(t);
    let paused = "Paused"@ + main_window::loop_of_text(t);
    console::lemma_mark(secs, playing, false);
    console::lemma_mark(secs, resumed, false);
    console::lemma_mark(secs, paused, false);
    console::lemma_mark(secs, "Nothing to play yet — record or open a macro."@, true);
    console::lemma_mark(secs, "Nothing to play yet — macro is empty."@, true);
    let n = main_window::drained(v, samples@).recorder.events.len();
    console::lemma_mark(secs, text::dec_nat(n) + " event(s) recorded."@, false);
    assert(playing.take(8) =~= "Playing…"@);
    assert(resumed.take(7) =~= "Resumed"@);
    assert(paused.take(6) =~= "Paused"@);
}

/// What was stopped is told, and how many events were recorded.
pub proof fn law_stopping_is_told(
    w: &mut MainWindow,
    samples: Vec<(CapturedEvent, u64)>,
    secs: u64,
    r: Command,
)
    requires
        call_ensures(MainWindow::stop_all, (w, &samples, secs), r),
    ensures
        !newest_warns(final(w)@),
        r is StopPlayer ==> newest(final(w)@) == "Stopped."@,
        r is Nothing ==> newest(final(w)@) == "Idle."@,
        r is RemoveHooks ==> final(w)@.macro_data is Some && tells_number(
            newest(final(w)@),
            Seq::empty(),
            final(w)@.macro_data->0.events.len(),
            " event(s) recorded."@,
        ),
        final(w)@.autoscroll,
{
    let n = main_window::drained(old(w)@, samples@).recorder.events.len();
    let recorded = text::dec_nat(n) + " event(s) recorded."@;
    console::lemma_mark(secs, recorded, false);
    console::lemma_mark(secs, "Stopped."@, false);
    console::lemma_mark(secs, "Idle."@, false);
    lemma_number_is_told(Seq::empty(), n, " event(s) recorded."@);
    assert(Seq::<char>::empty() + text::dec_nat(n) + " event(s) recorded."@ =~= recorded);
}

/// A file that was saved, one that was opened and an edit are told with the number of events,
/// and none of them as a warning.
pub proof fn law_files_are_told(
    a: &mut MainWindow,
    data: MacroData,
    path: String,
    secs: u64,
    c: &mut AppConfig,
    stored: bool,
    b: &mut MainWindow,
    d: &mut AppConfig,
    noted: bool,
    e: &mut MainWindow,
)
    requires
        call_ensures(MainWindow::saved, (a, data, path, None::<String>, secs, c), stored),
        call_ensures(
            MainWindow::opened,
            (b, Ok::<MacroData, String>(data), path, secs, d),
            noted,
        ),
        call_ensures(MainWindow::editor_apply, (e, secs), ()),
    ensures
        !newest_warns(final(a)@) && !newest_warns(final(b)@) && !newest_warns(final(e)@),
        tells_number(newest(final(a)@), "Saved "@, data.events@.len(), " event(s) → "@ + path@),
        tells_number(newest(final(b)@), "Loaded "@, data.events@.len(), " event(s) from "@ + path@),
        tells_number(
            newest(final(e)@),
            "Edited macro — "@,
            old(e)@.editor.len(),
            " event(s)."@,
        ),
{
    let n = data.events@.len();
    let k = old(e)@.editor.len();
    let s = "Saved "@ + text::dec_nat(n) + " event(s) → "@ + path@;
    let l = "Loaded "@ + text::dec_nat(n) + " event(s) from "@ + path@;
    let t = "Edited macro — "@ + text::dec_nat(k) + " event(s)."@;
    console::lemma_mark(secs, s, false);
    console::lemma_mark(secs, l, false);
    console::lemma_mark(secs, t, false);
    lemma_number_is_told("Saved "@, n, " event(s) → "@ + path@);
    lemma_number_is_told("Loaded "@, n, " event(s) from "@ + path@);
    lemma_number_is_told("Edited macro — "@, k, " event(s)."@);
    assert(s =~= "Saved "@ + text::dec_nat(n) + (" event(s) → "@ + path@));
    assert(l =~= "Loaded "@ + text::dec_nat(n) + (" event(s) from "@ + path@));
}

/// That a recording runs, that a playback is over and that settings were changed is told, and
/// not as a warning. A playback that came to its end is told apart from one that was stopped.
pub proof fn law_other_news_are_told(
    a: &mut MainWindow,
    secs: u64,
    v: main_window::MainView,
    completed: bool,
    b: &mut MainWindow,
    c: &mut AppConfig,
    store: bool,
    d: &mut MainWindow,
    e: &mut AppConfig,
)
    requires
        call_ensures(MainWindow::hooks_installed, (a, None::<String>, secs), ()),
        call_ensures(MainWindow::close_playback_options, (b, true, secs, c), store),
        call_ensures(MainWindow::toggle_always_on_top, (d, secs, e), ()),
    ensures
        !newest_warns(final(a)@) && newest(final(a)@) == "Recording…"@,
        !newest_warns(final(b)@),
        !newest_warns(final(d)@),
        newest(final(d)@).len() == 19 <==> final(d)@.always_on_top,
        ({
            let after = main_window::player_reported(v, PlayerMsg::Completed(completed), secs);
            &&& !newest_warns(after)
            &&& completed <==> newest(after)[9] == 'f'
        }),
{
    reveal_strlit("Playback finished (");
    reveal_strlit("Playback stopped.");
    reveal_strlit("Always on top — off.");
    reveal_strlit("Always on top — on.");
    console::lemma_mark(secs, "Recording…"@, false);
    console::lemma_mark(secs, "Playback options updated."@, false);
    console::lemma_mark(secs, "Always on top — off."@, false);
    console::lemma_mark(secs, "Always on top — on."@, false);
    let done = "Playback finished ("@ + main_window::loop_text(v.transport) + ")"@;
    console::lemma_mark(secs, done, false);
    console::lemma_mark(secs, "Playback stopped."@, false);
    assert(done[9] == 'f');
    assert("Playback stopped."@[9] == 's');
    assert("Always on top — off."@.len() == 20 && "Always on top — on."@.len() == 19);
}

} // verus!
