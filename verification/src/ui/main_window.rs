//! The recording window: transport, console, files, editor and settings.
//!
//! What the window has the system do, it returns as a command. What came of it, it is told.

pub mod laws;

use vstd::prelude::*;

use crate::config::{AppConfig, HotkeyCombo, HotkeyMap, SettingsBindings};
use crate::double::{Double, QUARTER_BITS, TEN_BITS};
use crate::hooks::CapturedEvent;
use crate::hotkey::HotkeyId;
use crate::model;
use crate::model::{clamp_i32, copy_events, MacroData, MacroEvent};
use crate::recorder;
use crate::recorder::Recorder;
use crate::text;
use crate::text::{push_dec, push_dec_nat};
use crate::ui::console;
use crate::ui::console::Console;
use crate::ui::interval;
use crate::ui::interval::{compose_interval_ms, format_interval, split_interval_ms};

verus! {

// ---------------------------------------------------------------------------
// State
// ---------------------------------------------------------------------------

/// What is being recorded or played.
#[derive(Debug, Clone, Copy, PartialEq, Eq, Structural)]
pub struct Transport {
    pub recording: bool,
    pub playing: bool,
    pub paused: bool,
    pub current_loop: usize,
    /// The number of loops, unless there is no end.
    pub total_loops: Option<usize>,
}

/// How macros are played.
#[derive(Debug, Clone, Copy, PartialEq, Eq, Structural)]
pub struct PlaybackSettings {
    pub speed: Double,
    pub loop_count: i32,
    pub infinite: bool,
    /// The interval between loops, in its unit.
    pub interval_value: i32,
    /// 0 for milliseconds, 1 for seconds, 2 for minutes, 3 for hours.
    pub interval_unit: usize,
}

/// Which dialogs are open.
#[derive(Debug, Clone, Copy, PartialEq, Eq, Structural)]
pub struct Dialogs {
    pub settings: bool,
    pub playback: bool,
    pub editor: bool,
    pub context: bool,
    /// The action whose hotkey is being caught.
    pub capturing: Option<HotkeyId>,
}

/// The recording window.
#[derive(Debug)]
pub struct MainWindow {
    pub bindings: SettingsBindings,
    pub macro_data: Option<MacroData>,
    pub open_path: Option<String>,
    pub transport: Transport,
    pub settings: PlaybackSettings,
    pub always_on_top: bool,
    pub console: Console,
    pub autoscroll: bool,
    pub recorder: Recorder,
    pub dialogs: Dialogs,
    pub editor_events: Vec<MacroEvent>,
    pub top_initialized: bool,
}

/// What the recording window holds.
#[verifier::ext_equal]
pub struct MainView {
    pub bindings: SettingsBindings,
    pub macro_data: Option<model::MacroView>,
    pub open_path: Option<Seq<char>>,
    pub transport: Transport,
    pub settings: PlaybackSettings,
    pub always_on_top: bool,
    pub console: Seq<Seq<char>>,
    pub autoscroll: bool,
    pub recorder: recorder::RecorderView,
    pub dialogs: Dialogs,
    pub editor: Seq<MacroEvent>,
    pub top_initialized: bool,
}

/// A macro that may not be there.
pub open spec fn opt_macro(d: Option<MacroData>) -> Option<model::MacroView> {
    match d {
        Some(d) => Some(d@),
        None => None,
    }
}

/// Whether a configuration is another one with the settings of the window put into it.
pub open spec fn keeps(v: MainView, before: AppConfig, after: AppConfig) -> bool {
    &&& after == (AppConfig {
        default_speed: v.settings.speed,
        loop_count: v.settings.loop_count,
        infinite_loop: v.settings.infinite,
        interval_ms: interval::spec_compose(v.settings.interval_value, v.settings.interval_unit),
        always_on_top: v.always_on_top,
        hotkeys: after.hotkeys,
        ..before
    })
    &&& after.hotkeys@ == crate::config::map_of(v.bindings)
}

/// Whether a configuration is another one with a file noted as the last one, or the same one
/// where there is nothing to note.
pub open spec fn notes_file(
    noted: bool,
    path: Seq<char>,
    before: AppConfig,
    after: AppConfig,
) -> bool {
    if noted {
        &&& after == (AppConfig { last_file_path: after.last_file_path, ..before })
        &&& model::opt_text(after.last_file_path) == Some(path)
    } else {
        after == before
    }
}

impl View for MainWindow {
    type V = MainView;

    open spec fn view(&self) -> MainView {
        MainView {
            bindings: self.bindings,
            macro_data: opt_macro(self.macro_data),
            open_path: model::opt_text(self.open_path),
            transport: self.transport,
            settings: self.settings,
            always_on_top: self.always_on_top,
            console: self.console@,
            autoscroll: self.autoscroll,
            recorder: self.recorder@,
            dialogs: self.dialogs,
            editor: self.editor_events@,
            top_initialized: self.top_initialized,
        }
    }
}

/// What the window has the system do.
#[derive(Debug, Clone, Copy, PartialEq, Eq, Structural)]
pub enum Command {
    Nothing,
    /// Install the input hooks, and report how that went.
    InstallHooks,
    /// Stop the playback, then install the input hooks.
    StopPlayerAndInstallHooks,
    RemoveHooks,
    /// Play the macro of the window.
    Play,
    PausePlayer,
    ResumePlayer,
    StopPlayer,
}

/// What a playback reports.
#[derive(Debug, Clone, Copy, PartialEq, Eq, Structural)]
pub enum PlayerMsg {
    LoopStarted { current: usize, total: Option<usize> },
    Completed(bool),
    PauseChanged(bool),
}

/// What always holds of the window: it does not record and play at once.
pub open spec fn sound(v: MainView) -> bool {
    !(v.transport.recording && v.transport.playing)
}

// ---------------------------------------------------------------------------
// Texts and settings
// ---------------------------------------------------------------------------

/// The number of loops of some settings, unless there is no end.
pub open spec fn loops_of(infinite: bool, loop_count: i32) -> Option<usize> {
    if infinite {
        None
    } else if loop_count < 1 {
        Some(1)
    } else {
        Some(loop_count as usize)
    }
}

fn total_of(infinite: bool, loop_count: i32) -> (r: Option<usize>)
    ensures
        r == loops_of(infinite, loop_count),
{
    if infinite {
        None
    } else if loop_count < 1 {
        Some(1)
    } else {
        Some(loop_count as usize)
    }
}

/// A macro with settings.
pub open spec fn with_settings(d: model::MacroView, s: PlaybackSettings) -> model::MacroView {
    model::MacroView {
        speed: s.speed,
        loop_count: s.loop_count,
        infinite_loop: s.infinite,
        interval_ms: interval::spec_compose(s.interval_value, s.interval_unit),
        ..d
    }
}

fn put_settings(d: &mut MacroData, s: &PlaybackSettings)
    ensures
        final(d)@ == with_settings(old(d)@, *s),
{
    d.speed = s.speed;
    d.loop_count = s.loop_count;
    d.infinite_loop = s.infinite;
    d.interval_ms = compose_interval_ms(s.interval_value, s.interval_unit);
}

/// Settings that were stored, brought into bounds.
pub open spec fn settings_from(
    speed: Double,
    loop_count: i32,
    infinite: bool,
    interval_ms: i32,
) -> PlaybackSettings {
    PlaybackSettings {
        speed: speed.spec_clamp(Double { bits: QUARTER_BITS }, Double { bits: TEN_BITS }),
        loop_count: model::clamp(loop_count as int, 1, 9999) as i32,
        infinite,
        interval_value: interval::spec_split(interval_ms).0,
        interval_unit: interval::spec_split(interval_ms).1,
    }
}

fn take_settings(speed: Double, loop_count: i32, infinite: bool, interval_ms: i32) -> (r:
    PlaybackSettings)
    ensures
        r == settings_from(speed, loop_count, infinite, interval_ms),
{
    let (interval_value, interval_unit) = split_interval_ms(interval_ms);
    PlaybackSettings {
        speed: speed.clamp_to(Double { bits: QUARTER_BITS }, Double { bits: TEN_BITS }),
        loop_count: clamp_i32(loop_count, 1, 9999),
        infinite,
        interval_value,
        interval_unit,
    }
}

/// The number of loops as it is shown.
pub open spec fn total_text(total: Option<usize>) -> Seq<char> {
    match total {
        None => "∞"@,
        Some(n) => text::dec_nat(n as nat),
    }
}

/// The loops that were played, in words.
pub open spec fn loop_text(t: Transport) -> Seq<char> {
    match t.total_loops {
        None => text::dec_nat(t.current_loop as nat) + " infinite loop(s)"@,
        Some(n) => text::dec_nat(t.current_loop as nat) + "/"@ + text::dec_nat(n as nat)
            + " loops"@,
    }
}

fn number_text(n: usize) -> (r: String)
    ensures
        r@ == text::dec_nat(n as nat),
{
    let mut s: String = "".to_owned();
    proof {
        reveal_strlit("");
    }
    push_dec_nat(&mut s, n as u64);
    proof {
        assert(s@ =~= text::dec_nat(n as nat));
    }
    s
}

/// A window with another line in its console.
pub open spec fn logged(v: MainView, secs: u64, message: Seq<char>, warning: bool) -> MainView {
    MainView {
        console: console::added(v.console, console::line(secs, message, warning)),
        autoscroll: true,
        ..v
    }
}

/// A window with several more lines in its console, each after the same words.
pub open spec fn all_logged(
    v: MainView,
    secs: u64,
    words: Seq<char>,
    messages: Seq<Seq<char>>,
    warning: bool,
) -> MainView
    decreases messages.len(),
{
    if messages.len() == 0 {
        v
    } else {
        logged(
            all_logged(v, secs, words, messages.drop_last(), warning),
            secs,
            words + messages.last(),
            warning,
        )
    }
}

/// The loop that is played, and of how many.
pub open spec fn loop_of_text(t: Transport) -> Seq<char> {
    " (loop "@ + text::dec_nat(t.current_loop as nat) + "/"@ + total_text(t.total_loops) + ")"@
}

/// The first lines of the console.
pub open spec fn first_lines(b: SettingsBindings, hotkeys: bool, secs: u64) -> Seq<Seq<char>> {
    let ready = seq![
        console::plain_line(
            secs,
            "Ready. Right-click for file, playback & settings options."@,
        ),
    ];
    if hotkeys {
        ready.push(
            console::plain_line(
                secs,
                "Hotkeys: Record="@ + b.record.spec_display() + "  Play="@ + b.play.spec_display()
                    + "  Stop="@ + b.stop.spec_display(),
            ),
        )
    } else {
        ready
    }
}

/// A window as it opens.
pub open spec fn opened_with(c: AppConfig, hotkeys: bool, secs: u64, now: u64) -> MainView {
    let b = crate::config::bindings_of(c.hotkeys@);
    let s = settings_from(c.default_speed, c.loop_count, c.infinite_loop, c.interval_ms);
    MainView {
        bindings: b,
        macro_data: None,
        open_path: None,
        transport: Transport {
            recording: false,
            playing: false,
            paused: false,
            current_loop: 0,
            total_loops: loops_of(s.infinite, s.loop_count),
        },
        settings: s,
        always_on_top: c.always_on_top,
        console: first_lines(b, hotkeys, secs),
        autoscroll: true,
        recorder: recorder::fresh(Seq::empty(), now as nat),
        dialogs: Dialogs {
            settings: false,
            playback: false,
            editor: false,
            context: false,
            capturing: None,
        },
        editor: Seq::empty(),
        top_initialized: false,
    }
}

impl MainWindow {
    /// The window as it opens, with the stored settings. `hotkeys` says whether there are
    /// global hotkeys, `secs` and `now` what time it is in seconds and in nanoseconds.
    pub fn new(c: &AppConfig, hotkeys: bool, secs: u64, now: u64) -> (r: Self)
        ensures
            r@ == opened_with(*c, hotkeys, secs, now),
            sound(r@),
    {
        let bindings: SettingsBindings = SettingsBindings::from_map(Some(&c.hotkeys));
        let settings: PlaybackSettings = take_settings(
            c.default_speed,
            c.loop_count,
            c.infinite_loop,
            c.interval_ms,
        );
        let mut lines: Console = Console::new();
        lines.add_line(
            console::plain_line_of(
                secs,
                "Ready. Right-click for file, playback & settings options.",
            ),
        );
        if hotkeys {
            let mut s: String = "Hotkeys: Record=".to_owned();
            s.append(bindings.record.display_owned().as_str());
            s.append("  Play=");
            s.append(bindings.play.display_owned().as_str());
            s.append("  Stop=");
            s.append(bindings.stop.display_owned().as_str());
            lines.add_line(console::plain_line_of(secs, s.as_str()));
        }
        proof {
            assert(lines@ =~= first_lines(bindings, hotkeys, secs));
        }
        MainWindow {
            bindings,
            macro_data: None,
            open_path: None,
            transport: Transport {
                recording: false,
                playing: false,
                paused: false,
                current_loop: 0,
                total_loops: total_of(settings.infinite, settings.loop_count),
            },
            settings,
            always_on_top: c.always_on_top,
            console: lines,
            autoscroll: true,
            recorder: Recorder::new(now),
            dialogs: Dialogs {
                settings: false,
                playback: false,
                editor: false,
                context: false,
                capturing: None,
            },
            editor_events: Vec::new(),
            top_initialized: false,
        }
    }

    /// Adds a line to the console.
    pub fn log(&mut self, message: &str, warning: bool, secs: u64)
        ensures
            final(self)@ == logged(old(self)@, secs, message@, warning),
    {
        self.console.add_line(console::line_of(secs, message, warning));
        self.autoscroll = true;
    }

    fn log_all(&mut self, words: &str, messages: &Vec<String>, warning: bool, secs: u64)
        ensures
            final(self)@ == all_logged(
                old(self)@,
                secs,
                words@,
                text::views(messages@),
                warning,
            ),
    {
        let ghost all = text::views(messages@);
        let mut i: usize = 0;
        proof {
            assert(all.take(0) =~= Seq::<Seq<char>>::empty());
        }
        while i < messages.len()
            invariant
                i <= messages.len(),
                all == text::views(messages@),
                self@ == all_logged(old(self)@, secs, words@, all.take(i as int), warning),
            decreases messages.len() - i,
        {
            let mut s: String = words.to_owned();
            s.append(messages[i].as_str());
            self.log(s.as_str(), warning, secs);
            proof {
                assert(all.take(i + 1).drop_last() =~= all.take(i as int));
                assert(all.take(i + 1).last() == messages@[i as int]@);
            }
            i = i + 1;
        }
        proof {
            assert(all.take(i as int) =~= all);
        }
    }

    /// The number of loops as it is shown.
    pub fn format_total(&self) -> (r: String)
        ensures
            r@ == total_text(self@.transport.total_loops),
    {
        match self.transport.total_loops {
            None => "∞".to_owned(),
            Some(n) => number_text(n),
        }
    }

    /// The loops that were played, in words.
    pub fn format_loop_text(&self) -> (r: String)
        ensures
            r@ == loop_text(self@.transport),
    {
        let mut s: String = number_text(self.transport.current_loop);
        match self.transport.total_loops {
            None => s.append(" infinite loop(s)"),
            Some(n) => {
                s.append("/");
                push_dec_nat(&mut s, n as u64);
                s.append(" loops");
            },
        }
        s
    }
}

// ---------------------------------------------------------------------------
// Recording and playback
// ---------------------------------------------------------------------------

/// A window that has taken the samples that came in while it records.
pub open spec fn drained(v: MainView, samples: Seq<(CapturedEvent, u64)>) -> MainView {
    if v.transport.recording {
        MainView { recorder: recorder::run(v.recorder, samples), ..v }
    } else {
        v
    }
}

/// A window whose recording has ended: the recorded events are its macro, which no file holds
/// yet.
pub open spec fn recording_stopped(
    v: MainView,
    samples: Seq<(CapturedEvent, u64)>,
    secs: u64,
) -> MainView {
    let d = drained(v, samples);
    let events = d.recorder.events;
    if !v.transport.recording {
        v
    } else {
        logged(
            MainView {
                macro_data: Some(with_settings(model::plain_macro(events), v.settings)),
                open_path: None,
                transport: Transport { recording: false, ..v.transport },
                recorder: recorder::emptied(d.recorder),
                ..v
            },
            secs,
            text::dec_nat(events.len()) + " event(s) recorded."@,
            false,
        )
    }
}

/// A window whose playback was stopped.
pub open spec fn playback_stopped(v: MainView) -> MainView {
    MainView { transport: Transport { playing: false, paused: false, ..v.transport }, ..v }
}

/// A window after everything was stopped, and the command for it.
pub open spec fn all_stopped(v: MainView, samples: Seq<(CapturedEvent, u64)>, secs: u64) -> (
    MainView,
    Command,
) {
    if v.transport.recording {
        (recording_stopped(v, samples, secs), Command::RemoveHooks)
    } else if v.transport.playing {
        (logged(playback_stopped(v), secs, "Stopped."@, false), Command::StopPlayer)
    } else {
        (logged(v, secs, "Idle."@, false), Command::Nothing)
    }
}

/// A window that is about to record, and the command for it. A playback is stopped first.
pub open spec fn record_begun(v: MainView, secs: u64, now: u64) -> (MainView, Command) {
    if v.transport.recording {
        (v, Command::Nothing)
    } else if v.transport.playing {
        let w = logged(playback_stopped(v), secs, "Stopped."@, false);
        (
            MainView {
                recorder: recorder::fresh(recorder::combos_of(Some(v.bindings)), now as nat),
                ..w
            },
            Command::StopPlayerAndInstallHooks,
        )
    } else {
        (
            MainView {
                recorder: recorder::fresh(recorder::combos_of(Some(v.bindings)), now as nat),
                ..v
            },
            Command::InstallHooks,
        )
    }
}

/// A window that was told how installing the hooks went.
pub open spec fn hooks_answered(v: MainView, error: Option<Seq<char>>, secs: u64) -> MainView {
    match error {
        None => logged(
            MainView {
                transport: Transport { recording: true, ..v.transport },
                macro_data: None,
                open_path: None,
                ..v
            },
            secs,
            "Recording…"@,
            false,
        ),
        Some(e) => logged(v, secs, "Could not install hooks: "@ + e, true),
    }
}

/// A window that is about to play its macro, and the command for it. A recording is stopped
/// instead.
pub open spec fn playback_begun(v: MainView, samples: Seq<(CapturedEvent, u64)>, secs: u64) -> (
    MainView,
    Command,
) {
    if v.transport.recording {
        all_stopped(v, samples, secs)
    } else {
        match v.macro_data {
            None => (
                logged(v, secs, "Nothing to play yet — record or open a macro."@, true),
                Command::Nothing,
            ),
            Some(d) => if d.events.len() == 0 {
                (
                    logged(v, secs, "Nothing to play yet — macro is empty."@, true),
                    Command::Nothing,
                )
            } else {
                let total_loops = loops_of(v.settings.infinite, v.settings.loop_count);
                (
                    logged(
                        MainView {
                            macro_data: Some(with_settings(d, v.settings)),
                            transport: Transport {
                                playing: true,
                                paused: false,
                                current_loop: 0,
                                total_loops,
                                ..v.transport
                            },
                            ..v
                        },
                        secs,
                        "Playing… (loop 1/"@ + total_text(total_loops) + ")"@,
                        false,
                    ),
                    Command::Play,
                )
            },
        }
    }
}

/// A window whose playback was paused, let go on, or begun, and the command for it.
pub open spec fn play_toggled(v: MainView, samples: Seq<(CapturedEvent, u64)>, secs: u64) -> (
    MainView,
    Command,
) {
    if v.transport.playing && v.transport.paused {
        (
            logged(
                MainView { transport: Transport { paused: false, ..v.transport }, ..v },
                secs,
                "Resumed"@ + loop_of_text(v.transport),
                false,
            ),
            Command::ResumePlayer,
        )
    } else if v.transport.playing {
        (
            logged(
                MainView { transport: Transport { paused: true, ..v.transport }, ..v },
                secs,
                "Paused"@ + loop_of_text(v.transport),
                false,
            ),
            Command::PausePlayer,
        )
    } else {
        playback_begun(v, samples, secs)
    }
}

/// A window whose recording was stopped or is about to begin, and the command for it.
pub open spec fn record_toggled(
    v: MainView,
    samples: Seq<(CapturedEvent, u64)>,
    secs: u64,
    now: u64,
) -> (MainView, Command) {
    if v.transport.recording {
        (recording_stopped(v, samples, secs), Command::RemoveHooks)
    } else {
        record_begun(v, secs, now)
    }
}

/// A window after a global hotkey, and the command for it.
pub open spec fn hotkey_handled(
    v: MainView,
    id: HotkeyId,
    samples: Seq<(CapturedEvent, u64)>,
    secs: u64,
    now: u64,
) -> (MainView, Command) {
    match id {
        HotkeyId::Record => record_toggled(v, samples, secs, now),
        HotkeyId::Play => play_toggled(v, samples, secs),
        HotkeyId::Stop => all_stopped(v, samples, secs),
        HotkeyId::Static => (v, Command::Nothing),
    }
}

/// A window after a report of its playback.
pub open spec fn player_reported(v: MainView, msg: PlayerMsg, secs: u64) -> MainView {
    match msg {
        PlayerMsg::LoopStarted { current, total } => MainView {
            transport: Transport { current_loop: current, total_loops: total, ..v.transport },
            ..v
        },
        PlayerMsg::Completed(completed) => logged(
            playback_stopped(v),
            secs,
            if completed {
                "Playback finished ("@ + loop_text(v.transport) + ")"@
            } else {
                "Playback stopped."@
            },
            false,
        ),
        PlayerMsg::PauseChanged(paused) => MainView {
            transport: Transport { paused, ..v.transport },
            ..v
        },
    }
}

/// A window after several reports of its playback.
pub open spec fn player_polled(v: MainView, msgs: Seq<PlayerMsg>, secs: u64) -> MainView
    decreases msgs.len(),
{
    if msgs.len() == 0 {
        v
    } else {
        player_reported(player_polled(v, msgs.drop_last(), secs), msgs.last(), secs)
    }
}

/// A window that is left for another: nothing runs, and no dialog is open.
pub open spec fn left(v: MainView, samples: Seq<(CapturedEvent, u64)>, secs: u64) -> MainView {
    let w = recording_stopped(v, samples, secs);
    MainView {
        dialogs: Dialogs {
            settings: false,
            playback: false,
            editor: false,
            context: false,
            capturing: None,
        },
        ..if w.transport.playing {
            playback_stopped(w)
        } else {
            w
        }
    }
}

/// A window after an emergency stop: nothing runs, and what was being recorded is dropped.
pub open spec fn emergency_stopped(v: MainView, secs: u64) -> MainView {
    let w = if v.transport.playing {
        playback_stopped(v)
    } else {
        v
    };
    logged(
        if v.transport.recording {
            MainView {
                transport: Transport { recording: false, ..w.transport },
                recorder: recorder::emptied(w.recorder),
                ..w
            }
        } else {
            w
        },
        secs,
        "⚠ Emergency stop triggered"@,
        true,
    )
}

impl MainWindow {
    /// Takes the samples that came in while the window records.
    pub fn drain_hooks(&mut self, samples: &Vec<(CapturedEvent, u64)>)
        ensures
            final(self)@ == drained(old(self)@, samples@),
    {
        if self.transport.recording {
            self.recorder.drain_receiver(samples);
        }
    }

    /// Ends the recording, with the samples that came in last.
    pub fn stop_recording(&mut self, samples: &Vec<(CapturedEvent, u64)>, secs: u64)
        ensures
            final(self)@ == recording_stopped(old(self)@, samples@, secs),
    {
        if !self.transport.recording {
            return;
        }
        self.drain_hooks(samples);
        let events: Vec<MacroEvent> = self.recorder.take_events();
        let count: usize = events.len();
        let mut data: MacroData = MacroData::of_events(events);
        put_settings(&mut data, &self.settings);
        self.macro_data = Some(data);
        self.transport.recording = false;
        self.open_path = None;
        let mut s: String = number_text(count);
        s.append(" event(s) recorded.");
        self.log(s.as_str(), false, secs);
    }

    /// Stops what runs.
    pub fn stop_all(&mut self, samples: &Vec<(CapturedEvent, u64)>, secs: u64) -> (r: Command)
        ensures
            (final(self)@, r) == all_stopped(old(self)@, samples@, secs),
    {
        if self.transport.recording {
            self.stop_recording(samples, secs);
            return Command::RemoveHooks;
        }
        if self.transport.playing {
            self.transport.playing = false;
            self.transport.paused = false;
            self.log("Stopped.", false, secs);
            return Command::StopPlayer;
        }
        self.log("Idle.", false, secs);
        Command::Nothing
    }

    /// Gets ready to record.
    pub fn start_recording(&mut self, secs: u64, now: u64) -> (r: Command)
        requires
            sound(old(self)@),
        ensures
            (final(self)@, r) == record_begun(old(self)@, secs, now),
    {
        if self.transport.recording {
            return Command::Nothing;
        }
        let mut command: Command = Command::InstallHooks;
        if self.transport.playing {
            self.transport.playing = false;
            self.transport.paused = false;
            self.log("Stopped.", false, secs);
            command = Command::StopPlayerAndInstallHooks;
        }
        self.recorder.reset(Some(&self.bindings), now);
        command
    }

    /// Takes the answer to the request to install the hooks: the reason why they could not
    /// be, if there is one. Else the recording begins.
    pub fn hooks_installed(&mut self, error: Option<String>, secs: u64)
        ensures
            final(self)@ == hooks_answered(old(self)@, model::opt_text(error), secs),
    {
        match error {
            None => {
                self.transport.recording = true;
                self.macro_data = None;
                self.open_path = None;
                self.log("Recording…", false, secs);
            },
            Some(e) => {
                let mut s: String = "Could not install hooks: ".to_owned();
                s.append(e.as_str());
                self.log(s.as_str(), true, secs);
            },
        }
    }

    /// Begins or ends a recording.
    pub fn toggle_record(&mut self, samples: &Vec<(CapturedEvent, u64)>, secs: u64, now: u64) -> (r:
        Command)
        requires
            sound(old(self)@),
        ensures
            (final(self)@, r) == record_toggled(old(self)@, samples@, secs, now),
    {
        if self.transport.recording {
            self.stop_recording(samples, secs);
            Command::RemoveHooks
        } else {
            self.start_recording(secs, now)
        }
    }

    fn loop_of(&self, word: &str) -> (r: String)
        ensures
            r@ == word@ + loop_of_text(self@.transport),
    {
        let mut s: String = word.to_owned();
        s.append(" (loop ");
        push_dec_nat(&mut s, self.transport.current_loop as u64);
        s.append("/");
        s.append(self.format_total().as_str());
        s.append(")");
        proof {
            assert(s@ =~= word@ + loop_of_text(self@.transport));
        }
        s
    }

    /// Begins to play the macro.
    pub fn start_playback(&mut self, samples: &Vec<(CapturedEvent, u64)>, secs: u64) -> (r: Command)
        ensures
            (final(self)@, r) == playback_begun(old(self)@, samples@, secs),
    {
        if self.transport.recording {
            return self.stop_all(samples, secs);
        }
        let mut data: MacroData = match &self.macro_data {
            None => {
                self.log("Nothing to play yet — record or open a macro.", true, secs);
                return Command::Nothing;
            },
            Some(data) => data.clone(),
        };
        if data.events.len() == 0 {
            self.log("Nothing to play yet — macro is empty.", true, secs);
            return Command::Nothing;
        }
        put_settings(&mut data, &self.settings);
        self.macro_data = Some(data);
        self.transport.current_loop = 0;
        self.transport.total_loops = total_of(self.settings.infinite, self.settings.loop_count);
        self.transport.playing = true;
        self.transport.paused = false;
        let mut s: String = "Playing… (loop 1/".to_owned();
        s.append(self.format_total().as_str());
        s.append(")");
        self.log(s.as_str(), false, secs);
        Command::Play
    }

    /// Pauses the playback, lets it go on, or begins one.
    pub fn toggle_play_pause(&mut self, samples: &Vec<(CapturedEvent, u64)>, secs: u64) -> (r:
        Command)
        ensures
            (final(self)@, r) == play_toggled(old(self)@, samples@, secs),
    {
        if self.transport.playing && self.transport.paused {
            let s: String = self.loop_of("Resumed");
            self.transport.paused = false;
            self.log(s.as_str(), false, secs);
            Command::ResumePlayer
        } else if self.transport.playing {
            let s: String = self.loop_of("Paused");
            self.transport.paused = true;
            self.log(s.as_str(), false, secs);
            Command::PausePlayer
        } else {
            self.start_playback(samples, secs)
        }
    }

    /// Handles a global hotkey.
    pub fn handle_hotkey(
        &mut self,
        id: HotkeyId,
        samples: &Vec<(CapturedEvent, u64)>,
        secs: u64,
        now: u64,
    ) -> (r: Command)
        requires
            sound(old(self)@),
        ensures
            (final(self)@, r) == hotkey_handled(old(self)@, id, samples@, secs, now),
    {
        match id {
            HotkeyId::Record => self.toggle_record(samples, secs, now),
            HotkeyId::Play => self.toggle_play_pause(samples, secs),
            HotkeyId::Stop => self.stop_all(samples, secs),
            HotkeyId::Static => Command::Nothing,
        }
    }

    fn player_report(&mut self, msg: PlayerMsg, secs: u64)
        ensures
            final(self)@ == player_reported(old(self)@, msg, secs),
    {
        match msg {
            PlayerMsg::LoopStarted { current, total } => {
                self.transport.current_loop = current;
                self.transport.total_loops = total;
            },
            PlayerMsg::Completed(completed) => {
                self.transport.playing = false;
                self.transport.paused = false;
                if completed {
                    let mut s: String = "Playback finished (".to_owned();
                    s.append(self.format_loop_text().as_str());
                    s.append(")");
                    self.log(s.as_str(), false, secs);
                } else {
                    self.log("Playback stopped.", false, secs);
                }
            },
            PlayerMsg::PauseChanged(paused) => {
                self.transport.paused = paused;
            },
        }
    }

    /// Takes the reports of the playback that have come in.
    pub fn poll_player(&mut self, msgs: &Vec<PlayerMsg>, secs: u64)
        ensures
            final(self)@ == player_polled(old(self)@, msgs@, secs),
    {
        let mut i: usize = 0;
        proof {
            assert(msgs@.take(0) =~= Seq::<PlayerMsg>::empty());
        }
        while i < msgs.len()
            invariant
                i <= msgs.len(),
                self@ == player_polled(old(self)@, msgs@.take(i as int), secs),
            decreases msgs.len() - i,
        {
            self.player_report(msgs[i], secs);
            proof {
                assert(msgs@.take(i + 1).drop_last() =~= msgs@.take(i as int));
            }
            i = i + 1;
        }
        proof {
            assert(msgs@.take(i as int) =~= msgs@);
        }
    }

    /// Leaves the window for another. Returns whether the playback is to be stopped.
    pub fn on_leave(&mut self, samples: &Vec<(CapturedEvent, u64)>, secs: u64) -> (r: bool)
        ensures
            final(self)@ == left(old(self)@, samples@, secs),
            r == old(self)@.transport.playing,
    {
        self.stop_recording(samples, secs);
        let playing: bool = self.transport.playing;
        if playing {
            self.transport.playing = false;
            self.transport.paused = false;
        }
        self.dialogs = Dialogs {
            settings: false,
            playback: false,
            editor: false,
            context: false,
            capturing: None,
        };
        playing
    }

    /// Stops everything at once. Returns whether the playback is to be stopped.
    pub fn emergency_stop(&mut self, secs: u64) -> (r: bool)
        ensures
            final(self)@ == emergency_stopped(old(self)@, secs),
            r == old(self)@.transport.playing,
    {
        let playing: bool = self.transport.playing;
        if playing {
            self.transport.playing = false;
            self.transport.paused = false;
        }
        if self.transport.recording {
            self.transport.recording = false;
            let _dropped: Vec<MacroEvent> = self.recorder.take_events();
        }
        self.log("⚠ Emergency stop triggered", true, secs);
        playing
    }
}

/// The window never records and plays at once: nothing that it does changes that.
pub proof fn law_never_records_and_plays(
    v: MainView,
    id: HotkeyId,
    error: Option<Seq<char>>,
    msg: PlayerMsg,
    samples: Seq<(CapturedEvent, u64)>,
    secs: u64,
    now: u64,
)
    requires
        sound(v),
    ensures
        sound(hotkey_handled(v, id, samples, secs, now).0),
        sound(hooks_answered(record_toggled(v, samples, secs, now).0, error, secs)),
        sound(player_reported(v, msg, secs)),
        sound(left(v, samples, secs)),
        sound(emergency_stopped(v, secs)),
{
}

/// Once the window is left or an emergency stop came, nothing runs any more.
pub proof fn law_leaving_stops_everything(
    v: MainView,
    samples: Seq<(CapturedEvent, u64)>,
    secs: u64,
)
    ensures
        !left(v, samples, secs).transport.recording,
        !left(v, samples, secs).transport.playing,
        !emergency_stopped(v, secs).transport.recording,
        !emergency_stopped(v, secs).transport.playing,
{
}

/// An emergency stop keeps the macro of the window and drops what was being recorded.
pub proof fn law_emergency_stop_keeps_the_macro(v: MainView, secs: u64)
    ensures
        emergency_stopped(v, secs).macro_data == v.macro_data,
        v.transport.recording ==> emergency_stopped(v, secs).recorder.events == Seq::<
            MacroEvent,
        >::empty(),
{
}

/// Pausing and going on again leaves the playback as it was.
pub proof fn law_pause_twice_is_no_pause(
    v: MainView,
    samples: Seq<(CapturedEvent, u64)>,
    secs: u64,
)
    requires
        v.transport.playing,
    ensures
        play_toggled(play_toggled(v, samples, secs).0, samples, secs).0.transport == v.transport,
{
}

// ---------------------------------------------------------------------------
// Files
// ---------------------------------------------------------------------------

/// Whether the window has a macro with events.
pub open spec fn has_events(v: MainView) -> bool {
    match v.macro_data {
        Some(d) => d.events.len() > 0,
        None => false,
    }
}

/// A window after a macro was saved or could not be.
pub open spec fn save_answered(
    v: MainView,
    d: model::MacroView,
    path: Seq<char>,
    error: Option<Seq<char>>,
    secs: u64,
) -> MainView {
    match error {
        None => logged(
            MainView { open_path: Some(path), macro_data: Some(d), ..v },
            secs,
            "Saved "@ + text::dec_nat(d.events.len()) + " event(s) → "@ + path,
            false,
        ),
        Some(e) => logged(v, secs, "Could not save: "@ + e, true),
    }
}

/// A window that has taken over the settings of a macro.
pub open spec fn synced_from(v: MainView, d: model::MacroView) -> MainView {
    let s = settings_from(d.speed, d.loop_count, d.infinite_loop, d.interval_ms);
    MainView {
        settings: s,
        transport: Transport {
            total_loops: loops_of(s.infinite, s.loop_count),
            ..v.transport
        },
        ..v
    }
}

/// A window after a macro was opened or could not be.
pub open spec fn open_answered(
    v: MainView,
    result: Result<model::MacroView, Seq<char>>,
    path: Seq<char>,
    secs: u64,
) -> MainView {
    match result {
        Ok(d) => logged(
            MainView { macro_data: Some(d), open_path: Some(path), ..synced_from(v, d) },
            secs,
            "Loaded "@ + text::dec_nat(d.events.len()) + " event(s) from "@ + path,
            false,
        ),
        Err(e) => logged(v, secs, "Open failed: "@ + e, true),
    }
}

/// What was opened, or why nothing could be.
pub open spec fn opened_view(result: Result<MacroData, String>) -> Result<
    model::MacroView,
    Seq<char>,
> {
    match result {
        Ok(d) => Ok(d@),
        Err(e) => Err(e@),
    }
}

/// The note that making programs out of macros is still to come.
pub open spec fn compile_note() -> Seq<char> {
    "Compile-to-EXE for Rust is not yet implemented (stub). Save .ttx and use cargo build template; will be wired next."@
}

impl MainWindow {
    /// The macro with the settings of the window, to be saved. Without a macro, nothing is.
    pub fn do_save(&mut self, secs: u64) -> (r: Option<MacroData>)
        ensures
            match old(self)@.macro_data {
                Some(d) => opt_macro(r) == Some(with_settings(d, old(self)@.settings))
                    && final(self)@ == old(self)@,
                None => r is None && final(self)@ == logged(
                    old(self)@,
                    secs,
                    "Nothing to save yet."@,
                    true,
                ),
            },
    {
        let mut data: MacroData = match &self.macro_data {
            None => {
                self.log("Nothing to save yet.", true, secs);
                return None;
            },
            Some(data) => data.clone(),
        };
        put_settings(&mut data, &self.settings);
        Some(data)
    }

    /// Takes the answer to the request to save a macro: the reason why it could not be, if
    /// there is one. Returns whether the configuration, which notes the file, is to be stored.
    pub fn saved(
        &mut self,
        data: MacroData,
        path: String,
        error: Option<String>,
        secs: u64,
        c: &mut AppConfig,
    ) -> (store: bool)
        ensures
            store == (error is None),
            notes_file(store, path@, *old(c), *final(c)),
            final(self)@ == save_answered(
                old(self)@,
                data@,
                path@,
                model::opt_text(error),
                secs,
            ),
    {
        match error {
            None => {
                let mut s: String = "Saved ".to_owned();
                push_dec_nat(&mut s, data.events.len() as u64);
                s.append(" event(s) → ");
                s.append(path.as_str());
                c.store_last_file(path.as_str().to_owned());
                self.open_path = Some(path);
                self.macro_data = Some(data);
                self.log(s.as_str(), false, secs);
                true
            },
            Some(e) => {
                let mut s: String = "Could not save: ".to_owned();
                s.append(e.as_str());
                self.log(s.as_str(), true, secs);
                false
            },
        }
    }

    /// Whether a macro can be opened: not while one is recorded or played.
    pub fn do_open(&mut self, secs: u64) -> (r: bool)
        ensures
            r == !(old(self)@.transport.recording || old(self)@.transport.playing),
            final(self)@ == (if r {
                old(self)@
            } else {
                logged(old(self)@, secs, "Cannot open while recording/playing."@, true)
            }),
    {
        if self.transport.recording || self.transport.playing {
            self.log("Cannot open while recording/playing.", true, secs);
            return false;
        }
        true
    }

    /// Takes over the settings of a macro.
    pub fn sync_from_macro(&mut self, data: &MacroData)
        ensures
            final(self)@ == synced_from(old(self)@, data@),
    {
        self.settings = take_settings(
            data.speed,
            data.loop_count,
            data.infinite_loop,
            data.interval_ms,
        );
        self.transport.total_loops = total_of(self.settings.infinite, self.settings.loop_count);
    }

    /// Takes the answer to the request to open a macro. Returns whether the configuration,
    /// which notes the file, is to be stored.
    pub fn opened(
        &mut self,
        result: Result<MacroData, String>,
        path: String,
        secs: u64,
        c: &mut AppConfig,
    ) -> (store: bool)
        ensures
            store == (result is Ok),
            notes_file(store, path@, *old(c), *final(c)),
            final(self)@ == open_answered(old(self)@, opened_view(result), path@, secs),
    {
        match result {
            Ok(data) => {
                self.sync_from_macro(&data);
                let mut s: String = "Loaded ".to_owned();
                push_dec_nat(&mut s, data.events.len() as u64);
                s.append(" event(s) from ");
                s.append(path.as_str());
                c.store_last_file(path.as_str().to_owned());
                self.macro_data = Some(data);
                self.open_path = Some(path);
                self.log(s.as_str(), false, secs);
                true
            },
            Err(e) => {
                let mut s: String = "Open failed: ".to_owned();
                s.append(e.as_str());
                self.log(s.as_str(), true, secs);
                false
            },
        }
    }

    /// The macro with the settings of the window, to be made into a program. Without events,
    /// nothing is.
    pub fn do_compile(&mut self, secs: u64) -> (r: Option<MacroData>)
        ensures
            if has_events(old(self)@) {
                opt_macro(r) == Some(
                    with_settings(old(self)@.macro_data->Some_0, old(self)@.settings),
                ) && final(self)@ == old(self)@
            } else {
                r is None && final(self)@ == logged(
                    old(self)@,
                    secs,
                    "Nothing to compile yet."@,
                    true,
                )
            },
    {
        let mut data: MacroData = match &self.macro_data {
            None => {
                self.log("Nothing to compile yet.", true, secs);
                return None;
            },
            Some(data) => data.clone(),
        };
        if data.events.len() == 0 {
            self.log("Nothing to compile yet.", true, secs);
            return None;
        }
        put_settings(&mut data, &self.settings);
        Some(data)
    }

    /// Takes the answer to the request to save the macro that is to be made into a program.
    /// Returns whether it was saved.
    pub fn compile_saved(&mut self, path: String, error: Option<String>, secs: u64) -> (r: bool)
        ensures
            r == (error is None),
            final(self)@ == (match model::opt_text(error) {
                None => MainView { open_path: Some(path@), ..old(self)@ },
                Some(e) => logged(
                    old(self)@,
                    secs,
                    "Could not write temp macro: "@ + e,
                    true,
                ),
            }),
    {
        match error {
            None => {
                self.open_path = Some(path);
                true
            },
            Some(e) => {
                let mut s: String = "Could not write temp macro: ".to_owned();
                s.append(e.as_str());
                self.log(s.as_str(), true, secs);
                false
            },
        }
    }

    /// Notes that a macro is to be made into a program.
    pub fn compile_requested(&mut self, macro_path: &str, out_path: &str, secs: u64)
        ensures
            final(self)@ == logged(
                logged(
                    old(self)@,
                    secs,
                    "Compile requested: macro="@ + macro_path@ + " → exe="@ + out_path@,
                    false,
                ),
                secs,
                compile_note(),
                true,
            ),
    {
        let mut s: String = "Compile requested: macro=".to_owned();
        s.append(macro_path);
        s.append(" → exe=");
        s.append(out_path);
        self.log(s.as_str(), false, secs);
        self.log(
            "Compile-to-EXE for Rust is not yet implemented (stub). Save .ttx and use cargo build template; will be wired next.",
            true,
            secs,
        );
    }
}

/// The name that is proposed for a program, after the file of its macro.
pub fn program_name(stem: Option<&str>) -> (r: String)
    ensures
        r@ == (match stem {
            Some(name) => name@,
            None => "macro"@,
        }) + ".exe"@,
{
    let mut s: String = match stem {
        Some(name) => name.to_owned(),
        None => "macro".to_owned(),
    };
    s.append(".exe");
    s
}

/// What was saved is what the window goes on with, and opening it gives back its events and,
/// within their bounds, its settings.
pub proof fn law_saved_macro_opens_again(v: MainView, d: model::MacroView, path: Seq<char>, secs: u64)
    requires
        v.macro_data == Some(d),
    ensures
        ({
            let data = with_settings(d, v.settings);
            let after = save_answered(v, data, path, None, secs);
            let again = open_answered(after, Ok(data), path, secs);
            &&& after.macro_data == Some(data)
            &&& after.open_path == Some(path)
            &&& again.macro_data == Some(data)
            &&& again.macro_data->Some_0.events == d.events
            &&& again.settings.speed == v.settings.speed.spec_clamp(
                Double { bits: QUARTER_BITS },
                Double { bits: TEN_BITS },
            )
            &&& again.settings.loop_count == model::clamp(v.settings.loop_count as int, 1, 9999)
            &&& again.settings.infinite == v.settings.infinite
            &&& interval::spec_compose(again.settings.interval_value, again.settings.interval_unit)
                == interval::spec_compose(v.settings.interval_value, v.settings.interval_unit)
        }),
{
    let data = with_settings(d, v.settings);
    interval::law_compose_undoes_split(data.interval_ms);
}

/// What is put into the configuration opens again: the bindings, whether the window stays on
/// top, and, within their bounds, the settings.
pub proof fn law_kept_settings_open_again(
    v: MainView,
    before: AppConfig,
    after: AppConfig,
    hotkeys: bool,
    secs: u64,
    now: u64,
)
    requires
        keeps(v, before, after),
    ensures
        ({
            let again = opened_with(after, hotkeys, secs, now);
            &&& again.bindings == v.bindings
            &&& again.always_on_top == v.always_on_top
            &&& again.settings.speed == v.settings.speed.spec_clamp(
                Double { bits: QUARTER_BITS },
                Double { bits: TEN_BITS },
            )
            &&& again.settings.loop_count == model::clamp(v.settings.loop_count as int, 1, 9999)
            &&& again.settings.infinite == v.settings.infinite
            &&& interval::spec_compose(again.settings.interval_value, again.settings.interval_unit)
                == interval::spec_compose(v.settings.interval_value, v.settings.interval_unit)
        }),
{
    crate::config::law_bindings_survive_storing(v.bindings);
    interval::law_compose_undoes_split(after.interval_ms);
}

// ---------------------------------------------------------------------------
// The editor
// ---------------------------------------------------------------------------

/// A list with two neighbours changed about.
pub open spec fn swapped(list: Seq<MacroEvent>, i: int, j: int) -> Seq<MacroEvent> {
    list.update(i, list[j]).update(j, list[i])
}

/// A row of the editor: its number, the event, and its delay.
pub open spec fn editor_row_text(i: nat, e: MacroEvent) -> Seq<char> {
    text::pad_start(text::dec_nat(i), 3) + ": "@ + e.spec_description() + "  ["@ + text::dec(
        e.delay_ms as int,
    ) + "ms]"@
}

/// A window that has taken over what was edited. No file holds it yet.
pub open spec fn edit_applied(v: MainView, secs: u64) -> MainView {
    logged(
        MainView {
            macro_data: match v.macro_data {
                Some(d) => Some(model::MacroView { events: v.editor, ..d }),
                None => None,
            },
            open_path: None,
            dialogs: Dialogs { editor: false, ..v.dialogs },
            ..v
        },
        secs,
        "Edited macro — "@ + text::dec_nat(v.editor.len()) + " event(s)."@,
        false,
    )
}

impl MainWindow {
    /// Opens the editor on the events of the macro, if it has any.
    pub fn do_edit(&mut self, secs: u64)
        ensures
            final(self)@ == (if has_events(old(self)@) {
                MainView {
                    editor: old(self)@.macro_data->Some_0.events,
                    dialogs: Dialogs { editor: true, ..old(self)@.dialogs },
                    ..old(self)@
                }
            } else {
                logged(old(self)@, secs, "Nothing to edit yet."@, true)
            }),
    {
        let events: Vec<MacroEvent> = match &self.macro_data {
            None => {
                self.log("Nothing to edit yet.", true, secs);
                return;
            },
            Some(data) => copy_events(&data.events),
        };
        if events.len() == 0 {
            self.log("Nothing to edit yet.", true, secs);
            return;
        }
        self.editor_events = events;
        self.dialogs.editor = true;
    }

    /// The text of a row of the editor.
    pub fn editor_row(&self, i: usize) -> (r: String)
        requires
            i < self@.editor.len(),
        ensures
            r@ == editor_row_text(i as nat, self@.editor[i as int]),
    {
        let e: MacroEvent = self.editor_events[i];
        let mut s: String = "".to_owned();
        proof {
            reveal_strlit("");
        }
        text::push_pad_start(&mut s, number_text(i).as_str(), 3);
        s.append(": ");
        s.append(e.description().as_str());
        s.append("  [");
        push_dec(&mut s, e.delay_ms as i64);
        s.append("ms]");
        proof {
            assert(s@ =~= editor_row_text(i as nat, e));
        }
        s
    }

    /// Whether an event can go up a row.
    pub fn can_move_up(&self, i: usize) -> (r: bool)
        ensures
            r == (0 < i < self@.editor.len()),
    {
        0 < i && i < self.editor_events.len()
    }

    /// Whether an event can go down a row.
    pub fn can_move_down(&self, i: usize) -> (r: bool)
        ensures
            r == (i + 1 < self@.editor.len()),
    {
        self.editor_events.len() > 0 && i < self.editor_events.len() - 1
    }

    /// Deletes an event in the editor.
    pub fn editor_delete(&mut self, i: usize)
        requires
            i < old(self)@.editor.len(),
        ensures
            final(self)@ == (MainView { editor: old(self)@.editor.remove(i as int), ..old(self)@ }),
    {
        self.editor_events.remove(i);
    }

    fn editor_swap(&mut self, i: usize, j: usize)
        requires
            i < old(self)@.editor.len(),
            j < old(self)@.editor.len(),
            i != j,
        ensures
            final(self)@ == (MainView {
                editor: swapped(old(self)@.editor, i as int, j as int),
                ..old(self)@
            }),
    {
        let a: MacroEvent = self.editor_events[i];
        let b: MacroEvent = self.editor_events[j];
        self.editor_events.set(i, b);
        self.editor_events.set(j, a);
    }

    /// Moves an event in the editor up a row.
    pub fn editor_move_up(&mut self, i: usize)
        requires
            0 < i < old(self)@.editor.len(),
        ensures
            final(self)@ == (MainView {
                editor: swapped(old(self)@.editor, i as int, i - 1),
                ..old(self)@
            }),
    {
        self.editor_swap(i, i - 1);
    }

    /// Moves an event in the editor down a row.
    pub fn editor_move_down(&mut self, i: usize)
        requires
            i + 1 < old(self)@.editor.len(),
        ensures
            final(self)@ == (MainView {
                editor: swapped(old(self)@.editor, i as int, i + 1),
                ..old(self)@
            }),
    {
        let count: usize = self.editor_events.len();
        proof {
            assert(i < count);
        }
        self.editor_swap(i, i + 1);
    }

    /// Deletes all events in the editor.
    pub fn editor_clear(&mut self)
        ensures
            final(self)@ == (MainView { editor: Seq::empty(), ..old(self)@ }),
    {
        self.editor_events.clear();
    }

    /// Takes over what was edited.
    pub fn editor_apply(&mut self, secs: u64)
        ensures
            final(self)@ == edit_applied(old(self)@, secs),
    {
        let events: Vec<MacroEvent> = copy_events(&self.editor_events);
        let count: usize = events.len();
        if let Some(data) = &mut self.macro_data {
            data.events = events;
        }
        self.open_path = None;
        let mut s: String = "Edited macro — ".to_owned();
        push_dec_nat(&mut s, count as u64);
        s.append(" event(s).");
        self.dialogs.editor = false;
        self.log(s.as_str(), false, secs);
    }

    /// Closes the editor without taking over what was edited.
    pub fn editor_cancel(&mut self)
        ensures
            final(self)@ == (MainView {
                dialogs: Dialogs { editor: false, ..old(self)@.dialogs },
                ..old(self)@
            }),
    {
        self.dialogs.editor = false;
    }
}

/// Moving an event up undoes moving it down.
pub proof fn law_move_up_undoes_move_down(list: Seq<MacroEvent>, i: int)
    requires
        0 <= i < list.len() - 1,
    ensures
        swapped(swapped(list, i, i + 1), i + 1, i) == list,
{
    assert(swapped(swapped(list, i, i + 1), i + 1, i) =~= list);
}

/// Moving an event about keeps all events.
pub proof fn law_moving_keeps_the_events(list: Seq<MacroEvent>, i: int)
    requires
        0 <= i < list.len() - 1,
    ensures
        swapped(list, i, i + 1).to_multiset() =~= list.to_multiset(),
{
    let moved = swapped(list, i, i + 1);
    broadcast use vstd::seq_lib::group_to_multiset_ensures;

    assert(list =~= list.take(i) + seq![list[i], list[i + 1]] + list.skip(i + 2));
    assert(moved =~= list.take(i) + seq![list[i + 1], list[i]] + list.skip(i + 2));
    vstd::seq_lib::lemma_multiset_commutative(list.take(i), seq![list[i], list[i + 1]]);
    vstd::seq_lib::lemma_multiset_commutative(list.take(i), seq![list[i + 1], list[i]]);
    vstd::seq_lib::lemma_multiset_commutative(
        list.take(i) + seq![list[i], list[i + 1]],
        list.skip(i + 2),
    );
    vstd::seq_lib::lemma_multiset_commutative(
        list.take(i) + seq![list[i + 1], list[i]],
        list.skip(i + 2),
    );
    assert(seq![list[i], list[i + 1]] =~= seq![list[i]] + seq![list[i + 1]]);
    assert(seq![list[i + 1], list[i]] =~= seq![list[i + 1]] + seq![list[i]]);
    vstd::seq_lib::lemma_multiset_commutative(seq![list[i]], seq![list[i + 1]]);
}

/// Editing without a change gives back the macro.
pub proof fn law_unchanged_edit_keeps_the_macro(v: MainView, secs: u64)
    requires
        has_events(v),
    ensures
        edit_applied(
            (MainView { editor: v.macro_data->Some_0.events, ..v }),
            secs,
        ).macro_data == v.macro_data,
{
}

// ---------------------------------------------------------------------------
// Settings
// ---------------------------------------------------------------------------

/// A window whose macro has taken over the settings.
pub open spec fn synced_to(v: MainView) -> MainView {
    MainView {
        macro_data: match v.macro_data {
            Some(d) => Some(with_settings(d, v.settings)),
            None => None,
        },
        transport: Transport {
            total_loops: loops_of(v.settings.infinite, v.settings.loop_count),
            ..v.transport
        },
        ..v
    }
}

/// Bindings with another combination for an action.
pub open spec fn rebound(b: SettingsBindings, id: HotkeyId, combo: HotkeyCombo) -> SettingsBindings {
    match id {
        HotkeyId::Record => SettingsBindings { record: combo, ..b },
        HotkeyId::Play => SettingsBindings { play: combo, ..b },
        HotkeyId::Stop => SettingsBindings { stop: combo, ..b },
        HotkeyId::Static => SettingsBindings { static_clicker: combo, ..b },
    }
}

/// The warning that two actions have one combination. None where they do not.
pub open spec fn duplicate_of(b: SettingsBindings, one: HotkeyId, other: HotkeyId) -> Seq<
    Seq<char>,
> {
    let combo = one.bound_in(b);
    if combo.key != 0 && combo == other.bound_in(b) {
        seq![
            "Duplicate: "@ + one.spec_name() + " and "@ + other.spec_name() + " both "@
                + combo.spec_display(),
        ]
    } else {
        Seq::empty()
    }
}

/// The warnings that two actions of the window have one combination.
pub open spec fn duplicates_in(b: SettingsBindings) -> Seq<Seq<char>> {
    duplicate_of(b, HotkeyId::Record, HotkeyId::Play) + duplicate_of(
        b,
        HotkeyId::Record,
        HotkeyId::Stop,
    ) + duplicate_of(b, HotkeyId::Play, HotkeyId::Stop)
}

fn push_duplicate(list: &mut Vec<String>, b: &SettingsBindings, one: HotkeyId, other: HotkeyId)
    ensures
        text::views(final(list)@) == text::views(old(list)@) + duplicate_of(*b, one, other),
{
    let ghost before = list@;
    let combo: HotkeyCombo = one.combo(b);
    if combo.key != 0 && combo == other.combo(b) {
        let mut s: String = "Duplicate: ".to_owned();
        s.append(one.name());
        s.append(" and ");
        s.append(other.name());
        s.append(" both ");
        s.append(combo.display_owned().as_str());
        list.push(s);
    }
    proof {
        assert(text::views(list@) =~= text::views(before) + duplicate_of(*b, one, other));
    }
}

/// The label of a row of the hotkey settings.
pub fn hotkey_row_label(id: HotkeyId) -> (r: String)
    ensures
        r@ == text::pad_end(id.spec_name(), 6),
{
    let mut s: String = "".to_owned();
    proof {
        reveal_strlit("");
    }
    text::push_pad_end(&mut s, id.name(), 6);
    proof {
        assert(s@ =~= text::pad_end(id.spec_name(), 6));
    }
    s
}

impl MainWindow {
    /// Brings the macro and the number of loops in line with the settings.
    pub fn refresh_sync_to_macro(&mut self)
        ensures
            final(self)@ == synced_to(old(self)@),
    {
        if let Some(data) = &mut self.macro_data {
            put_settings(data, &self.settings);
        }
        self.transport.total_loops = total_of(self.settings.infinite, self.settings.loop_count);
    }

    /// Stores the settings of the window.
    pub fn persist_config(&self, c: &mut AppConfig)
        ensures
            keeps(self@, *old(c), *final(c)),
    {
        c.store_playback(
            self.settings.speed,
            self.settings.loop_count,
            self.settings.infinite,
            compose_interval_ms(self.settings.interval_value, self.settings.interval_unit),
            self.always_on_top,
            &self.bindings,
        );
    }

    /// Opens the playback options.
    pub fn do_playback_options(&mut self)
        ensures
            final(self)@ == (MainView {
                dialogs: Dialogs { playback: true, ..old(self)@.dialogs },
                ..old(self)@
            }),
    {
        self.dialogs.playback = true;
    }

    /// Closes the playback options. Where they are taken over, the settings of the window are
    /// put into the configuration. Returns whether that is to be stored.
    pub fn close_playback_options(&mut self, apply: bool, secs: u64, c: &mut AppConfig) -> (store:
        bool)
        ensures
            store == apply,
            if apply {
                keeps(old(self)@, *old(c), *final(c))
            } else {
                *final(c) == *old(c)
            },
            final(self)@ == ({
                let closed = MainView {
                    dialogs: Dialogs { playback: false, ..old(self)@.dialogs },
                    ..old(self)@
                };
                if apply {
                    logged(synced_to(closed), secs, "Playback options updated."@, false)
                } else {
                    closed
                }
            }),
    {
        self.dialogs.playback = false;
        if apply {
            self.persist_config(c);
            self.refresh_sync_to_macro();
            self.log("Playback options updated.", false, secs);
        }
        apply
    }

    /// Opens the hotkey settings.
    pub fn do_settings(&mut self)
        ensures
            final(self)@ == (MainView {
                dialogs: Dialogs { settings: true, ..old(self)@.dialogs },
                ..old(self)@
            }),
    {
        self.dialogs.settings = true;
    }

    /// Takes the bindings that are stored.
    pub fn reload_bindings(&mut self, stored: &HotkeyMap)
        ensures
            final(self)@ == (MainView {
                bindings: crate::config::bindings_of(stored@),
                ..old(self)@
            }),
    {
        self.bindings = SettingsBindings::from_map(Some(stored));
    }

    /// Settles which bindings hold as the hotkey settings are closed. Those of the window are
    /// put into the configuration where they are taken over, else the stored ones hold again.
    /// Returns whether the configuration is to be stored.
    pub fn settle_bindings(&mut self, apply: bool, c: &mut AppConfig) -> (store: bool)
        ensures
            store == apply,
            if apply {
                final(self)@ == old(self)@ && keeps(old(self)@, *old(c), *final(c))
            } else {
                *final(c) == *old(c) && final(self)@ == (MainView {
                    bindings: crate::config::bindings_of(old(c).hotkeys@),
                    ..old(self)@
                })
            },
    {
        if apply {
            self.persist_config(c);
        } else {
            self.reload_bindings(&c.hotkeys);
        }
        apply
    }

    /// Closes the hotkey settings. `failures` are those of registering the hotkeys: the new
    /// ones where they are taken over, else the ones before. Without global hotkeys there is
    /// nothing to report.
    pub fn close_settings(&mut self, apply: bool, failures: Option<Vec<String>>, secs: u64)
        ensures
            final(self)@ == ({
                let closed = MainView {
                    dialogs: Dialogs {
                        settings: false,
                        capturing: None,
                        ..old(self)@.dialogs
                    },
                    ..old(self)@
                };
                match failures {
                    None => closed,
                    Some(list) => if !apply {
                        all_logged(
                            closed,
                            secs,
                            "Hotkey resume warning: "@,
                            text::views(list@),
                            true,
                        )
                    } else if list@.len() == 0 {
                        logged(closed, secs, "Hotkeys updated."@, false)
                    } else {
                        all_logged(closed, secs, "Hotkey warning: "@, text::views(list@), true)
                    },
                }
            }),
    {
        self.dialogs.settings = false;
        self.dialogs.capturing = None;
        if let Some(list) = failures {
            if !apply {
                self.log_all("Hotkey resume warning: ", &list, true, secs);
            } else if list.len() == 0 {
                self.log("Hotkeys updated.", false, secs);
            } else {
                self.log_all("Hotkey warning: ", &list, true, secs);
            }
        }
    }

    /// Begins to catch the hotkey of an action.
    pub fn begin_capture(&mut self, id: HotkeyId)
        ensures
            final(self)@ == (MainView {
                dialogs: Dialogs { capturing: Some(id), ..old(self)@.dialogs },
                ..old(self)@
            }),
    {
        self.dialogs.capturing = Some(id);
    }

    fn rebind(&mut self, id: HotkeyId, combo: HotkeyCombo)
        ensures
            final(self)@ == (MainView {
                bindings: rebound(old(self)@.bindings, id, combo),
                ..old(self)@
            }),
    {
        match id {
            HotkeyId::Record => {
                self.bindings.record = combo;
            },
            HotkeyId::Play => {
                self.bindings.play = combo;
            },
            HotkeyId::Stop => {
                self.bindings.stop = combo;
            },
            HotkeyId::Static => {
                self.bindings.static_clicker = combo;
            },
        }
    }

    /// Takes the combination that was caught, if one is being caught and was.
    pub fn captured(&mut self, combo: Option<HotkeyCombo>)
        ensures
            final(self)@ == (match (old(self)@.dialogs.capturing, combo) {
                (Some(id), Some(c)) => MainView {
                    bindings: rebound(old(self)@.bindings, id, c),
                    dialogs: Dialogs { capturing: None, ..old(self)@.dialogs },
                    ..old(self)@
                },
                _ => old(self)@,
            }),
    {
        if let Some(id) = self.dialogs.capturing {
            if let Some(c) = combo {
                self.rebind(id, c);
                self.dialogs.capturing = None;
            }
        }
    }

    /// Takes the hotkey of an action away.
    pub fn clear_hotkey(&mut self, id: HotkeyId)
        ensures
            final(self)@ == (MainView {
                bindings: rebound(
                    old(self)@.bindings,
                    id,
                    HotkeyCombo { modifiers: 0, key: 0 },
                ),
                ..old(self)@
            }),
    {
        self.rebind(id, HotkeyCombo::none());
    }

    /// What the button of an action's hotkey shows.
    pub fn hotkey_button(&self, id: HotkeyId) -> (r: String)
        ensures
            r@ == (if self@.dialogs.capturing == Some(id) {
                "⌨ Capturing…"@
            } else {
                id.bound_in(self@.bindings).spec_display()
            }),
    {
        let catching: bool = match self.dialogs.capturing {
            Some(other) => other == id,
            None => false,
        };
        if catching {
            "⌨ Capturing…".to_owned()
        } else {
            id.combo(&self.bindings).display_owned()
        }
    }

    /// The warnings that two actions have one combination. While there are any, the settings
    /// cannot be taken over.
    pub fn duplicates(&self) -> (r: Vec<String>)
        ensures
            text::views(r@) == duplicates_in(self@.bindings),
    {
        let mut list: Vec<String> = Vec::new();
        push_duplicate(&mut list, &self.bindings, HotkeyId::Record, HotkeyId::Play);
        push_duplicate(&mut list, &self.bindings, HotkeyId::Record, HotkeyId::Stop);
        push_duplicate(&mut list, &self.bindings, HotkeyId::Play, HotkeyId::Stop);
        proof {
            assert(text::views(list@) =~= duplicates_in(self.bindings));
        }
        list
    }

    /// Keeps the window on top, or no longer does, and puts the settings of the window into
    /// the configuration.
    pub fn toggle_always_on_top(&mut self, secs: u64, c: &mut AppConfig)
        ensures
            keeps(final(self)@, *old(c), *final(c)),
            final(self)@ == logged(
                MainView { always_on_top: !old(self)@.always_on_top, ..old(self)@ },
                secs,
                if old(self)@.always_on_top {
                    "Always on top — off."@
                } else {
                    "Always on top — on."@
                },
                false,
            ),
    {
        self.always_on_top = !self.always_on_top;
        self.persist_config(c);
        if self.always_on_top {
            self.log("Always on top — on.", false, secs);
        } else {
            self.log("Always on top — off.", false, secs);
        }
    }

    /// Whether the window is to be put on top now: once, as it opens.
    pub fn take_top_request(&mut self) -> (r: bool)
        ensures
            r == (!old(self)@.top_initialized && old(self)@.always_on_top),
            final(self)@ == (MainView { top_initialized: true, ..old(self)@ }),
    {
        if self.top_initialized {
            return false;
        }
        self.top_initialized = true;
        self.always_on_top
    }

    /// Opens or closes the menu.
    pub fn set_context(&mut self, open: bool)
        ensures
            final(self)@ == (MainView {
                dialogs: Dialogs { context: open, ..old(self)@.dialogs },
                ..old(self)@
            }),
    {
        self.dialogs.context = open;
    }
}

/// Two actions of the window with one combination are always warned of, and nothing else is.
pub proof fn law_duplicates_are_seen(b: SettingsBindings)
    ensures
        duplicates_in(b).len() == 0 <==> !(b.record.key != 0 && (b.record == b.play || b.record
            == b.stop)) && !(b.play.key != 0 && b.play == b.stop),
{
}

// ---------------------------------------------------------------------------
// What is shown
// ---------------------------------------------------------------------------

/// What the status line says.
pub open spec fn status_text(v: MainView) -> Seq<char> {
    let t = v.transport;
    let pause = interval::spec_format(
        interval::spec_compose(v.settings.interval_value, v.settings.interval_unit),
    );
    if t.recording {
        "● Rec ("@ + text::dec_nat(v.recorder.events.len()) + " ev)"@
    } else if t.playing {
        (if t.paused {
            "⏸ "@
        } else {
            "▶ "@
        }) + text::dec_nat(t.current_loop as nat) + " / "@ + total_text(t.total_loops)
    } else {
        match v.macro_data {
            Some(d) => text::dec_nat(d.events.len()) + " ev • "@ + total_text(t.total_loops)
                + "× • "@ + pause,
            None => "Idle • "@ + pause,
        }
    }
}

/// What the menu and the toolbar offer.
#[derive(Debug, Clone, Copy, PartialEq, Eq, Structural)]
pub struct Offers {
    pub stop: bool,
    pub play: bool,
    pub save: bool,
    pub open: bool,
    pub compile: bool,
    pub edit: bool,
    pub playback_options: bool,
}

/// What the menu and the toolbar offer.
pub open spec fn offers_of(v: MainView) -> Offers {
    let t = v.transport;
    Offers {
        stop: t.recording || t.playing,
        play: !t.recording,
        save: !t.recording && has_events(v),
        open: !t.recording && !t.playing,
        compile: !t.recording && has_events(v),
        edit: !t.recording && has_events(v),
        playback_options: !t.recording,
    }
}

impl MainWindow {
    /// What the status line says.
    pub fn status(&self) -> (r: String)
        ensures
            r@ == status_text(self@),
    {
        let t: Transport = self.transport;
        if t.recording {
            let mut s: String = "● Rec (".to_owned();
            push_dec_nat(&mut s, self.recorder.event_count() as u64);
            s.append(" ev)");
            return s;
        }
        if t.playing {
            let mut s: String = if t.paused {
                "⏸ ".to_owned()
            } else {
                "▶ ".to_owned()
            };
            push_dec_nat(&mut s, t.current_loop as u64);
            s.append(" / ");
            s.append(self.format_total().as_str());
            return s;
        }
        let pause: String = format_interval(
            compose_interval_ms(self.settings.interval_value, self.settings.interval_unit),
        );
        match &self.macro_data {
            Some(data) => {
                let mut s: String = number_text(data.events.len());
                s.append(" ev • ");
                s.append(self.format_total().as_str());
                s.append("× • ");
                s.append(pause.as_str());
                s
            },
            None => {
                let mut s: String = "Idle • ".to_owned();
                s.append(pause.as_str());
                s
            },
        }
    }

    /// What the menu and the toolbar offer.
    pub fn offers(&self) -> (r: Offers)
        ensures
            r == offers_of(self@),
    {
        let t: Transport = self.transport;
        let events: bool = match &self.macro_data {
            Some(data) => data.events.len() > 0,
            None => false,
        };
        Offers {
            stop: t.recording || t.playing,
            play: !t.recording,
            save: !t.recording && events,
            open: !t.recording && !t.playing,
            compile: !t.recording && events,
            edit: !t.recording && events,
            playback_options: !t.recording,
        }
    }

    /// What the button that records shows.
    pub fn record_label(&self) -> (r: &'static str)
        ensures
            r@ == (if self@.transport.recording {
                "■ Stop"@
            } else {
                "● Record"@
            }),
    {
        if self.transport.recording {
            "■ Stop"
        } else {
            "● Record"
        }
    }

    /// What the button that plays shows.
    pub fn play_label(&self) -> (r: &'static str)
        ensures
            r@ == (if self@.transport.playing && !self@.transport.paused {
                "⏸ Pause"@
            } else {
                "▶ Play"@
            }),
    {
        if self.transport.playing && !self.transport.paused {
            "⏸ Pause"
        } else {
            "▶ Play"
        }
    }

    /// What the menu shows for keeping the window on top.
    pub fn top_label(&self) -> (r: &'static str)
        ensures
            r@ == (if self@.always_on_top {
                "☑ Always on top"@
            } else {
                "☐ Always on top"@
            }),
    {
        if self.always_on_top {
            "☑ Always on top"
        } else {
            "☐ Always on top"
        }
    }

    /// What is shown over a button: what it does, and its hotkey.
    pub fn hover_text(&self, word: &str, id: HotkeyId) -> (r: String)
        ensures
            r@ == word@ + " ("@ + id.bound_in(self@.bindings).spec_display() + ")"@,
    {
        let mut s: String = word.to_owned();
        s.append(" (");
        s.append(id.combo(&self.bindings).display_owned().as_str());
        s.append(")");
        s
    }

    /// Whether the window has to look again soon.
    pub fn is_busy(&self) -> (r: bool)
        ensures
            r == (self@.transport.recording || self@.transport.playing),
    {
        self.transport.recording || self.transport.playing
    }
}

/// What the menu offers does something: a macro that can be saved, made into a program or
/// edited has events, and one that can be opened is not refused.
pub proof fn law_offers_are_kept(v: MainView, secs: u64)
    ensures
        offers_of(v).save ==> v.macro_data is Some,
        offers_of(v).compile ==> has_events(v),
        offers_of(v).edit ==> has_events(v),
        offers_of(v).open ==> !(v.transport.recording || v.transport.playing),
        offers_of(v).stop ==> all_stopped(v, Seq::empty(), secs).1 != Command::Nothing,
{
}

} // verus!
