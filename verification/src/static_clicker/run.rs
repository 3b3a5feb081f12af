//! What the clicker does from click to click.
//!
//! The clicker is a machine that is asked again and again what to do next. Each time it is
//! told what it needs to know of the system at that moment.

use vstd::prelude::*;

use crate::config::HotkeyCombo;
use crate::keys::VK_ESCAPE;
use crate::model::{copy_targets, ClickType, CursorMode, MouseButton, SequenceTarget};
use crate::static_clicker;
use crate::static_clicker::tick::TickError;
use crate::static_clicker::{
    interval_with, random_deviation, ClickMode, RepeatMode, StaticClickerConfig,
};

verus! {

/// No click comes sooner than this many milliseconds after the user touched mouse or keyboard.
pub const COLLISION_IDLE_GUARD_MS: u32 = 50;

/// Nanoseconds in a millisecond.
pub const NANOS_PER_MS: u64 = 1_000_000;

/// The key that stops the clicker, whatever window is in front: Escape alone.
pub fn emergency_key() -> (r: HotkeyCombo)
    ensures
        r == (HotkeyCombo { modifiers: 0, key: VK_ESCAPE }),
{
    HotkeyCombo::new(0, VK_ESCAPE)
}

/// Why the clicker ended on its own.
#[derive(Debug, Clone, Copy, PartialEq, Eq, Structural)]
pub enum ClickerError {
    NoTargets,
    WindowClosed,
    Tick(TickError),
}

impl ClickerError {
    pub open spec fn spec_text(self) -> Seq<char> {
        match self {
            ClickerError::NoTargets => "Add at least 1 target first"@,
            ClickerError::WindowClosed => "Target window closed — clicker stopped."@,
            ClickerError::Tick(e) => e.spec_text(),
        }
    }

    /// The error in words.
    pub fn text(self) -> (r: &'static str)
        ensures
            r@ == self.spec_text(),
    {
        match self {
            ClickerError::NoTargets => "Add at least 1 target first",
            ClickerError::WindowClosed => "Target window closed — clicker stopped.",
            ClickerError::Tick(e) => e.text(),
        }
    }
}

/// What the clicker is told when it is asked what to do next.
#[derive(Debug, Clone, Copy, PartialEq, Eq, Structural)]
pub struct ClickSignals {
    /// Whether a stop is wanted.
    pub stop: bool,
    /// Whether the emergency key is down.
    pub escape: bool,
    /// The time in nanoseconds.
    pub now: u64,
    /// Whether the mouse is over this program's window.
    pub over_app: bool,
    /// Whether the window that is clicked is still there.
    pub window_alive: bool,
    /// Whether the user holds the button or has just touched mouse or keyboard.
    pub user_busy: bool,
    /// How the click that was asked for last went wrong, if it did.
    pub tick_error: Option<TickError>,
}

/// What comes when a wait is over.
#[derive(Debug, Clone, Copy, PartialEq, Eq, Structural)]
pub enum AfterWait {
    /// A click or a round of targets.
    Top,
    /// Another look whether the click can be made.
    Guard { target: usize, click: u32 },
    /// The click after this one.
    Next { target: usize, click: u32 },
}

/// Where the clicker stands.
#[derive(Debug, Clone, Copy, PartialEq, Eq, Structural)]
pub enum ClickPhase {
    /// A click is about to be made or, with targets, a round is about to begin.
    Top,
    /// A click on a target is about to be made.
    ClickTop { target: usize, click: u32 },
    /// A click on a target is made as soon as nothing is in the way.
    Guard { target: usize, click: u32 },
    /// A click was asked for.
    Ticking { target: usize, click: u32 },
    /// A click was made and reported.
    AfterTick { target: usize, click: u32 },
    /// The time until the next click or look is running.
    Waiting { ms: u64, start: u64, then: AfterWait },
    Ended { completed: bool, error: Option<ClickerError> },
}

/// What is to be done next.
#[derive(Debug, Clone, Copy, PartialEq, Eq, Structural)]
pub enum ClickAction {
    /// Ask again at once.
    Continue,
    /// Ask again after a millisecond.
    Sleep,
    /// Click where the mouse is or at the fixed point.
    Click,
    /// Click on a target.
    ClickTarget { target: usize, x: i32, y: i32 },
    /// Report a click: how many there were, and how many repeats there are.
    Report { count: u32, total: Option<u32> },
    /// Nothing is left to do.
    Finished { completed: bool, error: Option<ClickerError> },
}

/// What is to be done next, and whether the emergency key has asked for a stop.
#[derive(Debug, Clone, Copy, PartialEq, Eq, Structural)]
pub struct ClickStep {
    pub raise_stop: bool,
    pub action: ClickAction,
}

/// The settings that a run needs from click to click.
#[derive(Debug, Clone, Copy, PartialEq, Eq, Structural)]
pub struct RunSettings {
    pub button: MouseButton,
    pub click_type: ClickType,
    pub cursor: CursorMode,
    pub mode: ClickMode,
    pub total: Option<u32>,
    pub interval_ms: u64,
    pub interval_jitter_ms: u32,
    pub position_jitter_px: u32,
    /// Whether the clicker runs through targets.
    pub sequence: bool,
}

/// A run of the clicker.
#[derive(Debug)]
pub struct ClickerRun {
    settings: RunSettings,
    targets: Vec<SequenceTarget>,
    count: u32,
    rounds: u32,
    active: Option<usize>,
    phase: ClickPhase,
}

/// What a run of the clicker holds.
#[verifier::ext_equal]
pub struct ClickerView {
    pub settings: RunSettings,
    pub targets: Seq<SequenceTarget>,
    /// The clicks that were made.
    pub count: u32,
    /// The rounds of all targets that were made.
    pub rounds: u32,
    /// The target that was clicked last.
    pub active: Option<usize>,
    pub phase: ClickPhase,
}

impl View for ClickerRun {
    type V = ClickerView;

    closed spec fn view(&self) -> ClickerView {
        ClickerView {
            settings: self.settings,
            targets: self.targets@,
            count: self.count,
            rounds: self.rounds,
            active: self.active,
            phase: self.phase,
        }
    }
}

/// How often a target is clicked in a round: at least once.
pub open spec fn clicks_on(t: SequenceTarget) -> u32 {
    if t.clicks < 1 {
        1
    } else {
        t.clicks
    }
}

/// Whether a click on a target is one of a round.
pub open spec fn in_round(v: ClickerView, target: usize, click: u32) -> bool {
    &&& v.settings.sequence
    &&& target < v.targets.len()
    &&& click < clicks_on(v.targets[target as int])
    &&& v.settings.total matches Some(total) ==> v.rounds < total
}

/// What always holds of a run.
pub open spec fn sound(v: ClickerView) -> bool {
    &&& v.settings.sequence ==> v.targets.len() > 0 || v.phase is Ended
    &&& v.targets.len() <= usize::MAX
    &&& v.settings.total matches Some(total) ==> if v.settings.sequence {
        v.rounds <= total
    } else {
        v.count <= total
    }
    &&& match v.phase {
        ClickPhase::Top => true,
        ClickPhase::ClickTop { target, click } => in_round(v, target, click),
        ClickPhase::Guard { target, click } => in_round(v, target, click),
        ClickPhase::Ticking { target, click } => if v.settings.sequence {
            in_round(v, target, click)
        } else {
            v.settings.total matches Some(total) ==> v.count < total
        },
        ClickPhase::AfterTick { target, click } => v.settings.sequence ==> in_round(
            v,
            target,
            click,
        ),
        ClickPhase::Waiting { ms, start, then } => match then {
            AfterWait::Top => !v.settings.sequence,
            AfterWait::Guard { target, click } => in_round(v, target, click),
            AfterWait::Next { target, click } => in_round(v, target, click) && !is_final(
                v,
                target,
                click,
            ),
        },
        ClickPhase::Ended { .. } => true,
    }
}

/// Whether the counter of a run has room for what comes next. It can be full only where a run
/// without end is about to count another click or, with targets, another round.
pub open spec fn has_room(v: ClickerView) -> bool {
    v.settings.total is None ==> match v.phase {
        ClickPhase::Ticking { .. } => v.settings.sequence || v.count < u32::MAX,
        ClickPhase::Waiting { then: AfterWait::Next { target, click }, .. } => {
            ||| v.rounds < u32::MAX
            ||| click + 1 < clicks_on(v.targets[target as int])
            ||| target + 1 < v.targets.len()
        },
        _ => true,
    }
}

/// The number of clicks after another one. With targets, the count begins anew after the
/// largest number.
pub open spec fn next_count(v: ClickerView) -> u32 {
    if v.settings.sequence && v.count == u32::MAX {
        0
    } else {
        (v.count + 1) as u32
    }
}

/// The run in another phase.
pub open spec fn at(v: ClickerView, phase: ClickPhase) -> ClickerView {
    ClickerView { phase, ..v }
}

/// The run, ended.
pub open spec fn ended(v: ClickerView, completed: bool, error: Option<ClickerError>) -> ClickerView {
    at(v, ClickPhase::Ended { completed, error })
}

/// A step that only acts.
pub open spec fn act(action: ClickAction) -> ClickStep {
    ClickStep { raise_stop: false, action }
}

/// A run that a stop or the emergency key has ended.
pub open spec fn stopped(v: ClickerView, s: ClickSignals) -> (ClickerView, ClickStep) {
    (ended(v, false, None), ClickStep { raise_stop: s.escape, action: ClickAction::Continue })
}

/// The interval before the next click or look, without deviation.
pub open spec fn base_interval(v: ClickerView, target: usize) -> u64 {
    static_clicker::at_least_one(
        if v.settings.sequence {
            v.targets[target as int].interval_ms as u64
        } else {
            v.settings.interval_ms
        },
    )
}

/// A run whose wait begins.
pub open spec fn waiting(
    v: ClickerView,
    target: usize,
    s: ClickSignals,
    delta: i64,
    then: AfterWait,
) -> (ClickerView, ClickStep) {
    (
        at(
            v,
            ClickPhase::Waiting {
                ms: static_clicker::deviated_interval(
                    base_interval(v, target),
                    v.settings.interval_jitter_ms,
                    delta,
                ),
                start: s.now,
                then,
            },
        ),
        act(ClickAction::Continue),
    )
}

/// Whether the click that is due has to wait: the mouse is over this program's window, or the
/// mouse itself would click while the user is using it.
pub open spec fn in_the_way(v: ClickerView, s: ClickSignals) -> bool {
    s.over_app || (v.settings.mode == ClickMode::Foreground && s.user_busy)
}

/// Whether the window that is told of clicks is gone.
pub open spec fn window_gone(v: ClickerView, s: ClickSignals) -> bool {
    v.settings.mode is Background && !s.window_alive
}

/// Whether a click on a target is the last of all.
pub open spec fn is_final(v: ClickerView, target: usize, click: u32) -> bool {
    &&& target + 1 == v.targets.len()
    &&& click + 1 == clicks_on(v.targets[target as int])
    &&& v.settings.total == Some((v.rounds + 1) as u32)
    &&& v.rounds < u32::MAX
}

/// A run whose next click on a target comes: on the same target, on the next one, or on the
/// first one of another round.
pub open spec fn advanced(v: ClickerView, target: usize, click: u32) -> ClickerView {
    if click + 1 < clicks_on(v.targets[target as int]) {
        at(v, ClickPhase::ClickTop { target, click: (click + 1) as u32 })
    } else if target + 1 < v.targets.len() {
        at(v, ClickPhase::ClickTop { target: (target + 1) as usize, click: 0 })
    } else {
        ClickerView { rounds: (v.rounds + 1) as u32, phase: ClickPhase::Top, ..v }
    }
}

/// A run after it was asked what to do next, and the answer. `delta` is the deviation of the
/// interval, should a wait begin.
pub open spec fn step(v: ClickerView, s: ClickSignals, delta: i64) -> (ClickerView, ClickStep) {
    let halt = s.stop || s.escape;
    match v.phase {
        ClickPhase::Top => if halt {
            stopped(v, s)
        } else if v.settings.sequence {
            if v.settings.total == Some(v.rounds) {
                (ended(v, true, None), act(ClickAction::Continue))
            } else {
                (
                    at(v, ClickPhase::ClickTop { target: 0, click: 0 }),
                    act(ClickAction::Continue),
                )
            }
        } else if v.settings.total == Some(v.count) {
            (ended(v, true, None), act(ClickAction::Continue))
        } else if s.over_app {
            waiting(v, 0, s, delta, AfterWait::Top)
        } else if window_gone(v, s) {
            (
                ended(v, false, Some(ClickerError::WindowClosed)),
                act(ClickAction::Continue),
            )
        } else if in_the_way(v, s) {
            waiting(v, 0, s, delta, AfterWait::Top)
        } else {
            (at(v, ClickPhase::Ticking { target: 0, click: 0 }), act(ClickAction::Click))
        },
        ClickPhase::ClickTop { target, click } => if halt {
            stopped(v, s)
        } else if window_gone(v, s) {
            (
                ended(v, false, Some(ClickerError::WindowClosed)),
                act(ClickAction::Continue),
            )
        } else {
            (at(v, ClickPhase::Guard { target, click }), act(ClickAction::Continue))
        },
        ClickPhase::Guard { target, click } => if halt {
            stopped(v, s)
        } else if in_the_way(v, s) {
            waiting(v, target, s, delta, AfterWait::Guard { target, click })
        } else {
            let t = v.targets[target as int];
            (
                ClickerView {
                    active: Some(target),
                    phase: ClickPhase::Ticking { target, click },
                    ..v
                },
                act(ClickAction::ClickTarget { target, x: t.x, y: t.y }),
            )
        },
        ClickPhase::Ticking { target, click } => match s.tick_error {
            Some(e) => (
                ended(v, false, Some(ClickerError::Tick(e))),
                act(ClickAction::Continue),
            ),
            None => {
                let count = next_count(v);
                (
                    ClickerView { count, phase: ClickPhase::AfterTick { target, click }, ..v },
                    act(ClickAction::Report { count, total: v.settings.total }),
                )
            },
        },
        ClickPhase::AfterTick { target, click } => if v.settings.sequence {
            if is_final(v, target, click) {
                if s.stop {
                    (ended(v, false, None), act(ClickAction::Continue))
                } else {
                    (
                        ended(
                            ClickerView { rounds: (v.rounds + 1) as u32, ..v },
                            true,
                            None,
                        ),
                        act(ClickAction::Continue),
                    )
                }
            } else {
                waiting(v, target, s, delta, AfterWait::Next { target, click })
            }
        } else if v.settings.total == Some(v.count) {
            (ended(v, true, None), act(ClickAction::Continue))
        } else {
            waiting(v, 0, s, delta, AfterWait::Top)
        },
        ClickPhase::Waiting { ms, start, then } => if halt {
            (
                ended(v, false, None),
                ClickStep { raise_stop: !s.stop && s.escape, action: ClickAction::Continue },
            )
        } else if s.now < start || ((s.now - start) / NANOS_PER_MS as int) < ms {
            (v, act(ClickAction::Sleep))
        } else {
            (
                match then {
                    AfterWait::Top => at(v, ClickPhase::Top),
                    AfterWait::Guard { target, click } => at(
                        v,
                        ClickPhase::Guard { target, click },
                    ),
                    AfterWait::Next { target, click } => advanced(v, target, click),
                },
                act(ClickAction::Continue),
            )
        },
        ClickPhase::Ended { completed, error } => (
            v,
            act(ClickAction::Finished { completed, error }),
        ),
    }
}

/// A run that is about to begin. It runs through targets where these are chosen and switched
/// on; switched off, it clicks where the mouse is. Without targets there is nothing to run
/// through.
pub open spec fn begun(c: StaticClickerConfig) -> ClickerView {
    let chosen = c.cursor == CursorMode::MultiTarget;
    let sequence = chosen && c.sequence_enabled;
    ClickerView {
        settings: RunSettings {
            button: c.button,
            click_type: c.click_type,
            cursor: if chosen && !c.sequence_enabled {
                CursorMode::Current
            } else {
                c.cursor
            },
            mode: c.mode,
            total: c.repeat.spec_total(),
            interval_ms: c.interval_ms,
            interval_jitter_ms: c.interval_jitter_ms,
            position_jitter_px: c.position_jitter_px,
            sequence,
        },
        targets: c.sequence_targets@,
        count: 0,
        rounds: 0,
        active: None,
        phase: if sequence && c.sequence_targets@.len() == 0 {
            ClickPhase::Ended { completed: false, error: Some(ClickerError::NoTargets) }
        } else {
            ClickPhase::Top
        },
    }
}

impl ClickerRun {
    /// A run with settings.
    pub fn new(c: &StaticClickerConfig) -> (r: Self)
        ensures
            r@ == begun(*c),
            sound(r@),
    {
        let chosen: bool = c.cursor == CursorMode::MultiTarget;
        let sequence: bool = chosen && c.sequence_enabled;
        let cursor: CursorMode = if chosen && !c.sequence_enabled {
            CursorMode::Current
        } else {
            c.cursor
        };
        let targets: usize = c.sequence_targets.len();
        let phase: ClickPhase = if sequence && targets == 0 {
            ClickPhase::Ended { completed: false, error: Some(ClickerError::NoTargets) }
        } else {
            ClickPhase::Top
        };
        ClickerRun {
            settings: RunSettings {
                button: c.button,
                click_type: c.click_type,
                cursor,
                mode: c.mode,
                total: c.repeat.total(),
                interval_ms: c.interval_ms,
                interval_jitter_ms: c.interval_jitter_ms,
                position_jitter_px: c.position_jitter_px,
                sequence,
            },
            targets: copy_targets(&c.sequence_targets),
            count: 0,
            rounds: 0,
            active: None,
            phase,
        }
    }

    pub fn settings(&self) -> (r: RunSettings)
        ensures
            r == self@.settings,
    {
        self.settings
    }

    pub fn active(&self) -> (r: Option<usize>)
        ensures
            r == self@.active,
    {
        self.active
    }

    /// Whether the counter of a run has room for what comes next.
    pub fn can_go_on(&self) -> (r: bool)
        requires
            sound(self@),
        ensures
            r == has_room(self@),
    {
        if self.settings.total.is_some() {
            return true;
        }
        match self.phase {
            ClickPhase::Ticking { .. } => self.settings.sequence || self.count < u32::MAX,
            ClickPhase::Waiting { then: AfterWait::Next { target, click }, .. } => {
                let clicks: u32 = self.clicks(target);
                self.rounds < u32::MAX || click + 1 < clicks || target + 1 < self.targets.len()
            },
            _ => true,
        }
    }

    fn begin_wait(&mut self, target: usize, now: u64, delta: i64, then: AfterWait)
        requires
            old(self)@.settings.sequence ==> target < old(self)@.targets.len(),
        ensures
            final(self)@ == at(
                old(self)@,
                ClickPhase::Waiting {
                    ms: static_clicker::deviated_interval(
                        base_interval(old(self)@, target),
                        old(self)@.settings.interval_jitter_ms,
                        delta,
                    ),
                    start: now,
                    then,
                },
            ),
    {
        let base: u64 = if self.settings.sequence {
            self.targets[target].interval_ms as u64
        } else {
            self.settings.interval_ms
        };
        let at_least: u64 = if base < 1 {
            1
        } else {
            base
        };
        let ms: u64 = interval_with(at_least, self.settings.interval_jitter_ms, delta);
        self.phase = ClickPhase::Waiting { ms, start: now, then };
    }

    fn clicks(&self, target: usize) -> (r: u32)
        requires
            target < self@.targets.len(),
        ensures
            r == clicks_on(self@.targets[target as int]),
    {
        let clicks: u32 = self.targets[target].clicks;
        if clicks < 1 {
            1
        } else {
            clicks
        }
    }

    fn finish(&mut self, completed: bool, error: Option<ClickerError>)
        ensures
            final(self)@ == ended(old(self)@, completed, error),
    {
        self.phase = ClickPhase::Ended { completed, error };
    }

    fn all_clicks_made(&self) -> (r: bool)
        ensures
            r == (self@.settings.total == Some(self@.count)),
    {
        match self.settings.total {
            Some(total) => self.count == total,
            None => false,
        }
    }

    fn is_background(&self) -> (r: bool)
        ensures
            r == (self@.settings.mode is Background),
    {
        match self.settings.mode {
            ClickMode::Background(_) => true,
            ClickMode::Foreground => false,
        }
    }

    fn advance(&mut self, target: usize, click: u32)
        requires
            sound(old(self)@),
            in_round(old(self)@, target, click),
            !is_final(old(self)@, target, click),
            ({
                ||| old(self)@.rounds < u32::MAX
                ||| click + 1 < clicks_on(old(self)@.targets[target as int])
                ||| target + 1 < old(self)@.targets.len()
            }),
        ensures
            final(self)@ == advanced(old(self)@, target, click),
            sound(final(self)@),
    {
        let clicks: u32 = self.clicks(target);
        if click + 1 < clicks {
            self.phase = ClickPhase::ClickTop { target, click: click + 1 };
        } else if target + 1 < self.targets.len() {
            self.phase = ClickPhase::ClickTop { target: target + 1, click: 0 };
        } else {
            self.rounds = self.rounds + 1;
            self.phase = ClickPhase::Top;
        }
    }

    /// Asks what to do next. `delta` is the deviation of the interval, should a wait begin.
    pub fn step_with(&mut self, s: ClickSignals, delta: i64) -> (r: ClickStep)
        requires
            sound(old(self)@),
            has_room(old(self)@),
        ensures
            (final(self)@, r) == step(old(self)@, s, delta),
            sound(final(self)@),
    {
        let halt: bool = s.stop || s.escape;
        let mut raise_stop: bool = false;
        let mut action: ClickAction = ClickAction::Continue;
        match self.phase {
            ClickPhase::Top => {
                if halt {
                    raise_stop = s.escape;
                    self.finish(false, None);
                } else if self.settings.sequence {
                    let all: bool = match self.settings.total {
                        Some(total) => self.rounds == total,
                        None => false,
                    };
                    if all {
                        self.finish(true, None);
                    } else {
                        self.phase = ClickPhase::ClickTop { target: 0, click: 0 };
                    }
                } else if self.all_clicks_made() {
                    self.finish(true, None);
                } else if s.over_app {
                    self.begin_wait(0, s.now, delta, AfterWait::Top);
                } else if self.is_background() && !s.window_alive {
                    self.finish(false, Some(ClickerError::WindowClosed));
                } else if !self.is_background() && s.user_busy {
                    self.begin_wait(0, s.now, delta, AfterWait::Top);
                } else {
                    self.phase = ClickPhase::Ticking { target: 0, click: 0 };
                    action = ClickAction::Click;
                }
            },
            ClickPhase::ClickTop { target, click } => {
                if halt {
                    raise_stop = s.escape;
                    self.finish(false, None);
                } else if self.is_background() && !s.window_alive {
                    self.finish(false, Some(ClickerError::WindowClosed));
                } else {
                    self.phase = ClickPhase::Guard { target, click };
                }
            },
            ClickPhase::Guard { target, click } => {
                if halt {
                    raise_stop = s.escape;
                    self.finish(false, None);
                } else if s.over_app || (!self.is_background() && s.user_busy) {
                    self.begin_wait(target, s.now, delta, AfterWait::Guard { target, click });
                } else {
                    let t: SequenceTarget = self.targets[target];
                    self.active = Some(target);
                    self.phase = ClickPhase::Ticking { target, click };
                    action = ClickAction::ClickTarget { target, x: t.x, y: t.y };
                }
            },
            ClickPhase::Ticking { target, click } => {
                match s.tick_error {
                    Some(e) => {
                        self.finish(false, Some(ClickerError::Tick(e)));
                    },
                    None => {
                        self.count = if self.settings.sequence && self.count == u32::MAX {
                            0
                        } else {
                            self.count + 1
                        };
                        self.phase = ClickPhase::AfterTick { target, click };
                        action = ClickAction::Report {
                            count: self.count,
                            total: self.settings.total,
                        };
                    },
                }
            },
            ClickPhase::AfterTick { target, click } => {
                if self.settings.sequence {
                    let clicks: u32 = self.clicks(target);
                    let last_round: bool = match self.settings.total {
                        Some(total) => self.rounds + 1 == total,
                        None => false,
                    };
                    if target + 1 == self.targets.len() && click + 1 == clicks && last_round {
                        if s.stop {
                            self.finish(false, None);
                        } else {
                            self.rounds = self.rounds + 1;
                            self.finish(true, None);
                        }
                    } else {
                        self.begin_wait(target, s.now, delta, AfterWait::Next { target, click });
                    }
                } else if self.all_clicks_made() {
                    self.finish(true, None);
                } else {
                    self.begin_wait(0, s.now, delta, AfterWait::Top);
                }
            },
            ClickPhase::Waiting { ms, start, then } => {
                if s.stop {
                    self.finish(false, None);
                } else if s.escape {
                    raise_stop = true;
                    self.finish(false, None);
                } else if s.now < start || (s.now - start) / NANOS_PER_MS < ms {
                    action = ClickAction::Sleep;
                } else {
                    match then {
                        AfterWait::Top => {
                            self.phase = ClickPhase::Top;
                        },
                        AfterWait::Guard { target, click } => {
                            self.phase = ClickPhase::Guard { target, click };
                        },
                        AfterWait::Next { target, click } => {
                            self.advance(target, click);
                        },
                    }
                }
            },
            ClickPhase::Ended { completed, error } => {
                action = ClickAction::Finished { completed, error };
            },
        }
        ClickStep { raise_stop, action }
    }

    /// Asks what to do next, with a random deviation of the interval should a wait begin.
    pub fn step(&mut self, s: ClickSignals) -> (r: ClickStep)
        requires
            sound(old(self)@),
            has_room(old(self)@),
        ensures
            exists|delta: i64|
                {
                    &&& -old(self)@.settings.interval_jitter_ms <= delta
                    &&& delta <= old(self)@.settings.interval_jitter_ms
                    &&& (final(self)@, r) == #[trigger] step(old(self)@, s, delta)
                },
            sound(final(self)@),
    {
        let delta: i64 = random_deviation(self.settings.interval_jitter_ms);
        self.step_with(s, delta)
    }
}

// ---------------------------------------------------------------------------
// Laws
// ---------------------------------------------------------------------------

/// Whether a step asks for a click.
pub open spec fn clicks(s: ClickStep) -> bool {
    s.action == ClickAction::Click || s.action is ClickTarget
}

/// No click gets in the user's way: none is asked for while a stop is wanted, while the mouse
/// is over this program's window, or, where the mouse itself clicks, while the user is using
/// it. Nor is one asked for, without targets, where the window that would be told is gone.
pub proof fn law_no_click_in_the_way(v: ClickerView, s: ClickSignals, delta: i64)
    requires
        sound(v),
        clicks(step(v, s, delta).1),
    ensures
        !s.stop,
        !s.escape,
        !s.over_app,
        v.settings.mode == ClickMode::Foreground ==> !s.user_busy,
        v.settings.mode is Background && !v.settings.sequence ==> s.window_alive,
{
}

/// A look that finds something in the way makes no click and counts none.
pub proof fn law_skipped_click_is_not_counted(v: ClickerView, s: ClickSignals, delta: i64)
    requires
        !(v.phase is Ticking),
    ensures
        step(v, s, delta).0.count == v.count,
        !(step(v, s, delta).1.action is Report),
{
}

/// A stop or the emergency key ends a run before the next click: unless a click has just been
/// asked for or made, at once; the run then counts as not completed.
pub proof fn law_stop_is_obeyed(v: ClickerView, s: ClickSignals, delta: i64)
    requires
        s.stop || s.escape,
        !(v.phase is Ticking),
        !(v.phase is AfterTick),
        !(v.phase is Ended),
    ensures
        step(v, s, delta).0.phase == (ClickPhase::Ended { completed: false, error: None }),
        !clicks(step(v, s, delta).1),
{
}

/// The emergency key asks everyone for a stop.
pub proof fn law_escape_raises_the_stop(v: ClickerView, s: ClickSignals, delta: i64)
    requires
        s.escape,
        !s.stop,
        !(v.phase is Ticking),
        !(v.phase is AfterTick),
        !(v.phase is Ended),
    ensures
        step(v, s, delta).1.raise_stop,
{
}

/// Every wait takes at least a millisecond.
pub proof fn law_waits_take_time(v: ClickerView, s: ClickSignals, delta: i64)
    ensures
        !(v.phase is Waiting) ==> (step(v, s, delta).0.phase matches ClickPhase::Waiting {
            ms,
            ..
        } ==> ms >= 1),
{
}

/// What always holds of a run holds after each step.
pub proof fn lemma_step_stays_sound(v: ClickerView, q: Request)
    requires
        sound(v),
        has_room(v),
    ensures
        sound(step(v, q.signals, q.delta).0),
{
}

/// One request that a run was asked with: what it was told, and the deviation.
#[derive(Debug, Clone, Copy, PartialEq, Eq, Structural)]
pub struct Request {
    pub signals: ClickSignals,
    pub delta: i64,
}

/// A point on the way through the targets.
#[derive(Debug, Clone, Copy, PartialEq, Eq, Structural)]
pub struct TargetClick {
    pub target: usize,
    pub x: i32,
    pub y: i32,
}

/// The click on a target that a step asks for, if it asks for one.
pub open spec fn asked_by(s: ClickStep) -> Seq<TargetClick> {
    match s.action {
        ClickAction::ClickTarget { target, x, y } => seq![TargetClick { target, x, y }],
        _ => Seq::empty(),
    }
}

/// A run after it was asked a number of times, and all the clicks on targets that it has asked
/// for.
pub open spec fn trace(v: ClickerView, requests: Seq<Request>) -> (ClickerView, Seq<TargetClick>)
    decreases requests.len(),
{
    if requests.len() == 0 {
        (v, Seq::empty())
    } else {
        let (before, asked) = trace(v, requests.drop_last());
        let (after, s) = step(before, requests.last().signals, requests.last().delta);
        (after, asked + asked_by(s))
    }
}

/// The clicks on targets, in order: a number of whole rounds, then in the next round all the
/// clicks on a number of targets, then a number of clicks on the target after these.
pub open spec fn script(
    targets: Seq<SequenceTarget>,
    rounds: nat,
    target: nat,
    click: nat,
) -> Seq<TargetClick>
    decreases rounds, target, click,
{
    if click > 0 {
        let t = targets[target as int];
        script(targets, rounds, target, (click - 1) as nat).push(
            TargetClick { target: target as usize, x: t.x, y: t.y },
        )
    } else if target > 0 {
        script(
            targets,
            rounds,
            (target - 1) as nat,
            clicks_on(targets[target - 1]) as nat,
        )
    } else if rounds > 0 {
        script(targets, (rounds - 1) as nat, targets.len(), 0)
    } else {
        Seq::empty()
    }
}

/// Whether the counter of a run had room whenever it was asked.
pub open spec fn roomy(v: ClickerView, requests: Seq<Request>) -> bool
    decreases requests.len(),
{
    requests.len() == 0 || (has_room(trace(v, requests.drop_last()).0) && roomy(
        v,
        requests.drop_last(),
    ))
}

/// How far a run through targets has come: whole rounds, targets of the next round, clicks on
/// the target after these.
pub open spec fn progress(v: ClickerView) -> (nat, nat, nat) {
    match v.phase {
        ClickPhase::ClickTop { target, click } => (v.rounds as nat, target as nat, click as nat),
        ClickPhase::Guard { target, click } => (v.rounds as nat, target as nat, click as nat),
        ClickPhase::Ticking { target, click } => (
            v.rounds as nat,
            target as nat,
            (click + 1) as nat,
        ),
        ClickPhase::AfterTick { target, click } => (
            v.rounds as nat,
            target as nat,
            (click + 1) as nat,
        ),
        ClickPhase::Waiting { then: AfterWait::Guard { target, click }, .. } => (
            v.rounds as nat,
            target as nat,
            click as nat,
        ),
        ClickPhase::Waiting { then: AfterWait::Next { target, click }, .. } => (
            v.rounds as nat,
            target as nat,
            (click + 1) as nat,
        ),
        _ => (v.rounds as nat, 0, 0),
    }
}

/// Whether a run has asked for just the clicks that the targets ask for, up to some point.
pub open spec fn follows(v: ClickerView, asked: Seq<TargetClick>, upto: (nat, nat, nat)) -> bool {
    &&& asked == script(v.targets, upto.0, upto.1, upto.2)
    &&& match v.phase {
        ClickPhase::Ended { completed, .. } => completed ==> upto == (v.rounds as nat, 0nat, 0nat)
            && v.settings.total == Some(v.rounds),
        _ => upto == progress(v),
    }
}

proof fn lemma_step_follows(
    v: ClickerView,
    asked: Seq<TargetClick>,
    q: Request,
    upto: (nat, nat, nat),
) -> (r: (nat, nat, nat))
    requires
        sound(v),
        v.settings.sequence,
        has_room(v),
        follows(v, asked, upto),
    ensures
        sound(step(v, q.signals, q.delta).0),
        step(v, q.signals, q.delta).0.targets == v.targets,
        step(v, q.signals, q.delta).0.settings == v.settings,
        follows(
            step(v, q.signals, q.delta).0,
            asked + asked_by(step(v, q.signals, q.delta).1),
            r,
        ),
{
    let (after, s) = step(v, q.signals, q.delta);
    let more = asked + asked_by(s);
    if asked_by(s).len() == 0 {
        assert(more =~= asked);
    }
    match v.phase {
        ClickPhase::Guard { target, click } => {
            if after.phase is Ticking {
                let next = script(v.targets, v.rounds as nat, target as nat, (click + 1) as nat);
                assert(more =~= next);
                progress(after)
            } else if after.phase is Ended {
                upto
            } else {
                progress(after)
            }
        },
        ClickPhase::Waiting { then: AfterWait::Next { target, click }, .. } => {
            lemma_round_is_over(v.targets, v.rounds as nat, target, click);
            if after.phase is Ended {
                upto
            } else {
                progress(after)
            }
        },
        ClickPhase::AfterTick { target, click } => {
            lemma_round_is_over(v.targets, v.rounds as nat, target, click);
            if after.phase is Ended {
                if is_final(v, target, click) && !q.signals.stop {
                    (after.rounds as nat, 0, 0)
                } else {
                    upto
                }
            } else {
                progress(after)
            }
        },
        _ => {
            if after.phase is Ended {
                upto
            } else {
                progress(after)
            }
        },
    }
}

proof fn lemma_round_is_over(targets: Seq<SequenceTarget>, rounds: nat, target: usize, click: u32)
    requires
        target < targets.len(),
        click < clicks_on(targets[target as int]),
    ensures
        click + 1 == clicks_on(targets[target as int]) ==> script(
            targets,
            rounds,
            target as nat,
            (click + 1) as nat,
        ) == script(targets, rounds, (target + 1) as nat, 0),
        script(targets, rounds, targets.len(), 0) == script(targets, rounds + 1, 0, 0),
{
}

proof fn lemma_trace_follows(c: StaticClickerConfig, requests: Seq<Request>) -> (r: (nat, nat, nat))
    requires
        c.cursor == CursorMode::MultiTarget,
        c.sequence_enabled,
        c.sequence_targets@.len() <= usize::MAX,
        c.repeat is Count || roomy(begun(c), requests),
    ensures
        ({
            let (v, asked) = trace(begun(c), requests);
            &&& sound(v)
            &&& v.targets == c.sequence_targets@
            &&& v.settings == begun(c).settings
            &&& follows(v, asked, r)
        }),
    decreases requests.len(),
{
    if requests.len() == 0 {
        assert(sound(begun(c)));
        assert(follows(begun(c), Seq::empty(), (0, 0, 0)));
        (0, 0, 0)
    } else {
        let upto = lemma_trace_follows(c, requests.drop_last());
        let (v, asked) = trace(begun(c), requests.drop_last());
        lemma_step_follows(v, asked, requests.last(), upto)
    }
}

/// A run through targets clicks what the targets say and nothing else: whatever it is told,
/// its clicks are those of whole rounds, of a number of targets of the next round, and of a
/// number of clicks on the target after these, each in order.
pub proof fn law_clicks_follow_the_targets(c: StaticClickerConfig, requests: Seq<Request>)
    requires
        c.cursor == CursorMode::MultiTarget,
        c.sequence_enabled,
        c.sequence_targets@.len() <= usize::MAX,
        c.repeat is Count || roomy(begun(c), requests),
    ensures
        exists|rounds: nat, target: nat, click: nat|
            trace(begun(c), requests).1 == #[trigger] script(
                c.sequence_targets@,
                rounds,
                target,
                click,
            ),
{
    let upto = lemma_trace_follows(c, requests);
    assert(trace(begun(c), requests).1 == script(c.sequence_targets@, upto.0, upto.1, upto.2));
}

/// A run through targets that ends as completed has made all its rounds, each of all targets.
pub proof fn law_completed_run_made_all_rounds(
    c: StaticClickerConfig,
    rounds: u32,
    requests: Seq<Request>,
)
    requires
        c.cursor == CursorMode::MultiTarget,
        c.sequence_enabled,
        c.sequence_targets@.len() <= usize::MAX,
        c.repeat == RepeatMode::Count(rounds),
        trace(begun(c), requests).0.phase == (ClickPhase::Ended { completed: true, error: None }),
    ensures
        trace(begun(c), requests).1 == script(c.sequence_targets@, rounds as nat, 0, 0),
{
    let upto = lemma_trace_follows(c, requests);
}

/// A run without targets that ends as completed has made as many clicks as were asked for.
pub proof fn law_completed_run_made_all_clicks(
    c: StaticClickerConfig,
    count: u32,
    requests: Seq<Request>,
)
    requires
        c.cursor != CursorMode::MultiTarget || !c.sequence_enabled,
        c.sequence_targets@.len() <= usize::MAX,
        c.repeat == RepeatMode::Count(count),
    ensures
        ({
            let v = trace(begun(c), requests).0;
            &&& v.count <= count
            &&& v.phase == (ClickPhase::Ended { completed: true, error: None }) ==> v.count
                == count
        }),
{
    lemma_normal_run(c, count, requests);
}

proof fn lemma_normal_run(c: StaticClickerConfig, count: u32, requests: Seq<Request>)
    requires
        c.cursor != CursorMode::MultiTarget || !c.sequence_enabled,
        c.sequence_targets@.len() <= usize::MAX,
        c.repeat == RepeatMode::Count(count),
    ensures
        ({
            let v = trace(begun(c), requests).0;
            &&& sound(v)
            &&& v.settings == begun(c).settings
            &&& v.phase matches ClickPhase::Ended { completed, .. } ==> completed ==> v.count
                == count
        }),
    decreases requests.len(),
{
    if requests.len() > 0 {
        lemma_normal_run(c, count, requests.drop_last());
    }
}

} // verus!
