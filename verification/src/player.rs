//! Playback of a macro: speed, loops, the interval between them, pause and stop.
//!
//! The player is a machine that is asked again and again what to do next. Each time it is
//! told whether a stop or a pause is wanted and what time it is.

pub mod schedule;

use vstd::prelude::*;

use crate::double::Double;
use crate::hooks;
use crate::hooks::{
    absolute_coords, button_flags, mouse_move_input, MouseInput, VirtualScreen, ABSOLUTE_FLAGS,
    MOUSEEVENTF_WHEEL,
};
use crate::model;
use crate::model::{word_of, MacroData, MacroEvent, MacroEventType, MouseButton};

verus! {

// ---------------------------------------------------------------------------
// Options
// ---------------------------------------------------------------------------

/// How a macro is played.
#[derive(Debug, Clone, Copy, PartialEq, Eq, Structural)]
pub struct PlaybackOptions {
    pub speed: Double,
    pub loop_count: i32,
    pub infinite: bool,
    pub interval_ms: i32,
}

impl From<&MacroData> for PlaybackOptions {
    fn from(d: &MacroData) -> (r: Self) {
        PlaybackOptions {
            speed: d.speed,
            loop_count: d.loop_count,
            infinite: d.infinite_loop,
            interval_ms: d.interval_ms,
        }
    }
}

impl vstd::std_specs::convert::FromSpecImpl<&MacroData> for PlaybackOptions {
    open spec fn obeys_from_spec() -> bool {
        true
    }

    open spec fn from_spec(d: &MacroData) -> Self {
        PlaybackOptions {
            speed: d@.speed,
            loop_count: d@.loop_count,
            infinite: d@.infinite_loop,
            interval_ms: d@.interval_ms,
        }
    }
}

impl PlaybackOptions {
    /// How many times the macro is played. At least once; without end stands for the largest
    /// number.
    pub open spec fn spec_iterations(self) -> usize {
        if self.infinite {
            usize::MAX
        } else if self.loop_count < 1 {
            1
        } else {
            self.loop_count as usize
        }
    }

    /// How many times the macro is played.
    pub fn effective_iterations(&self) -> (r: usize)
        ensures
            r == self.spec_iterations(),
    {
        if self.infinite {
            usize::MAX
        } else if self.loop_count < 1 {
            1
        } else {
            self.loop_count as usize
        }
    }
}

// ---------------------------------------------------------------------------
// The switches of a player
// ---------------------------------------------------------------------------

/// The switches by which the user interface and a running playback talk.
#[derive(Debug, Clone, Copy, PartialEq, Eq, Structural)]
pub struct MacroPlayer {
    pub stop_flag: bool,
    pub pause_flag: bool,
    pub running: bool,
}

impl Default for MacroPlayer {
    fn default() -> (r: Self)
        ensures
            r == (MacroPlayer { stop_flag: false, pause_flag: false, running: false }),
    {
        MacroPlayer::new()
    }
}

impl MacroPlayer {
    pub fn new() -> (r: Self)
        ensures
            r == (MacroPlayer { stop_flag: false, pause_flag: false, running: false }),
    {
        MacroPlayer { stop_flag: false, pause_flag: false, running: false }
    }

    pub fn is_running(&self) -> (r: bool)
        ensures
            r == self.running,
    {
        self.running
    }

    pub fn is_paused(&self) -> (r: bool)
        ensures
            r == self.pause_flag,
    {
        self.pause_flag
    }

    /// Begins a playback, unless one is running. Returns whether one began.
    pub fn start(&mut self) -> (r: bool)
        ensures
            r == !old(self).running,
            *final(self) == (if old(self).running {
                *old(self)
            } else {
                MacroPlayer { stop_flag: false, pause_flag: false, running: true }
            }),
    {
        if self.is_running() {
            return false;
        }
        self.stop_flag = false;
        self.pause_flag = false;
        self.running = true;
        true
    }

    /// Notes that the playback has ended.
    pub fn finished(&mut self)
        ensures
            *final(self) == (MacroPlayer { running: false, ..*old(self) }),
    {
        self.running = false;
    }

    /// Pauses a running playback.
    pub fn pause(&mut self)
        ensures
            *final(self) == (MacroPlayer {
                pause_flag: old(self).pause_flag || old(self).running,
                ..*old(self)
            }),
    {
        if !self.is_running() || self.is_paused() {
            return;
        }
        self.pause_flag = true;
    }

    /// Lets a paused playback go on.
    pub fn resume(&mut self)
        ensures
            *final(self) == (MacroPlayer {
                pause_flag: old(self).pause_flag && !old(self).running,
                ..*old(self)
            }),
    {
        if !self.is_running() {
            return;
        }
        self.pause_flag = false;
    }

    /// Pauses a running playback, or lets it go on.
    pub fn toggle_pause(&mut self)
        ensures
            *final(self) == (MacroPlayer {
                pause_flag: if old(self).running {
                    !old(self).pause_flag
                } else {
                    old(self).pause_flag
                },
                ..*old(self)
            }),
    {
        if self.is_paused() {
            self.resume();
        } else {
            self.pause();
        }
    }

    /// Asks a playback to stop, also where it is paused.
    pub fn stop(&mut self)
        ensures
            *final(self) == (MacroPlayer { stop_flag: true, pause_flag: false, ..*old(self) }),
    {
        self.stop_flag = true;
        self.pause_flag = false;
    }
}

// ---------------------------------------------------------------------------
// Waiting
// ---------------------------------------------------------------------------

/// Nanoseconds in a millisecond.
pub const NANOS_PER_MS: u64 = 1_000_000;

/// A wait that a pause freezes. Times are in nanoseconds.
#[derive(Debug, Clone, Copy, PartialEq, Eq, Structural)]
pub struct Wait {
    pub ms: u64,
    pub start: u64,
    /// Whether a pause was wanted when last asked.
    pub paused: bool,
    /// When the present pause began, if there is one.
    pub pause_start: Option<u64>,
    /// How long the pauses that are over took.
    pub paused_for: u64,
}

/// The time from one moment to a later one.
pub open spec fn since(earlier: int, later: int) -> int {
    if later <= earlier {
        0
    } else {
        later - earlier
    }
}

fn nanos_since(earlier: u64, later: u64) -> (r: u64)
    ensures
        r == since(earlier as int, later as int),
{
    if later <= earlier {
        0
    } else {
        later - earlier
    }
}

impl Wait {
    /// How much of the wait is over at a moment.
    pub open spec fn elapsed(self, now: u64) -> int {
        since(self.paused_for as int, since(self.start as int, now as int))
    }

    /// The wait once it was asked at a moment at which a pause is wanted or not.
    pub open spec fn spec_polled(self, pause: bool, now: u64) -> Wait {
        if pause {
            Wait {
                paused: true,
                pause_start: match self.pause_start {
                    Some(t) => Some(t),
                    None => Some(now),
                },
                ..self
            }
        } else {
            Wait {
                paused: false,
                pause_start: None,
                paused_for: match self.pause_start {
                    Some(t) => if self.paused_for + since(t as int, now as int) > u64::MAX {
                        u64::MAX
                    } else {
                        (self.paused_for + since(t as int, now as int)) as u64
                    },
                    None => self.paused_for,
                },
                ..self
            }
        }
    }

    /// Whether the wait is over at a moment.
    pub open spec fn spec_over(self, now: u64) -> bool {
        self.pause_start is None && self.elapsed(now) / NANOS_PER_MS as int >= self.ms
    }

    /// Begins a wait.
    pub fn begin(ms: u64, pause: bool, now: u64) -> (r: Wait)
        ensures
            r == (Wait { ms, start: now, paused: pause, pause_start: None, paused_for: 0 }),
    {
        Wait { ms, start: now, paused: pause, pause_start: None, paused_for: 0 }
    }

    /// Asks the wait at a moment at which a pause is wanted or not. Returns whether it is
    /// over.
    pub fn poll(&mut self, pause: bool, now: u64) -> (r: bool)
        ensures
            *final(self) == old(self).spec_polled(pause, now),
            r == final(self).spec_over(now),
    {
        self.paused = pause;
        if pause {
            if self.pause_start.is_none() {
                self.pause_start = Some(now);
            }
            return false;
        }
        if let Some(t) = self.pause_start {
            let d: u64 = nanos_since(t, now);
            if d > u64::MAX - self.paused_for {
                self.paused_for = u64::MAX;
            } else {
                self.paused_for = self.paused_for + d;
            }
            self.pause_start = None;
        }
        let elapsed: u64 = nanos_since(self.paused_for, nanos_since(self.start, now));
        elapsed / NANOS_PER_MS >= self.ms
    }
}

/// A pause freezes a wait: as much of it is over when the pause ends as was when it began.
pub proof fn law_pause_freezes_the_wait(w: Wait, from: u64, to: u64)
    requires
        w.pause_start is None,
        w.start + w.paused_for <= from <= to,
    ensures
        ({
            let paused = w.spec_polled(true, from);
            let resumed = paused.spec_polled(false, to);
            &&& !paused.spec_over(to)
            &&& resumed.elapsed(to) == w.elapsed(from)
        }),
{
}

/// A wait without a pause is over once its time has passed, and not before.
pub proof fn law_wait_takes_its_time(ms: u64, start: u64, now: u64)
    requires
        start <= now,
    ensures
        (Wait { ms, start, paused: false, pause_start: None, paused_for: 0 }).spec_polled(
            false,
            now,
        ).spec_over(now) == (now - start >= ms * NANOS_PER_MS),
{
    let d = now - start;
    assert((d / 1_000_000 >= ms) == (d >= ms * 1_000_000));
}

// ---------------------------------------------------------------------------
// What is played
// ---------------------------------------------------------------------------

/// One thing that playback has the system do.
#[derive(Debug, Clone, Copy, PartialEq, Eq, Structural)]
pub enum PlayInput {
    Move { x: i32, y: i32 },
    Button { button: MouseButton, down: bool, x: i32, y: i32 },
    Wheel { delta: i32 },
    Key { vk: i32, down: bool },
    /// Lets a button go where the mouse is.
    ReleaseButton { button: MouseButton },
}

/// The keys and buttons that playback holds down, in the order in which it pressed them.
#[verifier::ext_equal]
pub struct Held {
    pub keys: Seq<i32>,
    pub buttons: Seq<MouseButton>,
}

/// A list with an item that it has once.
pub open spec fn with<T>(list: Seq<T>, item: T) -> Seq<T> {
    if list.contains(item) {
        list
    } else {
        list.push(item)
    }
}

/// The items that are not a given one.
pub open spec fn other_than<T>(item: T) -> spec_fn(T) -> bool {
    |other: T| other != item
}

/// A list without an item.
pub open spec fn without<T>(list: Seq<T>, item: T) -> Seq<T> {
    list.filter(other_than(item))
}

/// What is held once an event was played.
pub open spec fn held_after(h: Held, e: MacroEvent) -> Held {
    match e.event_type {
        MacroEventType::MouseDown => Held { buttons: with(h.buttons, e.button), ..h },
        MacroEventType::MouseUp => Held { buttons: without(h.buttons, e.button), ..h },
        MacroEventType::KeyDown => Held { keys: with(h.keys, e.key_code), ..h },
        MacroEventType::KeyUp => Held { keys: without(h.keys, e.key_code), ..h },
        _ => h,
    }
}

/// What playing an event has the system do. What is held already is not pressed again.
pub open spec fn input_for(h: Held, e: MacroEvent) -> Option<PlayInput> {
    match e.event_type {
        MacroEventType::MouseMove => Some(PlayInput::Move { x: e.x, y: e.y }),
        MacroEventType::MouseDown => if h.buttons.contains(e.button) {
            None
        } else {
            Some(PlayInput::Button { button: e.button, down: true, x: e.x, y: e.y })
        },
        MacroEventType::MouseUp => Some(
            PlayInput::Button { button: e.button, down: false, x: e.x, y: e.y },
        ),
        MacroEventType::MouseWheel => Some(PlayInput::Wheel { delta: e.wheel_delta }),
        MacroEventType::KeyDown => if h.keys.contains(e.key_code) {
            None
        } else {
            Some(PlayInput::Key { vk: e.key_code, down: true })
        },
        MacroEventType::KeyUp => Some(PlayInput::Key { vk: e.key_code, down: false }),
    }
}

fn has_key(keys: &Vec<i32>, vk: i32) -> (r: bool)
    ensures
        r == keys@.contains(vk),
{
    let mut i: usize = 0;
    while i < keys.len()
        invariant
            i <= keys.len(),
            forall|k: int| 0 <= k < i ==> keys@[k] != vk,
        decreases keys.len() - i,
    {
        if keys[i] == vk {
            return true;
        }
        i = i + 1;
    }
    false
}

fn has_button(buttons: &Vec<MouseButton>, button: MouseButton) -> (r: bool)
    ensures
        r == buttons@.contains(button),
{
    let mut i: usize = 0;
    while i < buttons.len()
        invariant
            i <= buttons.len(),
            forall|k: int| 0 <= k < i ==> buttons@[k] != button,
        decreases buttons.len() - i,
    {
        if buttons[i] == button {
            return true;
        }
        i = i + 1;
    }
    false
}

fn remove_key(keys: &mut Vec<i32>, vk: i32)
    ensures
        final(keys)@ == without(old(keys)@, vk),
{
    let ghost all = keys@;
    let ghost other = other_than(vk);
    let mut rest: Vec<i32> = Vec::new();
    let mut i: usize = 0;
    proof {
        reveal(Seq::filter);
        assert(all.take(0).filter(other) =~= Seq::<i32>::empty());
    }
    while i < keys.len()
        invariant
            i <= keys.len(),
            keys@ == all,
            other == other_than(vk),
            rest@ == all.take(i as int).filter(other),
        decreases keys.len() - i,
    {
        proof {
            reveal(Seq::filter);
            assert(all.take(i + 1).drop_last() =~= all.take(i as int));
        }
        if keys[i] != vk {
            rest.push(keys[i]);
        }
        i = i + 1;
    }
    proof {
        assert(all.take(i as int) =~= all);
    }
    *keys = rest;
}

fn remove_button(buttons: &mut Vec<MouseButton>, button: MouseButton)
    ensures
        final(buttons)@ == without(old(buttons)@, button),
{
    let ghost all = buttons@;
    let ghost other = other_than(button);
    let mut rest: Vec<MouseButton> = Vec::new();
    let mut i: usize = 0;
    proof {
        reveal(Seq::filter);
        assert(all.take(0).filter(other) =~= Seq::<MouseButton>::empty());
    }
    while i < buttons.len()
        invariant
            i <= buttons.len(),
            buttons@ == all,
            other == other_than(button),
            rest@ == all.take(i as int).filter(other),
        decreases buttons.len() - i,
    {
        proof {
            reveal(Seq::filter);
            assert(all.take(i + 1).drop_last() =~= all.take(i as int));
        }
        if buttons[i] != button {
            rest.push(buttons[i]);
        }
        i = i + 1;
    }
    proof {
        assert(all.take(i as int) =~= all);
    }
    *buttons = rest;
}

// ---------------------------------------------------------------------------
// The machine
// ---------------------------------------------------------------------------

/// What comes when a wait is over.
#[derive(Debug, Clone, Copy, PartialEq, Eq, Structural)]
pub enum AfterWait {
    Play { event: usize },
    NextLoop,
}

/// Where a playback stands.
#[derive(Debug, Clone, Copy, PartialEq, Eq, Structural)]
pub enum Phase {
    /// A loop is about to begin.
    LoopTop,
    /// A loop begins as soon as no pause is wanted.
    Gate,
    /// The delay of an event is next.
    EventTop { event: usize },
    /// A delay or the interval between loops is running.
    Waiting { wait: Wait, then: AfterWait },
    /// An event is next.
    EventSend { event: usize },
    /// A loop has ended.
    LoopEnd,
    /// Playback has ended, all of it or stopped before: what is held is let go.
    Releasing { completed: bool },
}

/// What is to be done next.
#[derive(Debug, Clone, Copy, PartialEq, Eq, Structural)]
pub enum PlayerAction {
    /// Ask again at once.
    Continue,
    /// Ask again after a millisecond.
    Sleep,
    /// Report that a loop begins: its number, and of how many where there is an end.
    LoopStarted { number: usize, total: Option<usize> },
    Send { input: PlayInput },
    /// Nothing is left to do.
    Finished { completed: bool },
}

/// What is to be done next, and whether a pause began or ended.
#[derive(Debug, Clone, Copy, PartialEq, Eq, Structural)]
pub struct PlayerStep {
    pub pause_changed: Option<bool>,
    pub action: PlayerAction,
}

/// A playback of a macro.
#[derive(Debug)]
pub struct PlayerRun {
    events: Vec<MacroEvent>,
    delays: Vec<i64>,
    total: Option<usize>,
    interval_ms: i32,
    number: usize,
    was_paused: bool,
    down_keys: Vec<i32>,
    pressed_buttons: Vec<MouseButton>,
    phase: Phase,
}

/// What a playback holds.
#[verifier::ext_equal]
pub struct PlayerView {
    pub events: Seq<MacroEvent>,
    /// The delay of each event in milliseconds, at the speed of the playback.
    pub delays: Seq<i64>,
    /// How many loops there are, unless there is no end.
    pub total: Option<usize>,
    pub interval_ms: i32,
    /// The loop that is played, counted from 1.
    pub number: usize,
    /// Whether a pause was reported last.
    pub was_paused: bool,
    pub held: Held,
    pub phase: Phase,
}

impl View for PlayerRun {
    type V = PlayerView;

    closed spec fn view(&self) -> PlayerView {
        PlayerView {
            events: self.events@,
            delays: self.delays@,
            total: self.total,
            interval_ms: self.interval_ms,
            number: self.number,
            was_paused: self.was_paused,
            held: Held { keys: self.down_keys@, buttons: self.pressed_buttons@ },
            phase: self.phase,
        }
    }
}

/// Whether an event of the macro is next.
pub open spec fn plays(v: PlayerView, event: usize) -> bool {
    event < v.events.len()
}

/// What always holds of a playback.
pub open spec fn sound(v: PlayerView) -> bool {
    &&& v.delays.len() == v.events.len()
    &&& v.events.len() <= usize::MAX
    &&& v.number >= 1
    &&& v.total matches Some(total) ==> v.number <= total
    &&& match v.phase {
        Phase::EventTop { event } => plays(v, event),
        Phase::EventSend { event } => plays(v, event),
        Phase::Waiting { wait, then } => v.events.len() > 0 && (then matches AfterWait::Play {
            event,
        } ==> plays(v, event)) && (then == AfterWait::NextLoop ==> v.total != Some(v.number)),
        Phase::Releasing { .. } => true,
        _ => v.events.len() > 0,
    }
}

/// A playback that has ended.
pub open spec fn ended(v: PlayerView, completed: bool) -> PlayerView {
    PlayerView { phase: Phase::Releasing { completed }, ..v }
}

/// A playback in another phase.
pub open spec fn at(v: PlayerView, phase: Phase) -> PlayerView {
    PlayerView { phase, ..v }
}

/// The number of the loop after one. Without end, the count begins anew after the largest.
pub open spec fn next_number(v: PlayerView) -> usize {
    if v.number == usize::MAX {
        1
    } else {
        (v.number + 1) as usize
    }
}

/// A playback whose next loop is about to begin.
pub open spec fn next_loop(v: PlayerView) -> PlayerView {
    PlayerView { number: next_number(v), phase: Phase::LoopTop, ..v }
}

/// Whether a pause began or ended since the last time.
pub open spec fn change(was: bool, is: bool) -> Option<bool> {
    if was == is {
        None
    } else {
        Some(is)
    }
}

/// A step that only acts.
pub open spec fn act(action: PlayerAction) -> PlayerStep {
    PlayerStep { pause_changed: None, action }
}

/// The phase in which an event was played and another is next, if there is one.
pub open spec fn after_event(v: PlayerView, event: usize) -> Phase {
    if event + 1 < v.events.len() {
        Phase::EventTop { event: (event + 1) as usize }
    } else {
        Phase::LoopEnd
    }
}

/// What is let go next, once playback has ended: the keys, then the buttons.
pub open spec fn release(v: PlayerView, completed: bool) -> (PlayerView, PlayerStep) {
    if v.held.keys.len() > 0 {
        (
            PlayerView { held: Held { keys: v.held.keys.drop_first(), ..v.held }, ..v },
            act(
                PlayerAction::Send {
                    input: PlayInput::Key { vk: v.held.keys[0], down: false },
                },
            ),
        )
    } else if v.held.buttons.len() > 0 {
        (
            PlayerView { held: Held { buttons: v.held.buttons.drop_first(), ..v.held }, ..v },
            act(
                PlayerAction::Send {
                    input: PlayInput::ReleaseButton { button: v.held.buttons[0] },
                },
            ),
        )
    } else {
        (v, act(PlayerAction::Finished { completed }))
    }
}

/// A playback after it was asked what to do next, and the answer.
pub open spec fn step(v: PlayerView, stop: bool, pause: bool, now: u64) -> (
    PlayerView,
    PlayerStep,
) {
    match v.phase {
        Phase::LoopTop => if stop {
            (ended(v, false), act(PlayerAction::Continue))
        } else {
            (at(v, Phase::Gate), act(PlayerAction::Continue))
        },
        Phase::Gate => {
            let seen = PlayerView { was_paused: pause, ..v };
            let pause_changed = change(v.was_paused, pause);
            if stop {
                (ended(seen, false), PlayerStep { pause_changed, action: PlayerAction::Continue })
            } else if pause {
                (seen, PlayerStep { pause_changed, action: PlayerAction::Sleep })
            } else {
                (
                    at(seen, Phase::EventTop { event: 0 }),
                    PlayerStep {
                        pause_changed,
                        action: PlayerAction::LoopStarted { number: v.number, total: v.total },
                    },
                )
            }
        },
        Phase::EventTop { event } => if stop {
            (ended(v, false), act(PlayerAction::Continue))
        } else if v.delays[event as int] > 0 {
            (
                at(
                    v,
                    Phase::Waiting {
                        wait: Wait {
                            ms: v.delays[event as int] as u64,
                            start: now,
                            paused: pause,
                            pause_start: None,
                            paused_for: 0,
                        },
                        then: AfterWait::Play { event },
                    },
                ),
                act(PlayerAction::Continue),
            )
        } else {
            (at(v, Phase::EventSend { event }), act(PlayerAction::Continue))
        },
        Phase::Waiting { wait, then } => {
            let polled = wait.spec_polled(pause, now);
            let pause_changed = change(wait.paused, pause);
            if stop {
                (ended(v, false), act(PlayerAction::Continue))
            } else if !polled.spec_over(now) {
                (
                    at(v, Phase::Waiting { wait: polled, then }),
                    PlayerStep { pause_changed, action: PlayerAction::Sleep },
                )
            } else {
                (
                    match then {
                        AfterWait::Play { event } => at(v, Phase::EventSend { event }),
                        AfterWait::NextLoop => next_loop(v),
                    },
                    PlayerStep { pause_changed, action: PlayerAction::Continue },
                )
            }
        },
        Phase::EventSend { event } => if stop {
            (ended(v, false), act(PlayerAction::Continue))
        } else {
            let e = v.events[event as int];
            (
                PlayerView { held: held_after(v.held, e), phase: after_event(v, event), ..v },
                act(
                    match input_for(v.held, e) {
                        Some(input) => PlayerAction::Send { input },
                        None => PlayerAction::Continue,
                    },
                ),
            )
        },
        Phase::LoopEnd => if v.total == Some(v.number) {
            (ended(v, true), act(PlayerAction::Continue))
        } else if v.interval_ms > 0 {
            (
                at(
                    v,
                    Phase::Waiting {
                        wait: Wait {
                            ms: v.interval_ms as u64,
                            start: now,
                            paused: pause,
                            pause_start: None,
                            paused_for: 0,
                        },
                        then: AfterWait::NextLoop,
                    },
                ),
                act(PlayerAction::Continue),
            )
        } else if stop {
            (ended(v, false), act(PlayerAction::Continue))
        } else {
            (next_loop(v), act(PlayerAction::Continue))
        },
        Phase::Releasing { completed } => release(v, completed),
    }
}

/// A playback that is about to begin. Without events it has already ended.
pub open spec fn begun(
    events: Seq<MacroEvent>,
    delays: Seq<i64>,
    options: PlaybackOptions,
) -> PlayerView {
    PlayerView {
        events,
        delays,
        total: if options.infinite {
            None
        } else {
            Some(options.spec_iterations())
        },
        interval_ms: options.interval_ms,
        number: 1,
        was_paused: false,
        held: Held { keys: Seq::empty(), buttons: Seq::empty() },
        phase: if events.len() == 0 {
            Phase::Releasing { completed: true }
        } else {
            Phase::LoopTop
        },
    }
}

impl PlayerRun {
    /// A playback of events. `delays` are the delays of the events at the speed of the
    /// playback.
    pub fn new(events: Vec<MacroEvent>, delays: Vec<i64>, options: PlaybackOptions) -> (r: Self)
        requires
            delays@.len() == events@.len(),
        ensures
            r@ == begun(events@, delays@, options),
            sound(r@),
    {
        let total: Option<usize> = if options.infinite {
            None
        } else {
            Some(options.effective_iterations())
        };
        let phase: Phase = if events.len() == 0 {
            Phase::Releasing { completed: true }
        } else {
            Phase::LoopTop
        };
        PlayerRun {
            events,
            delays,
            total,
            interval_ms: options.interval_ms,
            number: 1,
            was_paused: false,
            down_keys: Vec::new(),
            pressed_buttons: Vec::new(),
            phase,
        }
    }

    fn begin_next_loop(&mut self)
        requires
            old(self)@.total != Some(old(self)@.number),
            sound(old(self)@),
            old(self)@.events.len() > 0,
        ensures
            final(self)@ == next_loop(old(self)@),
            sound(final(self)@),
    {
        self.number = if self.number == usize::MAX {
            1
        } else {
            self.number + 1
        };
        self.phase = Phase::LoopTop;
    }

    fn play(&mut self, e: MacroEvent) -> (r: Option<PlayInput>)
        ensures
            r == input_for(old(self)@.held, e),
            final(self)@ == (PlayerView { held: held_after(old(self)@.held, e), ..old(self)@ }),
    {
        match e.event_type {
            MacroEventType::MouseMove => Some(PlayInput::Move { x: e.x, y: e.y }),
            MacroEventType::MouseDown => {
                if has_button(&self.pressed_buttons, e.button) {
                    None
                } else {
                    self.pressed_buttons.push(e.button);
                    Some(PlayInput::Button { button: e.button, down: true, x: e.x, y: e.y })
                }
            },
            MacroEventType::MouseUp => {
                remove_button(&mut self.pressed_buttons, e.button);
                Some(PlayInput::Button { button: e.button, down: false, x: e.x, y: e.y })
            },
            MacroEventType::MouseWheel => Some(PlayInput::Wheel { delta: e.wheel_delta }),
            MacroEventType::KeyDown => {
                if has_key(&self.down_keys, e.key_code) {
                    None
                } else {
                    self.down_keys.push(e.key_code);
                    Some(PlayInput::Key { vk: e.key_code, down: true })
                }
            },
            MacroEventType::KeyUp => {
                remove_key(&mut self.down_keys, e.key_code);
                Some(PlayInput::Key { vk: e.key_code, down: false })
            },
        }
    }

    fn release_stuck_input(&mut self, completed: bool) -> (r: PlayerStep)
        ensures
            (final(self)@, r) == release(old(self)@, completed),
    {
        let action: PlayerAction = if self.down_keys.len() > 0 {
            let vk: i32 = self.down_keys.remove(0);
            proof {
                assert(self.down_keys@ =~= old(self)@.held.keys.drop_first());
            }
            PlayerAction::Send { input: PlayInput::Key { vk, down: false } }
        } else if self.pressed_buttons.len() > 0 {
            let button: MouseButton = self.pressed_buttons.remove(0);
            proof {
                assert(self.pressed_buttons@ =~= old(self)@.held.buttons.drop_first());
            }
            PlayerAction::Send { input: PlayInput::ReleaseButton { button } }
        } else {
            PlayerAction::Finished { completed }
        };
        PlayerStep { pause_changed: None, action }
    }

    /// Asks what to do next. `stop` and `pause` say what is wanted, `now` is the time in
    /// nanoseconds.
    pub fn step(&mut self, stop: bool, pause: bool, now: u64) -> (r: PlayerStep)
        requires
            sound(old(self)@),
        ensures
            (final(self)@, r) == step(old(self)@, stop, pause, now),
            sound(final(self)@),
    {
        let mut pause_changed: Option<bool> = None;
        let mut action: PlayerAction = PlayerAction::Continue;
        match self.phase {
            Phase::LoopTop => {
                if stop {
                    self.phase = Phase::Releasing { completed: false };
                } else {
                    self.phase = Phase::Gate;
                }
            },
            Phase::Gate => {
                if pause != self.was_paused {
                    pause_changed = Some(pause);
                    self.was_paused = pause;
                }
                if stop {
                    self.phase = Phase::Releasing { completed: false };
                } else if pause {
                    action = PlayerAction::Sleep;
                } else {
                    action = PlayerAction::LoopStarted { number: self.number, total: self.total };
                    self.phase = Phase::EventTop { event: 0 };
                }
            },
            Phase::EventTop { event } => {
                let delay: i64 = self.delays[event];
                if stop {
                    self.phase = Phase::Releasing { completed: false };
                } else if delay > 0 {
                    let wait: Wait = Wait::begin(delay as u64, pause, now);
                    self.phase = Phase::Waiting { wait, then: AfterWait::Play { event } };
                } else {
                    self.phase = Phase::EventSend { event };
                }
            },
            Phase::Waiting { wait, then } => {
                if stop {
                    self.phase = Phase::Releasing { completed: false };
                } else {
                    let mut polled: Wait = wait;
                    let over: bool = polled.poll(pause, now);
                    if wait.paused != pause {
                        pause_changed = Some(pause);
                    }
                    if over {
                        match then {
                            AfterWait::Play { event } => {
                                self.phase = Phase::EventSend { event };
                            },
                            AfterWait::NextLoop => {
                                self.begin_next_loop();
                            },
                        }
                    } else {
                        self.phase = Phase::Waiting { wait: polled, then };
                        action = PlayerAction::Sleep;
                    }
                }
            },
            Phase::EventSend { event } => {
                if stop {
                    self.phase = Phase::Releasing { completed: false };
                } else {
                    let e: MacroEvent = self.events[event];
                    if let Some(input) = self.play(e) {
                        action = PlayerAction::Send { input };
                    }
                    self.phase = if event < self.events.len() - 1 {
                        Phase::EventTop { event: event + 1 }
                    } else {
                        Phase::LoopEnd
                    };
                }
            },
            Phase::LoopEnd => {
                let last: bool = match self.total {
                    Some(total) => total == self.number,
                    None => false,
                };
                if last {
                    self.phase = Phase::Releasing { completed: true };
                } else if self.interval_ms > 0 {
                    let wait: Wait = Wait::begin(self.interval_ms as u64, pause, now);
                    self.phase = Phase::Waiting { wait, then: AfterWait::NextLoop };
                } else if stop {
                    self.phase = Phase::Releasing { completed: false };
                } else {
                    self.begin_next_loop();
                }
            },
            Phase::Releasing { completed } => {
                return self.release_stuck_input(completed);
            },
        }
        PlayerStep { pause_changed, action }
    }
}

// ---------------------------------------------------------------------------
// What the system is handed
// ---------------------------------------------------------------------------

/// One input as the system takes it.
#[derive(Debug, Clone, Copy, PartialEq, Eq, Structural)]
pub enum SystemInput {
    Mouse { input: MouseInput },
    Key { vk: u16, up: bool },
}

/// The input that the system takes for a thing that playback does. Letting go of no button
/// is none.
pub open spec fn spec_system_input(input: PlayInput, screen: VirtualScreen) -> Option<SystemInput> {
    match input {
        PlayInput::Move { x, y } => Some(
            SystemInput::Mouse { input: hooks::input_at(x, y, screen, 0, hooks::MOUSEEVENTF_MOVE) },
        ),
        PlayInput::Button { button, down, x, y } => Some(
            SystemInput::Mouse {
                input: hooks::input_at(
                    x,
                    y,
                    screen,
                    hooks::x_data(button),
                    if down {
                        hooks::down_flag(button)
                    } else {
                        hooks::up_flag(button)
                    },
                ),
            },
        ),
        PlayInput::Wheel { delta } => Some(
            SystemInput::Mouse {
                input: MouseInput {
                    dx: 0,
                    dy: 0,
                    mouse_data: model::word(delta) as u32,
                    flags: MOUSEEVENTF_WHEEL,
                },
            },
        ),
        PlayInput::Key { vk, down } => Some(
            SystemInput::Key { vk: (model::word(vk) % 0x1_0000) as u16, up: !down },
        ),
        PlayInput::ReleaseButton { button } => if button == MouseButton::NoButton {
            None
        } else {
            Some(
                SystemInput::Mouse {
                    input: MouseInput {
                        dx: 0,
                        dy: 0,
                        mouse_data: hooks::x_data(button),
                        flags: hooks::up_flag(button),
                    },
                },
            )
        },
    }
}

/// Whether the point of an input, if it has one, lies where it can be computed with.
pub open spec fn on_screen(input: PlayInput, screen: VirtualScreen) -> bool {
    match input {
        PlayInput::Move { x, y } => screen.spec_fits(x, y),
        PlayInput::Button { x, y, .. } => screen.spec_fits(x, y),
        _ => true,
    }
}

/// The input that the system takes for a thing that playback does.
pub fn system_input(input: PlayInput, screen: VirtualScreen) -> (r: Option<SystemInput>)
    requires
        on_screen(input, screen),
    ensures
        r == spec_system_input(input, screen),
{
    match input {
        PlayInput::Move { x, y } => Some(
            SystemInput::Mouse { input: mouse_move_input(x, y, screen) },
        ),
        PlayInput::Button { button, down, x, y } => {
            let (dx, dy) = absolute_coords(x, y, screen);
            let (down_flag, up_flag, mouse_data) = button_flags(button);
            let flag: u32 = if down {
                down_flag
            } else {
                up_flag
            };
            Some(
                SystemInput::Mouse {
                    input: MouseInput { dx, dy, mouse_data, flags: ABSOLUTE_FLAGS + flag },
                },
            )
        },
        PlayInput::Wheel { delta } => Some(
            SystemInput::Mouse {
                input: MouseInput {
                    dx: 0,
                    dy: 0,
                    mouse_data: word_of(delta),
                    flags: MOUSEEVENTF_WHEEL,
                },
            },
        ),
        PlayInput::Key { vk, down } => Some(
            SystemInput::Key { vk: (word_of(vk) % 0x1_0000) as u16, up: !down },
        ),
        PlayInput::ReleaseButton { button } => {
            if button == MouseButton::NoButton {
                return None;
            }
            let (_, up_flag, mouse_data) = button_flags(button);
            Some(
                SystemInput::Mouse {
                    input: MouseInput { dx: 0, dy: 0, mouse_data, flags: up_flag },
                },
            )
        },
    }
}

/// Whether the point of an input, if it has one, lies where it can be computed with.
pub fn is_on_screen(input: PlayInput, screen: VirtualScreen) -> (r: bool)
    ensures
        r == on_screen(input, screen),
{
    match input {
        PlayInput::Move { x, y } => screen.fits(x, y),
        PlayInput::Button { x, y, .. } => screen.fits(x, y),
        _ => true,
    }
}

// ---------------------------------------------------------------------------
// Laws
// ---------------------------------------------------------------------------

/// What a playback is told when it is asked what to do next.
#[derive(Debug, Clone, Copy, PartialEq, Eq, Structural)]
pub struct Signals {
    pub stop: bool,
    pub pause: bool,
    pub now: u64,
}

/// The input that a step sends, if it sends one.
pub open spec fn sent_by(s: PlayerStep) -> Seq<PlayInput> {
    match s.action {
        PlayerAction::Send { input } => seq![input],
        _ => Seq::empty(),
    }
}

/// A playback after it was asked a number of times, and all that it has sent.
pub open spec fn trace(v: PlayerView, signals: Seq<Signals>) -> (PlayerView, Seq<PlayInput>)
    decreases signals.len(),
{
    if signals.len() == 0 {
        (v, Seq::empty())
    } else {
        let (before, sent) = trace(v, signals.drop_last());
        let last = signals.last();
        let (after, s) = step(before, last.stop, last.pause, last.now);
        (after, sent + sent_by(s))
    }
}

/// The keys that a series of inputs leaves down.
pub open spec fn keys_left(sent: Seq<PlayInput>) -> Set<i32>
    decreases sent.len(),
{
    if sent.len() == 0 {
        Set::empty()
    } else {
        let before = keys_left(sent.drop_last());
        match sent.last() {
            PlayInput::Key { vk, down } => if down {
                before.insert(vk)
            } else {
                before.remove(vk)
            },
            _ => before,
        }
    }
}

/// The buttons that a series of inputs leaves down.
pub open spec fn buttons_left(sent: Seq<PlayInput>) -> Set<MouseButton>
    decreases sent.len(),
{
    if sent.len() == 0 {
        Set::empty()
    } else {
        let before = buttons_left(sent.drop_last());
        match sent.last() {
            PlayInput::Button { button, down, .. } => if down {
                before.insert(button)
            } else {
                before.remove(button)
            },
            PlayInput::ReleaseButton { button } => before.remove(button),
            _ => before,
        }
    }
}

/// What is held, each thing once, is what a series of inputs has left down.
pub open spec fn accounts(h: Held, sent: Seq<PlayInput>) -> bool {
    &&& h.keys.no_duplicates()
    &&& h.buttons.no_duplicates()
    &&& forall|k: i32| #[trigger] h.keys.contains(k) <==> keys_left(sent).contains(k)
    &&& forall|b: MouseButton| #[trigger]
        h.buttons.contains(b) <==> buttons_left(sent).contains(b)
}

proof fn lemma_with<T>(list: Seq<T>, item: T)
    requires
        list.no_duplicates(),
    ensures
        with(list, item).no_duplicates(),
        forall|x: T| #[trigger] with(list, item).contains(x) <==> x == item || list.contains(x),
{
    let longer = list.push(item);
    assert forall|x: T| #[trigger]
        with(list, item).contains(x) <==> x == item || list.contains(x) by {
        if !list.contains(item) {
            if longer.contains(x) {
                let i = choose|i: int| 0 <= i < longer.len() && longer[i] == x;
                if i < list.len() {
                    assert(list[i] == x);
                }
            }
            if list.contains(x) {
                let i = choose|i: int| 0 <= i < list.len() && list[i] == x;
                assert(longer[i] == x);
            }
            assert(longer[list.len() as int] == item);
        }
    }
}

proof fn lemma_without<T>(list: Seq<T>, item: T)
    requires
        list.no_duplicates(),
    ensures
        without(list, item).no_duplicates(),
        forall|x: T| #[trigger] without(list, item).contains(x) <==> x != item && list.contains(x),
    decreases list.len(),
{
    reveal(Seq::filter);
    if list.len() > 0 {
        let rest = list.drop_last();
        lemma_without(rest, item);
        assert forall|x: T| #[trigger]
            without(list, item).contains(x) <==> x != item && list.contains(x) by {
            lemma_in_last(list, x);
            if list.last() != item {
                lemma_in_last(without(list, item), x);
                assert(without(list, item).drop_last() =~= without(rest, item));
            }
        }
        assert(!rest.contains(list.last())) by {
            if rest.contains(list.last()) {
                let i = choose|i: int| 0 <= i < rest.len() && rest[i] == list.last();
                assert(list[i] == list[list.len() - 1]);
            }
        }
        if list.last() != item {
            assert(!without(rest, item).contains(list.last()));
            lemma_with(without(rest, item), list.last());
        }
    }
}

proof fn lemma_in_last<T>(list: Seq<T>, x: T)
    requires
        list.len() > 0,
    ensures
        list.contains(x) <==> x == list.last() || list.drop_last().contains(x),
{
    if list.contains(x) {
        let i = choose|i: int| 0 <= i < list.len() && list[i] == x;
        if i < list.len() - 1 {
            assert(list.drop_last()[i] == x);
        }
    }
    if list.drop_last().contains(x) {
        let i = choose|i: int| 0 <= i < list.drop_last().len() && list.drop_last()[i] == x;
        assert(list[i] == x);
    }
    assert(list[list.len() - 1] == list.last());
}

proof fn lemma_drop_first<T>(list: Seq<T>)
    requires
        list.no_duplicates(),
        list.len() > 0,
    ensures
        list.drop_first().no_duplicates(),
        forall|x: T| #[trigger]
            list.drop_first().contains(x) <==> x != list[0] && list.contains(x),
{
    let rest = list.drop_first();
    assert forall|x: T| #[trigger] rest.contains(x) <==> x != list[0] && list.contains(x) by {
        if rest.contains(x) {
            let i = choose|i: int| 0 <= i < rest.len() && rest[i] == x;
            assert(list[i + 1] == x);
        }
        if list.contains(x) && x != list[0] {
            let i = choose|i: int| 0 <= i < list.len() && list[i] == x;
            assert(rest[i - 1] == x);
        }
    }
}

proof fn lemma_step_accounts(v: PlayerView, sent: Seq<PlayInput>, at: Signals)
    requires
        accounts(v.held, sent),
    ensures
        accounts(
            step(v, at.stop, at.pause, at.now).0.held,
            sent + sent_by(step(v, at.stop, at.pause, at.now).1),
        ),
{
    let (after, s) = step(v, at.stop, at.pause, at.now);
    let more = sent + sent_by(s);
    if sent_by(s).len() == 0 {
        assert(more =~= sent);
    } else {
        assert(more.drop_last() =~= sent);
        assert(more.last() == sent_by(s)[0]);
    }
    match v.phase {
        Phase::EventSend { event } => {
            let e = v.events[event as int];
            if !at.stop {
                match e.event_type {
                    MacroEventType::MouseDown => lemma_with(v.held.buttons, e.button),
                    MacroEventType::MouseUp => lemma_without(v.held.buttons, e.button),
                    MacroEventType::KeyDown => lemma_with(v.held.keys, e.key_code),
                    MacroEventType::KeyUp => lemma_without(v.held.keys, e.key_code),
                    _ => {},
                }
            }
        },
        Phase::Releasing { .. } => {
            if v.held.keys.len() > 0 {
                lemma_drop_first(v.held.keys);
            } else if v.held.buttons.len() > 0 {
                lemma_drop_first(v.held.buttons);
            }
        },
        _ => {},
    }
}

/// Playback keeps account of what it presses: at any time, the keys and buttons that it
/// counts as held are those that it has left down.
pub proof fn law_held_is_what_was_pressed(
    events: Seq<MacroEvent>,
    delays: Seq<i64>,
    options: PlaybackOptions,
    signals: Seq<Signals>,
)
    ensures
        ({
            let (v, sent) = trace(begun(events, delays, options), signals);
            accounts(v.held, sent)
        }),
    decreases signals.len(),
{
    if signals.len() > 0 {
        law_held_is_what_was_pressed(events, delays, options, signals.drop_last());
        let (v, sent) = trace(begun(events, delays, options), signals.drop_last());
        lemma_step_accounts(v, sent, signals.last());
    }
}

/// Nothing stays pressed: a playback that says that nothing is left to do has let go of every
/// key and button, whether it was stopped or has played everything.
pub proof fn law_nothing_stays_pressed(
    events: Seq<MacroEvent>,
    delays: Seq<i64>,
    options: PlaybackOptions,
    signals: Seq<Signals>,
    last: Signals,
)
    requires
        ({
            let (v, sent) = trace(begun(events, delays, options), signals);
            step(v, last.stop, last.pause, last.now).1.action is Finished
        }),
    ensures
        ({
            let (v, sent) = trace(begun(events, delays, options), signals);
            &&& keys_left(sent) == Set::<i32>::empty()
            &&& buttons_left(sent) == Set::<MouseButton>::empty()
        }),
{
    law_held_is_what_was_pressed(events, delays, options, signals);
    let (v, sent) = trace(begun(events, delays, options), signals);
    assert forall|k: i32| !keys_left(sent).contains(k) by {
        assert(!v.held.keys.contains(k));
    }
    assert forall|b: MouseButton| !buttons_left(sent).contains(b) by {
        assert(!v.held.buttons.contains(b));
    }
    assert(keys_left(sent) =~= Set::<i32>::empty());
    assert(buttons_left(sent) =~= Set::<MouseButton>::empty());
}

/// A stop is obeyed at once: unless a loop has just ended, the playback goes on to let go of
/// what is held, and sends no event more.
pub proof fn law_stop_is_obeyed(v: PlayerView, pause: bool, now: u64)
    requires
        !(v.phase is Releasing),
        v.phase != Phase::LoopEnd,
    ensures
        step(v, true, pause, now).0.phase == (Phase::Releasing { completed: false }),
        step(v, true, pause, now).0.held == v.held,
        sent_by(step(v, true, pause, now).1) == Seq::<PlayInput>::empty(),
{
}

/// A stop at the end of a loop is obeyed at once or, where the interval between loops comes
/// first, when next asked. At the end of the last loop everything was played.
pub proof fn law_stop_at_loop_end_is_obeyed(
    v: PlayerView,
    first_pause: bool,
    first: u64,
    pause: bool,
    now: u64,
)
    requires
        v.phase == Phase::LoopEnd,
    ensures
        ({
            let once = step(v, true, first_pause, first).0;
            let twice = step(once, true, pause, now).0;
            if v.total == Some(v.number) {
                once.phase == (Phase::Releasing { completed: true })
            } else {
                ||| once.phase == (Phase::Releasing { completed: false })
                ||| twice.phase == (Phase::Releasing { completed: false })
            }
        }),
{
}

/// Letting go comes to an end: each step lets go of one thing, until nothing is left.
pub proof fn law_release_ends(v: PlayerView, stop: bool, pause: bool, now: u64)
    requires
        v.phase is Releasing,
    ensures
        ({
            let (after, s) = step(v, stop, pause, now);
            &&& after.phase == v.phase
            &&& if s.action is Finished {
                after == v
            } else {
                after.held.keys.len() + after.held.buttons.len() + 1 == v.held.keys.len()
                    + v.held.buttons.len()
            }
        }),
{
}

/// What is held, and all that was sent, once a number of whole loops and then a number of
/// events of the next one were played.
pub open spec fn played(events: Seq<MacroEvent>, loops: nat, count: nat) -> (Held, Seq<PlayInput>)
    decreases loops, count,
{
    if count > 0 {
        let (h, sent) = played(events, loops, (count - 1) as nat);
        let e = events[count - 1];
        (
            held_after(h, e),
            match input_for(h, e) {
                Some(input) => sent.push(input),
                None => sent,
            },
        )
    } else if loops > 0 {
        played(events, (loops - 1) as nat, events.len())
    } else {
        (Held { keys: Seq::empty(), buttons: Seq::empty() }, Seq::empty())
    }
}

/// Whether some inputs only let things go.
pub open spec fn only_releases(sent: Seq<PlayInput>) -> bool {
    forall|i: int|
        0 <= i < sent.len() ==> match #[trigger] sent[i] {
            PlayInput::Key { down, .. } => !down,
            PlayInput::ReleaseButton { .. } => true,
            _ => false,
        }
}

/// Whether a playback has sent just what the macro asks for: whole loops, a number of events
/// of the next one, and then only releases.
pub open spec fn follows(
    v: PlayerView,
    sent: Seq<PlayInput>,
    loops: nat,
    count: nat,
    released: Seq<PlayInput>,
) -> bool {
    let (h, script) = played(v.events, loops, count);
    &&& count <= v.events.len()
    &&& sent == script + released
    &&& only_releases(released)
    &&& match v.phase {
        Phase::Releasing { completed } => completed ==> v.events.len() == 0 || (count
            == v.events.len() && v.total == Some((loops + 1) as usize) && loops < usize::MAX),
        _ => {
            &&& released.len() == 0
            &&& v.held == h
            &&& v.total is Some ==> loops + 1 == v.number
            &&& count == match v.phase {
                Phase::EventTop { event } => event as nat,
                Phase::EventSend { event } => event as nat,
                Phase::Waiting { then: AfterWait::Play { event }, .. } => event as nat,
                Phase::Waiting { then: AfterWait::NextLoop, .. } => v.events.len(),
                Phase::LoopEnd => v.events.len(),
                _ => 0,
            }
        },
    }
}

/// What always holds of a playback holds after each step.
pub proof fn lemma_step_stays_sound(v: PlayerView, at: Signals)
    requires
        sound(v),
    ensures
        sound(step(v, at.stop, at.pause, at.now).0),
{
}

proof fn lemma_step_follows(
    v: PlayerView,
    sent: Seq<PlayInput>,
    at: Signals,
    loops: nat,
    count: nat,
    released: Seq<PlayInput>,
) -> (r: (nat, nat, Seq<PlayInput>))
    requires
        sound(v),
        follows(v, sent, loops, count, released),
    ensures
        sound(step(v, at.stop, at.pause, at.now).0),
        step(v, at.stop, at.pause, at.now).0.events == v.events,
        step(v, at.stop, at.pause, at.now).0.total == v.total,
        follows(
            step(v, at.stop, at.pause, at.now).0,
            sent + sent_by(step(v, at.stop, at.pause, at.now).1),
            r.0,
            r.1,
            r.2,
        ),
{
    let (after, s) = step(v, at.stop, at.pause, at.now);
    let more = sent + sent_by(s);
    let script = played(v.events, loops, count).1;
    if sent_by(s).len() == 0 {
        assert(more =~= sent);
    }
    match v.phase {
        Phase::Releasing { .. } => {
            let rel = released + sent_by(s);
            assert(more =~= script + rel);
            assert(only_releases(rel));
            (loops, count, rel)
        },
        Phase::EventSend { event } => {
            if at.stop {
                (loops, count, released)
            } else {
                let next = played(v.events, loops, count + 1);
                assert(more =~= next.1 + Seq::<PlayInput>::empty());
                (loops, count + 1, Seq::empty())
            }
        },
        _ => {
            if after.phase == Phase::LoopTop {
                (loops + 1, 0, released)
            } else {
                (loops, count, released)
            }
        },
    }
}

proof fn lemma_trace_follows(
    events: Seq<MacroEvent>,
    delays: Seq<i64>,
    options: PlaybackOptions,
    signals: Seq<Signals>,
) -> (r: (nat, nat, Seq<PlayInput>))
    requires
        delays.len() == events.len() <= usize::MAX,
    ensures
        ({
            let (v, sent) = trace(begun(events, delays, options), signals);
            &&& sound(v)
            &&& v.events == events
            &&& v.total == begun(events, delays, options).total
            &&& follows(v, sent, r.0, r.1, r.2)
        }),
    decreases signals.len(),
{
    if signals.len() == 0 {
        assert(follows(
            begun(events, delays, options),
            Seq::empty(),
            0,
            0,
            Seq::<PlayInput>::empty(),
        ));
        (0, 0, Seq::empty())
    } else {
        let (loops, count, released) = lemma_trace_follows(
            events,
            delays,
            options,
            signals.drop_last(),
        );
        let (v, sent) = trace(begun(events, delays, options), signals.drop_last());
        lemma_step_follows(v, sent, signals.last(), loops, count, released)
    }
}

/// Playback sends what the macro says and nothing else: whatever it is told, all that it has
/// sent are the events of whole loops and a number of events of the next loop, each in order,
/// and after that only releases.
pub proof fn law_playback_follows_the_macro(
    events: Seq<MacroEvent>,
    delays: Seq<i64>,
    options: PlaybackOptions,
    signals: Seq<Signals>,
)
    requires
        delays.len() == events.len() <= usize::MAX,
    ensures
        ({
            let (v, sent) = trace(begun(events, delays, options), signals);
            exists|loops: nat, count: nat, released: Seq<PlayInput>|
                {
                    &&& count <= events.len()
                    &&& #[trigger] only_releases(released)
                    &&& sent == (#[trigger] played(events, loops, count)).1 + released
                }
        }),
{
    let (loops, count, released) = lemma_trace_follows(events, delays, options, signals);
    let (v, sent) = trace(begun(events, delays, options), signals);
    assert(only_releases(released));
    assert(sent == played(events, loops, count).1 + released);
}

/// A playback that ends as completed has played the macro as many times as was asked for.
pub proof fn law_completed_playback_played_everything(
    events: Seq<MacroEvent>,
    delays: Seq<i64>,
    options: PlaybackOptions,
    signals: Seq<Signals>,
)
    requires
        delays.len() == events.len() <= usize::MAX,
        events.len() > 0,
        trace(begun(events, delays, options), signals).0.phase == (Phase::Releasing {
            completed: true,
        }),
    ensures
        !options.infinite,
        ({
            let (v, sent) = trace(begun(events, delays, options), signals);
            let all = played(events, (options.spec_iterations() - 1) as nat, events.len()).1;
            &&& all.is_prefix_of(sent)
            &&& only_releases(sent.skip(all.len() as int))
        }),
{
    let (loops, count, released) = lemma_trace_follows(events, delays, options, signals);
    let (v, sent) = trace(begun(events, delays, options), signals);
    let all = played(events, (options.spec_iterations() - 1) as nat, events.len()).1;
    assert(sent == all + released);
    assert(all.is_prefix_of(sent));
    assert(sent.skip(all.len() as int) =~= released);
}

/// A macro is played as it says: at its speed, as often and with the interval that it names.
pub proof fn law_macro_is_played_as_it_says(d: &MacroData)
    ensures
        ({
            let options = <PlaybackOptions as vstd::std_specs::convert::FromSpec<
                &MacroData,
            >>::from_spec(d);
            &&& options.speed == d.speed
            &&& options.loop_count == d.loop_count
            &&& options.infinite == d.infinite_loop
            &&& options.interval_ms == d.interval_ms
        }),
{
}

/// A macro is played at least once, as often as was chosen, and without end as often as can be
/// counted.
pub proof fn law_iterations_are_as_chosen(o: &PlaybackOptions, r: usize)
    requires
        call_ensures(PlaybackOptions::effective_iterations, (o,), r),
    ensures
        r >= 1,
        o.infinite ==> r == usize::MAX,
        !o.infinite && o.loop_count >= 1 ==> r == o.loop_count,
        !o.infinite && o.loop_count < 1 ==> r == 1,
{
}

/// What the system is handed says what playback does: a key with its number, down or up; the
/// wheel with its turn; a move or a button at its point of the screen, with the flags of that
/// button for a press or a release. Letting a button go does not move the mouse.
pub proof fn law_system_is_handed_what_is_played(
    input: PlayInput,
    screen: VirtualScreen,
    r: Option<SystemInput>,
)
    requires
        on_screen(input, screen),
        call_ensures(system_input, (input, screen), r),
    ensures
        r is None <==> input == (PlayInput::ReleaseButton { button: MouseButton::NoButton }),
        match input {
            PlayInput::Key { vk, down } => {
                &&& r matches Some(SystemInput::Key { vk: k, up }) && up == !down && (k - vk) % 0x1_0000
                    == 0
            },
            PlayInput::Wheel { delta } => {
                &&& r matches Some(SystemInput::Mouse { input: m }) && m.flags == 0x0800 && m.dx == 0
                    && m.dy == 0 && (m.mouse_data == delta || m.mouse_data == delta
                    + 0x1_0000_0000)
            },
            PlayInput::Move { x, y } => {
                &&& r matches Some(SystemInput::Mouse { input: m }) && hooks::laws::is_at(
                    m,
                    x,
                    y,
                    screen,
                ) && m.flags == 0xC001 && m.mouse_data == 0
            },
            PlayInput::Button { button, down, x, y } => {
                &&& r matches Some(SystemInput::Mouse { input: m }) && hooks::laws::is_at(
                    m,
                    x,
                    y,
                    screen,
                ) && m.mouse_data == hooks::x_data(button) && m.flags == 0xC000 + (if down {
                    hooks::down_flag(button)
                } else {
                    hooks::up_flag(button)
                })
            },
            PlayInput::ReleaseButton { button } => r matches Some(SystemInput::Mouse { input: m })
                ==> m.dx == 0 && m.dy == 0 && m.flags == hooks::up_flag(button) && m.mouse_data
                == hooks::x_data(button),
        },
{
}

/// A playback begins once: while one runs another start does nothing, and one that begins is
/// neither stopped nor paused from before.
pub proof fn law_playback_begins_once(p: &mut MacroPlayer, r: bool)
    requires
        call_ensures(MacroPlayer::start, (p,), r),
    ensures
        final(p).running,
        r == !old(p).running,
        r ==> !final(p).stop_flag && !final(p).pause_flag,
        !r ==> *final(p) == *old(p),
{
}

/// Pausing a playback that runs and letting it go on leave it as if it had not been paused,
/// and so does turning the pause on and off again. One that does not run cannot be paused.
pub proof fn law_pause_and_resume(
    paused: &mut MacroPlayer,
    resumed: &mut MacroPlayer,
    once: &mut MacroPlayer,
    twice: &mut MacroPlayer,
)
    requires
        call_ensures(MacroPlayer::pause, (paused,), ()),
        *old(resumed) == *final(paused),
        call_ensures(MacroPlayer::resume, (resumed,), ()),
        call_ensures(MacroPlayer::toggle_pause, (once,), ()),
        *old(twice) == *final(once),
        call_ensures(MacroPlayer::toggle_pause, (twice,), ()),
    ensures
        old(paused).running ==> final(paused).pause_flag && !final(resumed).pause_flag,
        old(paused).running && !old(paused).pause_flag ==> *final(resumed) == *old(paused),
        !old(paused).running ==> *final(resumed) == *old(paused) && *final(paused) == *old(paused),
        old(once).running ==> final(once).pause_flag != old(once).pause_flag,
        *final(twice) == *old(once),
        final(paused).stop_flag == old(paused).stop_flag,
        final(once).stop_flag == old(once).stop_flag && final(once).running == old(once).running,
{
}

/// A stop is asked for, ends a pause, and stays asked for when the playback has ended.
pub proof fn law_stop_ends_a_pause(stopped: &mut MacroPlayer, ended: &mut MacroPlayer)
    requires
        call_ensures(MacroPlayer::stop, (stopped,), ()),
        *old(ended) == *final(stopped),
        call_ensures(MacroPlayer::finished, (ended,), ()),
    ensures
        final(stopped).stop_flag && !final(stopped).pause_flag,
        final(stopped).running == old(stopped).running,
        !final(ended).running && final(ended).stop_flag,
{
}

} // verus!
