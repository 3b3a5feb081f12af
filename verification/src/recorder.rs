//! The recorder: turns raw input samples into the events of a macro.
//!
//! A move to where the mouse already is and the auto-repeat of a key that is down are dropped.
//! Their time goes into the delay of the next event that is kept. The program's own hotkeys
//! are not recorded, nor are the modifier presses that lead up to them. A press that stays in
//! the recording is followed by its release there, even while a hotkey is held.

pub mod transcript;

use std::collections::HashSet;

use vstd::prelude::*;

use crate::config::{HotkeyCombo, SettingsBindings};
use crate::hooks;
use crate::hooks::{signed_of, CapturedEvent};
use crate::keys;
use crate::model;
use crate::model::{MacroData, MacroEvent, MacroEventType, MouseButton};

verus! {

broadcast use vstd::std_specs::hash::group_hash_axioms;

/// Nanoseconds in a millisecond.
pub const NANOS_PER_MS: u64 = 1_000_000;

/// Turns raw input samples into the events of a macro.
#[derive(Debug)]
pub struct Recorder {
    events: Vec<MacroEvent>,
    /// When each of the events came, in nanoseconds.
    times: Vec<u64>,
    /// The moment from which the delay of the first event counts.
    start_ns: u64,
    /// The keys that are down, whether their presses were recorded or not.
    down_keys: HashSet<i32>,
    /// The keys that are down, without those whose presses belong to a hotkey.
    held_keys: HashSet<i32>,
    last_pos: Option<(i32, i32)>,
    suppressed_combos: Vec<HotkeyCombo>,
    /// The key of the hotkey that is being held, if one is.
    suppressed_key: Option<i32>,
}

/// What a recorder holds.
#[verifier::ext_equal]
pub struct RecorderView {
    pub events: Seq<MacroEvent>,
    pub times: Seq<nat>,
    pub start: nat,
    pub down: Set<i32>,
    pub held: Set<i32>,
    pub last_pos: Option<(i32, i32)>,
    pub combos: Seq<HotkeyCombo>,
    pub suppressed: Option<i32>,
}

/// Moments as natural numbers.
pub open spec fn as_nats(times: Seq<u64>) -> Seq<nat> {
    times.map_values(|t: u64| t as nat)
}

impl View for Recorder {
    type V = RecorderView;

    closed spec fn view(&self) -> RecorderView {
        RecorderView {
            events: self.events@,
            times: as_nats(self.times@),
            start: self.start_ns as nat,
            down: self.down_keys@,
            held: self.held_keys@,
            last_pos: self.last_pos,
            combos: self.suppressed_combos@,
            suppressed: self.suppressed_key,
        }
    }
}

// ---------------------------------------------------------------------------
// What a sample does
// ---------------------------------------------------------------------------

/// The whole milliseconds since a moment, as far as a delay can hold them.
pub open spec fn delay_since(anchor: nat, now: nat) -> int {
    if now <= anchor {
        0
    } else {
        model::clamp((now - anchor) / NANOS_PER_MS as int, 0, i32::MAX as int)
    }
}

/// The moment from which the next delay counts: when the last event came or, without one, the
/// start.
pub open spec fn anchor(v: RecorderView) -> nat {
    if v.times.len() == 0 {
        v.start
    } else {
        v.times.last()
    }
}

/// A recorder with another event at the end.
pub open spec fn with_event(v: RecorderView, e: MacroEvent, now: nat) -> RecorderView {
    RecorderView {
        events: v.events.push(MacroEvent { delay_ms: delay_since(anchor(v), now) as i32, ..e }),
        times: v.times.push(now),
        ..v
    }
}

/// A recorder that has kept an event, unless a hotkey is being held.
pub open spec fn kept(v: RecorderView, e: MacroEvent, now: nat) -> RecorderView {
    if v.suppressed is Some {
        v
    } else {
        with_event(v, e, now)
    }
}

/// A recorder whose events were handed out. The next delay counts from the last of them.
pub open spec fn emptied(v: RecorderView) -> RecorderView {
    RecorderView { events: Seq::empty(), times: Seq::empty(), start: anchor(v), ..v }
}

/// An event of the mouse at a point.
pub open spec fn mouse_at(
    event_type: MacroEventType,
    button: MouseButton,
    x: i32,
    y: i32,
) -> MacroEvent {
    MacroEvent {
        event_type,
        x,
        y,
        button,
        key_code: 0,
        scan_code: 0,
        wheel_delta: 0,
        delay_ms: 0,
    }
}

/// A turn of the wheel.
pub open spec fn wheel_turn(delta: i32) -> MacroEvent {
    MacroEvent {
        event_type: MacroEventType::MouseWheel,
        x: 0,
        y: 0,
        button: MouseButton::NoButton,
        key_code: 0,
        scan_code: 0,
        wheel_delta: delta,
        delay_ms: 0,
    }
}

/// An event of a key.
pub open spec fn key_event(event_type: MacroEventType, vk: i32, scan_code: u32) -> MacroEvent {
    MacroEvent {
        event_type,
        x: 0,
        y: 0,
        button: MouseButton::NoButton,
        key_code: vk,
        scan_code: hooks::signed(scan_code),
        wheel_delta: 0,
        delay_ms: 0,
    }
}

/// Whether an event is a press of a modifier that belongs to a hotkey.
pub open spec fn is_prefix_press(modifiers: i32, e: MacroEvent) -> bool {
    e.event_type == MacroEventType::KeyDown && keys::is_modifier_of(modifiers, e.key_code)
}

/// Where the unbroken run of a hotkey's modifier presses at the end of the events begins.
pub open spec fn run_start(events: Seq<MacroEvent>, modifiers: i32) -> nat
    decreases events.len(),
{
    if events.len() > 0 && is_prefix_press(modifiers, events.last()) {
        run_start(events.drop_last(), modifiers)
    } else {
        events.len()
    }
}

/// The keys of events.
pub open spec fn keys_of(events: Seq<MacroEvent>) -> Set<i32>
    decreases events.len(),
{
    if events.len() == 0 {
        Set::empty()
    } else {
        keys_of(events.drop_last()).insert(events.last().key_code)
    }
}

/// The first items of a list, or all of a shorter one.
pub open spec fn cut_to<T>(list: Seq<T>, len: int) -> Seq<T> {
    if len <= list.len() {
        list.take(len)
    } else {
        list
    }
}

/// A recorder after a hotkey's modifier presses were taken back. The next delay counts from
/// the last event that stays.
pub open spec fn rolled_back(v: RecorderView, modifiers: i32) -> RecorderView {
    let cut = run_start(v.events, modifiers) as int;
    RecorderView {
        events: v.events.take(cut),
        times: cut_to(v.times, cut),
        held: v.held.difference(keys_of(v.events.skip(cut))),
        ..v
    }
}

/// Whether a press of a key completes a hotkey, given the keys that are down with it.
pub open spec fn completes(combo: HotkeyCombo, vk: i32, down: Set<i32>) -> bool {
    combo.key == vk && keys::modifiers_match(combo.modifiers, down)
}

/// The first of the hotkeys that a press completes.
pub open spec fn completed(combos: Seq<HotkeyCombo>, vk: i32, down: Set<i32>) -> Option<HotkeyCombo>
    decreases combos.len(),
{
    if combos.len() == 0 {
        None
    } else if completes(combos[0], vk, down) {
        Some(combos[0])
    } else {
        completed(combos.skip(1), vk, down)
    }
}

/// Whether the last event of a key among some events is its press.
pub open spec fn open_in(events: Seq<MacroEvent>, vk: i32) -> bool
    decreases events.len(),
{
    if events.len() == 0 {
        false
    } else if events.last().key_code == vk && events.last().event_type
        == MacroEventType::KeyDown {
        true
    } else if events.last().key_code == vk && events.last().event_type == MacroEventType::KeyUp {
        false
    } else {
        open_in(events.drop_last(), vk)
    }
}

/// A recorder after a sample that came at a time, in nanoseconds.
pub open spec fn step(v: RecorderView, ev: CapturedEvent, now: nat) -> RecorderView {
    match ev {
        CapturedEvent::MouseMove { x, y } => {
            if v.last_pos == Some((x, y)) {
                v
            } else {
                RecorderView {
                    last_pos: Some((x, y)),
                    ..kept(v, mouse_at(MacroEventType::MouseMove, MouseButton::NoButton, x, y), now)
                }
            }
        },
        CapturedEvent::MouseDown { button, x, y } => RecorderView {
            last_pos: Some((x, y)),
            ..kept(v, mouse_at(MacroEventType::MouseDown, button, x, y), now)
        },
        CapturedEvent::MouseUp { button, x, y } => RecorderView {
            last_pos: Some((x, y)),
            ..kept(v, mouse_at(MacroEventType::MouseUp, button, x, y), now)
        },
        CapturedEvent::MouseWheel { delta } => kept(v, wheel_turn(delta), now),
        CapturedEvent::KeyDown { vk, scan_code } => {
            let with = RecorderView { down: v.down.insert(vk), held: v.held.insert(vk), ..v };
            if v.down.contains(vk) {
                v
            } else {
                match completed(v.combos, vk, with.down) {
                    Some(combo) => {
                        let back = rolled_back(with, combo.modifiers);
                        RecorderView { held: back.held.remove(vk), suppressed: Some(vk), ..back }
                    },
                    None => kept(with, key_event(MacroEventType::KeyDown, vk, scan_code), now),
                }
            }
        },
        CapturedEvent::KeyUp { vk, scan_code } => {
            let without = RecorderView {
                down: v.down.remove(vk),
                held: v.held.remove(vk),
                ..v
            };
            let release = key_event(MacroEventType::KeyUp, vk, scan_code);
            if v.suppressed == Some(vk) {
                RecorderView { suppressed: None, ..without }
            } else if v.suppressed is Some {
                if open_in(v.events, vk) {
                    with_event(without, release, now)
                } else {
                    without
                }
            } else if v.held.contains(vk) {
                with_event(without, release, now)
            } else {
                without
            }
        },
    }
}

/// A recorder after a series of samples with the times at which they came.
pub open spec fn run(v: RecorderView, samples: Seq<(CapturedEvent, u64)>) -> RecorderView
    decreases samples.len(),
{
    if samples.len() == 0 {
        v
    } else {
        step(run(v, samples.drop_last()), samples.last().0, samples.last().1 as nat)
    }
}

/// The hotkeys among some combinations: those that have a key.
pub open spec fn with_key(combos: Seq<HotkeyCombo>) -> Seq<HotkeyCombo> {
    combos.filter(|c: HotkeyCombo| c.key != 0)
}

/// The hotkeys that are not recorded.
pub open spec fn combos_of(hotkeys: Option<SettingsBindings>) -> Seq<HotkeyCombo> {
    match hotkeys {
        Some(hk) => with_key(seq![hk.record, hk.play, hk.stop]),
        None => Seq::empty(),
    }
}

/// A recorder whose recording begins.
pub open spec fn fresh(combos: Seq<HotkeyCombo>, now: nat) -> RecorderView {
    RecorderView {
        events: Seq::empty(),
        times: Seq::empty(),
        start: now,
        down: Set::empty(),
        held: Set::empty(),
        last_pos: None,
        combos,
        suppressed: None,
    }
}

// ---------------------------------------------------------------------------
// The recorder
// ---------------------------------------------------------------------------

/// The whole milliseconds since a moment, as far as a delay can hold them.
fn delay_ms_since(anchor: u64, now: u64) -> (r: i32)
    ensures
        r == delay_since(anchor as nat, now as nat),
{
    if now <= anchor {
        return 0;
    }
    let ms: u64 = (now - anchor) / NANOS_PER_MS;
    if ms > 0x7fff_ffff {
        i32::MAX
    } else {
        ms as i32
    }
}

/// An event of a key.
fn key_event_of(event_type: MacroEventType, vk: i32, scan_code: u32) -> (r: MacroEvent)
    ensures
        r == key_event(event_type, vk, scan_code),
{
    MacroEvent {
        event_type,
        x: 0,
        y: 0,
        button: MouseButton::NoButton,
        key_code: vk,
        scan_code: signed_of(scan_code),
        wheel_delta: 0,
        delay_ms: 0,
    }
}

impl Recorder {
    /// A recorder whose recording begins now, in nanoseconds.
    pub fn new(now: u64) -> (r: Self)
        ensures
            r@ == fresh(Seq::empty(), now as nat),
    {
        let r: Recorder = Recorder {
            events: Vec::new(),
            times: Vec::new(),
            start_ns: now,
            down_keys: HashSet::new(),
            held_keys: HashSet::new(),
            last_pos: None,
            suppressed_combos: Vec::new(),
            suppressed_key: None,
        };
        assert(r@.times =~= Seq::<nat>::empty());
        r
    }

    /// Begins a recording anew. The hotkeys that start and stop recording and playback are
    /// not recorded.
    pub fn reset(&mut self, hotkeys: Option<&SettingsBindings>, now: u64)
        ensures
            final(self)@ == fresh(
                combos_of(
                    match hotkeys {
                        Some(hk) => Some(*hk),
                        None => None,
                    },
                ),
                now as nat,
            ),
    {
        self.events.clear();
        self.times.clear();
        self.start_ns = now;
        self.down_keys.clear();
        self.held_keys.clear();
        self.last_pos = None;
        assert(self@.times =~= Seq::<nat>::empty());
        self.suppressed_key = None;
        self.suppressed_combos.clear();
        if let Some(hk) = hotkeys {
            proof {
                let keep = |c: HotkeyCombo| c.key != 0;
                reveal(Seq::filter);
                let s1 = seq![hk.record];
                let s2 = seq![hk.record, hk.play];
                let s3 = seq![hk.record, hk.play, hk.stop];
                assert(s1.drop_last() =~= Seq::<HotkeyCombo>::empty());
                assert(s2.drop_last() =~= s1);
                assert(s3.drop_last() =~= s2);
                assert(Seq::<HotkeyCombo>::empty().filter(keep) =~= Seq::<HotkeyCombo>::empty());
                assert(s1.filter(keep).len() <= 1);
                assert(s2.filter(keep).len() <= 2);
            }
            if hk.record.key != 0 {
                self.suppressed_combos.push(hk.record);
            }
            if hk.play.key != 0 {
                self.suppressed_combos.push(hk.play);
            }
            if hk.stop.key != 0 {
                self.suppressed_combos.push(hk.stop);
            }
        }
    }

    pub fn event_count(&self) -> (r: usize)
        ensures
            r == self@.events.len(),
    {
        self.events.len()
    }

    pub fn events(&self) -> (r: &Vec<MacroEvent>)
        ensures
            r@ == self@.events,
    {
        &self.events
    }

    /// The macro of the recorded events, with default settings.
    pub fn into_macro_data(self) -> (r: MacroData)
        ensures
            r@ == model::plain_macro(self@.events),
    {
        MacroData::of_events(self.events)
    }

    /// Hands the recorded events out, and keeps none.
    pub fn take_events(&mut self) -> (r: Vec<MacroEvent>)
        ensures
            r@ == old(self)@.events,
            final(self)@ == emptied(old(self)@),
    {
        let mut events: Vec<MacroEvent> = Vec::new();
        std::mem::swap(&mut events, &mut self.events);
        self.start_ns = self.anchor_ns();
        self.times.clear();
        assert(self@.times =~= Seq::<nat>::empty());
        events
    }

    /// The moment from which the next delay counts.
    fn anchor_ns(&self) -> (r: u64)
        ensures
            r == anchor(self@),
    {
        if self.times.len() == 0 {
            self.start_ns
        } else {
            self.times[self.times.len() - 1]
        }
    }

    /// Takes the samples that have come in, each with its time. Returns the number of
    /// recorded events after each of them.
    pub fn drain_receiver(&mut self, samples: &Vec<(CapturedEvent, u64)>) -> (counts: Vec<usize>)
        ensures
            final(self)@ == run(old(self)@, samples@),
            counts@.len() == samples@.len(),
            forall|i: int|
                0 <= i < samples@.len() ==> #[trigger] counts@[i] == run(
                    old(self)@,
                    samples@.take(i + 1),
                ).events.len(),
    {
        let mut counts: Vec<usize> = Vec::new();
        let mut i: usize = 0;
        let ghost start = self@;
        proof {
            assert(samples@.take(0) =~= Seq::<(CapturedEvent, u64)>::empty());
        }
        while i < samples.len()
            invariant
                i <= samples.len(),
                self@ == run(start, samples@.take(i as int)),
                counts@.len() == i,
                forall|k: int|
                    0 <= k < i ==> #[trigger] counts@[k] == run(
                        start,
                        samples@.take(k + 1),
                    ).events.len(),
            decreases samples.len() - i,
        {
            let (ev, at) = samples[i];
            self.handle_captured(ev, at);
            proof {
                assert(samples@.take(i + 1).drop_last() =~= samples@.take(i as int));
            }
            counts.push(self.events.len());
            i = i + 1;
        }
        proof {
            assert(samples@.take(i as int) =~= samples@);
        }
        counts
    }

    /// Takes one sample, which came at a time in nanoseconds.
    pub fn handle_captured(&mut self, ev: CapturedEvent, now: u64)
        ensures
            final(self)@ == step(old(self)@, ev, now as nat),
    {
        match ev {
            CapturedEvent::MouseMove { x, y } => {
                if let Some((last_x, last_y)) = self.last_pos {
                    if last_x == x && last_y == y {
                        return;
                    }
                }
                self.record_mouse(MacroEventType::MouseMove, MouseButton::NoButton, x, y, now);
                self.last_pos = Some((x, y));
            },
            CapturedEvent::MouseDown { button, x, y } => {
                self.record_mouse(MacroEventType::MouseDown, button, x, y, now);
                self.last_pos = Some((x, y));
            },
            CapturedEvent::MouseUp { button, x, y } => {
                self.record_mouse(MacroEventType::MouseUp, button, x, y, now);
                self.last_pos = Some((x, y));
            },
            CapturedEvent::MouseWheel { delta } => {
                let e: MacroEvent = MacroEvent {
                    event_type: MacroEventType::MouseWheel,
                    x: 0,
                    y: 0,
                    button: MouseButton::NoButton,
                    key_code: 0,
                    scan_code: 0,
                    wheel_delta: delta,
                    delay_ms: 0,
                };
                self.record(e, now);
            },
            CapturedEvent::KeyDown { vk, scan_code } => {
                if self.down_keys.contains(&vk) {
                    return;
                }
                self.down_keys.insert(vk);
                self.held_keys.insert(vk);
                if self.handle_suppression(vk) {
                    self.held_keys.remove(&vk);
                    return;
                }
                self.record_key(MacroEventType::KeyDown, vk, scan_code, now);
            },
            CapturedEvent::KeyUp { vk, scan_code } => {
                let was_held: bool = self.held_keys.contains(&vk);
                self.down_keys.remove(&vk);
                self.held_keys.remove(&vk);
                let release: bool = match self.suppressed_key {
                    Some(key) if key == vk => {
                        self.suppressed_key = None;
                        false
                    },
                    Some(_) => self.is_open(vk),
                    None => was_held,
                };
                if release {
                    self.push_event(key_event_of(MacroEventType::KeyUp, vk, scan_code), now);
                }
            },
        }
    }

    fn record_mouse(
        &mut self,
        event_type: MacroEventType,
        button: MouseButton,
        x: i32,
        y: i32,
        now: u64,
    )
        ensures
            final(self)@ == kept(old(self)@, mouse_at(event_type, button, x, y), now as nat),
    {
        let e: MacroEvent = MacroEvent {
            event_type,
            x,
            y,
            button,
            key_code: 0,
            scan_code: 0,
            wheel_delta: 0,
            delay_ms: 0,
        };
        self.record(e, now);
    }

    fn record_key(&mut self, event_type: MacroEventType, vk: i32, scan_code: u32, now: u64)
        ensures
            final(self)@ == kept(old(self)@, key_event(event_type, vk, scan_code), now as nat),
    {
        self.record(key_event_of(event_type, vk, scan_code), now);
    }

    fn record(&mut self, event: MacroEvent, now: u64)
        ensures
            final(self)@ == kept(old(self)@, event, now as nat),
    {
        if self.suppressed_key.is_none() {
            self.push_event(event, now);
        }
    }

    fn push_event(&mut self, event: MacroEvent, now: u64)
        ensures
            final(self)@ == with_event(old(self)@, event, now as nat),
    {
        let mut e: MacroEvent = event;
        e.delay_ms = delay_ms_since(self.anchor_ns(), now);
        self.events.push(e);
        self.times.push(now);
        assert(self@.times =~= old(self)@.times.push(now as nat));
    }

    /// Whether the last event of a key is its press.
    fn is_open(&self, vk: i32) -> (r: bool)
        ensures
            r == open_in(self@.events, vk),
    {
        let mut i: usize = self.events.len();
        proof {
            assert(self.events@.take(i as int) =~= self.events@);
        }
        while i > 0
            invariant
                i <= self.events.len(),
                open_in(self.events@, vk) == open_in(self.events@.take(i as int), vk),
            decreases i,
        {
            let e: MacroEvent = self.events[i - 1];
            proof {
                assert(self.events@.take(i as int).last() == e);
                assert(self.events@.take(i as int).drop_last() =~= self.events@.take(i - 1));
            }
            if e.key_code == vk {
                if e.event_type == MacroEventType::KeyDown {
                    return true;
                }
                if e.event_type == MacroEventType::KeyUp {
                    return false;
                }
            }
            i = i - 1;
        }
        false
    }

    fn handle_suppression(&mut self, vk: i32) -> (r: bool)
        ensures
            match completed(old(self)@.combos, vk, old(self)@.down) {
                Some(combo) => r && final(self)@ == (RecorderView {
                    suppressed: Some(vk),
                    ..rolled_back(old(self)@, combo.modifiers)
                }),
                None => !r && final(self)@ == old(self)@,
            },
    {
        let mut i: usize = 0;
        let ghost combos = self@.combos;
        let ghost down = self@.down;
        proof {
            assert(combos.skip(0) =~= combos);
        }
        while i < self.suppressed_combos.len()
            invariant
                i <= combos.len(),
                self@ == old(self)@,
                combos == old(self)@.combos,
                down == old(self)@.down,
                self.suppressed_combos@ == combos,
                self.down_keys@ == down,
                completed(combos, vk, down) == completed(combos.skip(i as int), vk, down),
            decreases combos.len() - i,
        {
            let combo: HotkeyCombo = self.suppressed_combos[i];
            proof {
                assert(combos.skip(i as int).skip(1) =~= combos.skip(i + 1));
                assert(combos.skip(i as int)[0] == combo);
            }
            if combo.key == vk && keys::modifiers_held_match(&combo, &self.down_keys) {
                self.rollback_modifier_start(&combo);
                self.suppressed_key = Some(vk);
                return true;
            }
            i = i + 1;
        }
        false
    }

    fn rollback_modifier_start(&mut self, combo: &HotkeyCombo)
        ensures
            final(self)@ == rolled_back(old(self)@, combo.modifiers),
    {
        let ghost events = self@.events;
        let ghost held = self@.held;
        let mut cut: usize = self.events.len();
        proof {
            assert(events.skip(cut as int) =~= Seq::<MacroEvent>::empty());
            assert(events.take(cut as int) =~= events);
            assert(held.difference(Set::empty()) =~= held);
        }
        while cut > 0 && self.events[cut - 1].event_type == MacroEventType::KeyDown
            && keys::modifier_belongs(combo, self.events[cut - 1].key_code)
            invariant
                cut <= events.len(),
                self.events@ == events,
                events == old(self)@.events,
                held == old(self)@.held,
                self@ == (RecorderView { held: self.held_keys@, ..old(self)@ }),
                self.held_keys@ == held.difference(keys_of(events.skip(cut as int))),
                run_start(events.take(cut as int), combo.modifiers) == run_start(
                    events,
                    combo.modifiers,
                ),
            decreases cut,
        {
            let vk: i32 = self.events[cut - 1].key_code;
            self.held_keys.remove(&vk);
            proof {
                assert(events.take(cut as int).drop_last() =~= events.take(cut - 1));
                lemma_keys_of_front(events, cut - 1);
                assert(self.held_keys@ =~= held.difference(keys_of(events.skip(cut - 1))));
            }
            cut = cut - 1;
        }
        proof {
            if cut > 0 {
                assert(events.take(cut as int).last() == events[cut - 1]);
            }
            assert(events.take(cut as int).len() == cut);
        }
        self.events.truncate(cut);
        self.times.truncate(cut);
        proof {
            assert(self@.times =~= cut_to(old(self)@.times, cut as int));
        }
    }
}

proof fn lemma_keys_of_front(events: Seq<MacroEvent>, at: int)
    requires
        0 <= at < events.len(),
    ensures
        keys_of(events.skip(at)) =~= keys_of(events.skip(at + 1)).insert(events[at].key_code),
    decreases events.len(),
{
    let s = events.skip(at);
    if at + 1 == events.len() {
        assert(s.drop_last() =~= Seq::<MacroEvent>::empty());
        assert(events.skip(at + 1) =~= Seq::<MacroEvent>::empty());
    } else {
        let front = events.drop_last();
        lemma_keys_of_front(front, at);
        assert(s.drop_last() =~= front.skip(at));
        assert(events.skip(at + 1).drop_last() =~= front.skip(at + 1));
        assert(events.skip(at + 1).last() == s.last());
    }
}

// ---------------------------------------------------------------------------
// Laws
// ---------------------------------------------------------------------------

/// A move to where the mouse already is leaves no trace: not even its time is lost, since the
/// moment that delays count from stays.
pub proof fn law_redundant_move_is_dropped(v: RecorderView, x: i32, y: i32, now: nat)
    requires
        v.last_pos == Some((x, y)),
    ensures
        step(v, (CapturedEvent::MouseMove { x, y }), now) == v,
{
}

/// Two moves in a row to one point are recorded as one.
pub proof fn law_move_twice_is_move_once(v: RecorderView, x: i32, y: i32, first: nat, second: nat)
    ensures
        step(
            step(v, (CapturedEvent::MouseMove { x, y }), first),
            (CapturedEvent::MouseMove { x, y }),
            second,
        ) == step(v, (CapturedEvent::MouseMove { x, y }), first),
{
}

/// The auto-repeat of a key that is down leaves no trace.
pub proof fn law_auto_repeat_is_dropped(v: RecorderView, vk: i32, scan_code: u32, now: nat)
    requires
        v.down.contains(vk),
    ensures
        step(v, (CapturedEvent::KeyDown { vk, scan_code }), now) == v,
{
}

/// The release of a key that is not held and whose press is not in the recording adds no
/// event.
pub proof fn law_stray_release_is_dropped(v: RecorderView, vk: i32, scan_code: u32, now: nat)
    requires
        !v.held.contains(vk),
        !open_in(v.events, vk),
    ensures
        step(v, (CapturedEvent::KeyUp { vk, scan_code }), now).events == v.events,
{
}

/// A press that completes one of the hotkeys is not recorded: no event is added. What is
/// taken away are presses of its modifiers, all of those at the end, and their keys no longer
/// count as held, though they are still down. The next delay counts from the last event that
/// stays.
pub proof fn law_hotkey_is_not_recorded(
    v: RecorderView,
    vk: i32,
    scan_code: u32,
    now: nat,
    combo: HotkeyCombo,
)
    requires
        !v.down.contains(vk),
        completed(v.combos, vk, v.down.insert(vk)) == Some(combo),
    ensures
        ({
            let after = step(v, (CapturedEvent::KeyDown { vk, scan_code }), now);
            &&& after.suppressed == Some(vk)
            &&& after.down == v.down.insert(vk)
            &&& after.events.is_prefix_of(v.events)
            &&& timed(v) ==> anchor(after) == moment_before(v, after.events.len() as int)
            &&& after.events.len() > 0 ==> !is_prefix_press(combo.modifiers, after.events.last())
            &&& forall|i: int|
                after.events.len() <= i < v.events.len() ==> is_prefix_press(
                    combo.modifiers,
                    #[trigger] v.events[i],
                )
            &&& forall|i: int|
                after.events.len() <= i < v.events.len() ==> !after.held.contains(
                    (#[trigger] v.events[i]).key_code,
                )
        }),
{
    lemma_run_is_of_presses(v.events, combo.modifiers);
    let cut = run_start(v.events, combo.modifiers) as int;
    assert(v.events.take(cut).is_prefix_of(v.events));
    assert forall|i: int| cut <= i < v.events.len() implies keys_of(v.events.skip(cut)).contains(
        (#[trigger] v.events[i]).key_code,
    ) by {
        lemma_keys_of_contains(v.events.skip(cut), i - cut);
    }
}

/// The run of presses at the end of some events is of presses only, and as long as can be.
pub proof fn lemma_run_is_of_presses(events: Seq<MacroEvent>, modifiers: i32)
    ensures
        run_start(events, modifiers) <= events.len(),
        forall|i: int|
            run_start(events, modifiers) <= i < events.len() ==> is_prefix_press(
                modifiers,
                #[trigger] events[i],
            ),
        run_start(events, modifiers) > 0 ==> !is_prefix_press(
            modifiers,
            events[run_start(events, modifiers) - 1],
        ),
    decreases events.len(),
{
    if events.len() > 0 && is_prefix_press(modifiers, events.last()) {
        let rest = events.drop_last();
        lemma_run_is_of_presses(rest, modifiers);
        assert forall|i: int|
            run_start(events, modifiers) <= i < events.len() implies is_prefix_press(
            modifiers,
            #[trigger] events[i],
        ) by {
            if i < rest.len() {
                assert(rest[i] == events[i]);
            }
        }
    }
}

proof fn lemma_keys_of_contains(events: Seq<MacroEvent>, i: int)
    requires
        0 <= i < events.len(),
    ensures
        keys_of(events).contains(events[i].key_code),
    decreases events.len(),
{
    if i < events.len() - 1 {
        lemma_keys_of_contains(events.drop_last(), i);
        assert(events.drop_last()[i] == events[i]);
    }
}

/// The keys that are down after a series of samples: those pressed and not released since.
pub open spec fn down_after(samples: Seq<(CapturedEvent, u64)>) -> Set<i32>
    decreases samples.len(),
{
    if samples.len() == 0 {
        Set::empty()
    } else {
        let before = down_after(samples.drop_last());
        match samples.last().0 {
            CapturedEvent::KeyDown { vk, .. } => before.insert(vk),
            CapturedEvent::KeyUp { vk, .. } => before.remove(vk),
            _ => before,
        }
    }
}

/// The recorder knows which keys are down, whatever it has taken back.
pub proof fn law_down_keys_are_known(
    combos: Seq<HotkeyCombo>,
    start: nat,
    samples: Seq<(CapturedEvent, u64)>,
)
    ensures
        run(fresh(combos, start), samples).down == down_after(samples),
        run(fresh(combos, start), samples).combos == combos,
    decreases samples.len(),
{
    if samples.len() > 0 {
        law_down_keys_are_known(combos, start, samples.drop_last());
        let before = down_after(samples.drop_last());
        if let CapturedEvent::KeyDown { vk, .. } = samples.last().0 {
            if before.contains(vk) {
                assert(before.insert(vk) =~= before);
            }
        }
    }
}

/// The hotkeys are never recorded: whatever came before, a press that completes one of them
/// with the keys that are down adds nothing, nor does the release that follows, however often
/// both are repeated while the modifiers stay down.
pub proof fn law_own_hotkeys_are_never_recorded(
    combos: Seq<HotkeyCombo>,
    start: nat,
    samples: Seq<(CapturedEvent, u64)>,
    vk: i32,
    scan_code: u32,
    pressed: nat,
    released: nat,
)
    requires
        !down_after(samples).contains(vk),
        completed(combos, vk, down_after(samples).insert(vk)) is Some,
    ensures
        ({
            let before = run(fresh(combos, start), samples);
            let held = step(before, (CapturedEvent::KeyDown { vk, scan_code }), pressed);
            let after = step(held, (CapturedEvent::KeyUp { vk, scan_code }), released);
            &&& held.events.is_prefix_of(before.events)
            &&& after.events == held.events
            &&& after.down == before.down
        }),
{
    law_down_keys_are_known(combos, start, samples);
    let before = run(fresh(combos, start), samples);
    let combo = completed(combos, vk, before.down.insert(vk))->Some_0;
    lemma_run_is_of_presses(before.events, combo.modifiers);
    assert(before.down.insert(vk).remove(vk) =~= before.down);
}

/// While a hotkey is held, nothing is added to the recording but the release of a key whose
/// press is in it.
pub proof fn law_nothing_is_recorded_while_a_hotkey_is_held(
    v: RecorderView,
    ev: CapturedEvent,
    now: nat,
)
    requires
        v.suppressed is Some,
    ensures
        ({
            let after = step(v, ev, now);
            match ev {
                CapturedEvent::KeyUp { vk, .. } => if v.suppressed != Some(vk) && open_in(
                    v.events,
                    vk,
                ) {
                    &&& after.events.drop_last() == v.events
                    &&& after.events.last().event_type == MacroEventType::KeyUp
                    &&& after.events.last().key_code == vk
                } else {
                    after.events == v.events
                },
                _ => after.events.is_prefix_of(v.events),
            }
        }),
        timed(v) && step(v, ev, now).events == v.events ==> anchor(step(v, ev, now)) == anchor(v),
{
    if let CapturedEvent::KeyUp { vk, scan_code } = ev {
        let e = key_event(MacroEventType::KeyUp, vk, scan_code);
        assert(with_event(v, e, now).events.drop_last() =~= v.events);
    }
    if let CapturedEvent::KeyDown { vk, .. } = ev {
        if let Some(combo) = completed(v.combos, vk, v.down.insert(vk)) {
            lemma_run_is_of_presses(v.events, combo.modifiers);
        }
    }
}

/// The recording ends being held back when the hotkey's key is released.
pub proof fn law_release_ends_the_hotkey(v: RecorderView, vk: i32, scan_code: u32, now: nat)
    requires
        v.suppressed == Some(vk),
    ensures
        step(v, (CapturedEvent::KeyUp { vk, scan_code }), now).suppressed is None,
        step(v, (CapturedEvent::KeyUp { vk, scan_code }), now).events == v.events,
{
}

/// No press among some events repeats a press that is still open.
pub open spec fn no_double_press(events: Seq<MacroEvent>) -> bool {
    forall|i: int|
        0 <= i < events.len() && (#[trigger] events[i]).event_type == MacroEventType::KeyDown
            ==> !open_in(events.take(i), events[i].key_code)
}

/// The recording leaves no key pressed that is not down, and presses none twice. What is held
/// is down, and so is the key of a hotkey, which does not count as held.
pub open spec fn faithful(v: RecorderView) -> bool {
    &&& no_double_press(v.events)
    &&& forall|vk: i32| #[trigger] open_in(v.events, vk) ==> v.held.contains(vk)
    &&& v.held.subset_of(v.down)
    &&& v.suppressed matches Some(vk) ==> v.down.contains(vk) && !v.held.contains(vk)
}

proof fn lemma_push_keeps_no_double_press(events: Seq<MacroEvent>, e: MacroEvent)
    requires
        no_double_press(events),
        e.event_type == MacroEventType::KeyDown ==> !open_in(events, e.key_code),
    ensures
        no_double_press(events.push(e)),
{
    let longer = events.push(e);
    assert forall|i: int|
        0 <= i < longer.len() && (#[trigger] longer[i]).event_type
            == MacroEventType::KeyDown implies !open_in(longer.take(i), longer[i].key_code) by {
        if i < events.len() {
            assert(longer.take(i) =~= events.take(i));
            assert(longer[i] == events[i]);
        } else {
            assert(longer.take(i) =~= events);
        }
    }
}

proof fn lemma_event_is_faithful(v: RecorderView, e: MacroEvent, now: nat)
    requires
        no_double_press(v.events),
        forall|vk: i32|
            #[trigger] open_in(v.events, vk) ==> v.held.contains(vk) || (e.event_type
                == MacroEventType::KeyUp && e.key_code == vk),
        e.event_type == MacroEventType::KeyDown ==> !open_in(v.events, e.key_code)
            && v.held.contains(e.key_code),
        v.held.subset_of(v.down),
        v.suppressed matches Some(vk) ==> v.down.contains(vk) && !v.held.contains(vk),
    ensures
        faithful(with_event(v, e, now)),
{
    let after = with_event(v, e, now);
    lemma_push_keeps_no_double_press(v.events, after.events.last());
    assert(after.events.drop_last() =~= v.events);
    assert forall|vk: i32| #[trigger] open_in(after.events, vk) implies after.held.contains(
        vk,
    ) by {
        if after.events.last().key_code != vk {
            assert(open_in(v.events, vk));
        } else if after.events.last().event_type != MacroEventType::KeyDown {
            assert(open_in(v.events, vk));
        }
    }
}

proof fn lemma_open_before_the_run(events: Seq<MacroEvent>, cut: int, modifiers: i32, vk: i32)
    requires
        0 <= cut <= events.len(),
        no_double_press(events),
        forall|i: int|
            cut <= i < events.len() ==> is_prefix_press(modifiers, #[trigger] events[i]),
        open_in(events.take(cut), vk),
    ensures
        open_in(events, vk),
        !keys_of(events.skip(cut)).contains(vk),
    decreases events.len(),
{
    if cut == events.len() {
        assert(events.take(cut) =~= events);
        assert(events.skip(cut) =~= Seq::<MacroEvent>::empty());
    } else {
        let rest = events.drop_last();
        assert(rest.take(cut) =~= events.take(cut));
        assert forall|i: int| cut <= i < rest.len() implies is_prefix_press(
            modifiers,
            #[trigger] rest[i],
        ) by {
            assert(rest[i] == events[i]);
        }
        assert forall|i: int|
            0 <= i < rest.len() && (#[trigger] rest[i]).event_type
                == MacroEventType::KeyDown implies !open_in(rest.take(i), rest[i].key_code) by {
            assert(rest[i] == events[i]);
            assert(rest.take(i) =~= events.take(i));
        }
        lemma_open_before_the_run(rest, cut, modifiers, vk);
        assert(events.skip(cut).drop_last() =~= rest.skip(cut));
        assert(events.take(events.len() - 1) =~= rest);
        assert(events[events.len() - 1].event_type == MacroEventType::KeyDown);
    }
}

/// Every sample keeps the recording faithful: what it leaves pressed is down. So no key stays
/// pressed in the recording once it was released.
pub proof fn law_recording_stays_faithful(v: RecorderView, ev: CapturedEvent, now: nat)
    requires
        faithful(v),
    ensures
        faithful(step(v, ev, now)),
{
    match ev {
        CapturedEvent::MouseMove { x, y } => {
            lemma_event_is_faithful(
                v,
                mouse_at(MacroEventType::MouseMove, MouseButton::NoButton, x, y),
                now,
            );
        },
        CapturedEvent::MouseDown { button, x, y } => {
            lemma_event_is_faithful(v, mouse_at(MacroEventType::MouseDown, button, x, y), now);
        },
        CapturedEvent::MouseUp { button, x, y } => {
            lemma_event_is_faithful(v, mouse_at(MacroEventType::MouseUp, button, x, y), now);
        },
        CapturedEvent::MouseWheel { delta } => {
            lemma_event_is_faithful(v, wheel_turn(delta), now);
        },
        CapturedEvent::KeyDown { vk, scan_code } => {
            let with = RecorderView { down: v.down.insert(vk), held: v.held.insert(vk), ..v };
            if !v.down.contains(vk) {
                match completed(v.combos, vk, with.down) {
                    Some(combo) => {
                        let cut = run_start(v.events, combo.modifiers) as int;
                        let after = step(v, ev, now);
                        lemma_run_is_of_presses(v.events, combo.modifiers);
                        assert forall|i: int|
                            0 <= i < after.events.len() && (#[trigger] after.events[i]).event_type
                                == MacroEventType::KeyDown implies !open_in(
                            after.events.take(i),
                            after.events[i].key_code,
                        ) by {
                            assert(after.events[i] == v.events[i]);
                            assert(after.events.take(i) =~= v.events.take(i));
                        }
                        assert forall|k: i32| #[trigger]
                            open_in(after.events, k) implies after.held.contains(k) by {
                            lemma_open_before_the_run(v.events, cut, combo.modifiers, k);
                        }
                    },
                    None => {
                        assert(!open_in(v.events, vk));
                        lemma_event_is_faithful(
                            with,
                            key_event(MacroEventType::KeyDown, vk, scan_code),
                            now,
                        );
                    },
                }
            }
        },
        CapturedEvent::KeyUp { vk, scan_code } => {
            let without = RecorderView {
                down: v.down.remove(vk),
                held: v.held.remove(vk),
                ..v
            };
            if v.suppressed == Some(vk) {
                assert(!open_in(v.events, vk));
            } else {
                lemma_event_is_faithful(
                    without,
                    key_event(MacroEventType::KeyUp, vk, scan_code),
                    now,
                );
            }
        },
    }
}

/// A recording that begins is faithful.
pub proof fn law_fresh_recording_is_faithful(combos: Seq<HotkeyCombo>, now: nat)
    ensures
        faithful(fresh(combos, now)),
{
}

/// No key stays pressed in a recording: one whose last event is a press is still down.
pub proof fn law_no_key_stays_pressed(
    combos: Seq<HotkeyCombo>,
    start: nat,
    samples: Seq<(CapturedEvent, u64)>,
)
    ensures
        faithful(run(fresh(combos, start), samples)),
        forall|vk: i32| #[trigger]
            open_in(run(fresh(combos, start), samples).events, vk) ==> down_after(
                samples,
            ).contains(vk),
    decreases samples.len(),
{
    law_down_keys_are_known(combos, start, samples);
    if samples.len() > 0 {
        let rest = samples.drop_last();
        law_no_key_stays_pressed(combos, start, rest);
        law_recording_stays_faithful(
            run(fresh(combos, start), rest),
            samples.last().0,
            samples.last().1 as nat,
        );
    }
}

/// The recording stays faithful when its events are handed out.
pub proof fn law_emptied_recording_is_faithful(v: RecorderView)
    requires
        faithful(v),
    ensures
        faithful(emptied(v)),
{
}

/// When the event before one at a place came or, for the first, the start.
pub open spec fn moment_before(v: RecorderView, i: int) -> nat {
    if i == 0 {
        v.start
    } else {
        v.times[i - 1]
    }
}

/// Every delay is the time since the event before that is in the recording.
pub open spec fn timed(v: RecorderView) -> bool {
    &&& v.times.len() == v.events.len()
    &&& forall|i: int|
        0 <= i < v.events.len() ==> (#[trigger] v.events[i]).delay_ms == delay_since(
            moment_before(v, i),
            v.times[i],
        )
}

/// Whatever is dropped or taken back, every delay stays the time since the event before that
/// is in the recording.
pub proof fn law_delays_count_from_the_event_before(v: RecorderView, ev: CapturedEvent, now: nat)
    requires
        timed(v),
    ensures
        timed(step(v, ev, now)),
{
    if let CapturedEvent::KeyDown { vk, .. } = ev {
        if let Some(combo) = completed(v.combos, vk, v.down.insert(vk)) {
            lemma_run_is_of_presses(v.events, combo.modifiers);
        }
    }
    let after = step(v, ev, now);
    assert forall|i: int| 0 <= i < after.events.len() implies (#[trigger] after.events[i]).delay_ms
        == delay_since(moment_before(after, i), after.times[i]) by {
        if i < v.events.len() {
            assert(after.events[i] == v.events[i]);
        }
    }
}

/// A recording that begins has its delays right, and so has one whose events were handed out.
pub proof fn law_fresh_recording_is_timed(combos: Seq<HotkeyCombo>, now: nat, v: RecorderView)
    ensures
        timed(fresh(combos, now)),
        timed(emptied(v)),
{
}

/// The sum of the delays of events, in milliseconds.
pub open spec fn total_delay(events: Seq<MacroEvent>) -> int
    decreases events.len(),
{
    if events.len() == 0 {
        0
    } else {
        total_delay(events.drop_last()) + events.last().delay_ms
    }
}

/// The times of samples do not go back, and none comes so late after a moment that its delay
/// would not fit.
pub open spec fn timed_after(start: nat, samples: Seq<(CapturedEvent, u64)>) -> bool {
    &&& forall|i: int| 0 <= i < samples.len() ==> start <= #[trigger] samples[i].1
    &&& forall|i: int|
        0 <= i < samples.len() ==> #[trigger] samples[i].1 - start < i32::MAX * NANOS_PER_MS
    &&& forall|i: int, j: int| 0 <= i <= j < samples.len() ==> samples[i].1 <= samples[j].1
}

/// The time of what is dropped or taken back is not lost. Whatever the hotkeys, the delays of
/// the recorded events add up to the time from the start of the recording to the last of them,
/// less what rounding each down to whole milliseconds takes away.
pub proof fn law_delays_add_up(
    combos: Seq<HotkeyCombo>,
    start: nat,
    samples: Seq<(CapturedEvent, u64)>,
)
    requires
        timed_after(start, samples),
    ensures
        ({
            let v = run(fresh(combos, start), samples);
            let elapsed = anchor(v) - start;
            let total = total_delay(v.events) * NANOS_PER_MS;
            &&& total <= elapsed
            &&& elapsed <= total + v.events.len() * (NANOS_PER_MS - 1)
        }),
{
    lemma_times_are_in_order(combos, start, samples);
    lemma_sum_of_delays(run(fresh(combos, start), samples));
}

/// Whether the events came one after the other, from the start to a moment.
spec fn in_order(v: RecorderView, upto: nat) -> bool {
    &&& forall|i: int| 0 <= i < v.times.len() ==> v.start <= #[trigger] v.times[i] <= upto
    &&& forall|i: int, j: int| 0 <= i <= j < v.times.len() ==> v.times[i] <= v.times[j]
}

proof fn lemma_times_are_in_order(
    combos: Seq<HotkeyCombo>,
    start: nat,
    samples: Seq<(CapturedEvent, u64)>,
)
    requires
        timed_after(start, samples),
    ensures
        ({
            let v = run(fresh(combos, start), samples);
            &&& v.start == start
            &&& timed(v)
            &&& in_order(v, if samples.len() == 0 { start } else { samples.last().1 as nat })
            &&& anchor(v) - start < i32::MAX * NANOS_PER_MS
        }),
    decreases samples.len(),
{
    if samples.len() > 0 {
        let rest = samples.drop_last();
        assert(timed_after(start, rest)) by {
            assert forall|i: int| 0 <= i < rest.len() implies start <= #[trigger] rest[i].1 by {
                assert(rest[i] == samples[i]);
            }
            assert forall|i: int| 0 <= i < rest.len() implies #[trigger] rest[i].1 - start
                < i32::MAX * NANOS_PER_MS by {
                assert(rest[i] == samples[i]);
            }
        }
        lemma_times_are_in_order(combos, start, rest);
        let v = run(fresh(combos, start), rest);
        let (ev, at) = samples.last();
        let after = step(v, ev, at as nat);
        law_delays_count_from_the_event_before(v, ev, at as nat);
        if rest.len() > 0 {
            assert(rest.last() == samples[samples.len() - 2]);
            assert(samples[samples.len() - 2].1 <= samples[samples.len() - 1].1);
        }
        assert(samples[samples.len() - 1].1 - start < i32::MAX * NANOS_PER_MS);
        if let CapturedEvent::KeyDown { vk, .. } = ev {
            if let Some(combo) = completed(v.combos, vk, v.down.insert(vk)) {
                lemma_run_is_of_presses(v.events, combo.modifiers);
            }
        }
        assert(in_order(after, at as nat));
    }
}

proof fn lemma_sum_of_delays(v: RecorderView)
    requires
        timed(v),
        in_order(v, anchor(v)),
        anchor(v) - v.start < i32::MAX * NANOS_PER_MS,
    ensures
        v.start <= anchor(v),
        total_delay(v.events) * NANOS_PER_MS <= anchor(v) - v.start,
        anchor(v) - v.start <= total_delay(v.events) * NANOS_PER_MS + v.events.len() * (NANOS_PER_MS
            - 1),
    decreases v.events.len(),
{
    if v.events.len() > 0 {
        let n = v.events.len() - 1;
        let rest = RecorderView {
            events: v.events.drop_last(),
            times: v.times.drop_last(),
            ..v
        };
        assert(anchor(rest) == moment_before(v, n));
        assert(v.times[n] == anchor(v));
        assert forall|i: int| 0 <= i < rest.events.len() implies (
        #[trigger] rest.events[i]).delay_ms == delay_since(moment_before(rest, i), rest.times[i]) by {
            assert(rest.events[i] == v.events[i]);
        }
        lemma_sum_of_delays(rest);
        let gap = anchor(v) - anchor(rest);
        assert(v.events[n].delay_ms == gap / NANOS_PER_MS as int);
    }
}

} // verus!
