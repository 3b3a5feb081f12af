//! What becomes of the samples: which of them are in the recording, and what it says of them.
//!
//! The laws here hold the recording against the samples that came in.

use vstd::prelude::*;

use crate::config::{HotkeyCombo, SettingsBindings};
use crate::hooks::CapturedEvent;
use crate::keys;
use crate::model::{MacroEvent, MacroEventType, MouseButton};
use crate::recorder;
use crate::recorder::RecorderView;

verus! {

/// Whether an event says what a sample says, whatever its delay.
pub open spec fn says(ev: CapturedEvent, e: MacroEvent) -> bool {
    match ev {
        CapturedEvent::MouseMove { x, y } => {
            &&& e.event_type == MacroEventType::MouseMove
            &&& (e.x, e.y, e.button) == (x, y, MouseButton::NoButton)
            &&& (e.wheel_delta, e.key_code, e.scan_code) == (0i32, 0i32, 0i32)
        },
        CapturedEvent::MouseDown { button, x, y } => {
            &&& e.event_type == MacroEventType::MouseDown
            &&& (e.x, e.y, e.button) == (x, y, button)
            &&& (e.wheel_delta, e.key_code, e.scan_code) == (0i32, 0i32, 0i32)
        },
        CapturedEvent::MouseUp { button, x, y } => {
            &&& e.event_type == MacroEventType::MouseUp
            &&& (e.x, e.y, e.button) == (x, y, button)
            &&& (e.wheel_delta, e.key_code, e.scan_code) == (0i32, 0i32, 0i32)
        },
        CapturedEvent::MouseWheel { delta } => {
            &&& e.event_type == MacroEventType::MouseWheel
            &&& (e.x, e.y, e.button) == (0i32, 0i32, MouseButton::NoButton)
            &&& (e.wheel_delta, e.key_code, e.scan_code) == (delta, 0i32, 0i32)
        },
        CapturedEvent::KeyDown { vk, scan_code } => {
            &&& e.event_type == MacroEventType::KeyDown
            &&& (e.x, e.y, e.button) == (0i32, 0i32, MouseButton::NoButton)
            &&& (e.wheel_delta, e.key_code) == (0i32, vk)
            &&& e.scan_code == scan_code || e.scan_code == scan_code - 0x1_0000_0000
        },
        CapturedEvent::KeyUp { vk, scan_code } => {
            &&& e.event_type == MacroEventType::KeyUp
            &&& (e.x, e.y, e.button) == (0i32, 0i32, MouseButton::NoButton)
            &&& (e.wheel_delta, e.key_code) == (0i32, vk)
            &&& e.scan_code == scan_code || e.scan_code == scan_code - 0x1_0000_0000
        },
    }
}

/// The point of a sample, if it has one.
pub open spec fn point_of(ev: CapturedEvent) -> Option<(i32, i32)> {
    match ev {
        CapturedEvent::MouseMove { x, y } => Some((x, y)),
        CapturedEvent::MouseDown { x, y, .. } => Some((x, y)),
        CapturedEvent::MouseUp { x, y, .. } => Some((x, y)),
        _ => None,
    }
}

/// Whether a sample is one of the mouse.
pub open spec fn of_mouse(ev: CapturedEvent) -> bool {
    !(ev is KeyDown) && !(ev is KeyUp)
}

/// Whether an event is one of the mouse.
pub open spec fn is_mouse_event(e: MacroEvent) -> bool {
    e.event_type != MacroEventType::KeyDown && e.event_type != MacroEventType::KeyUp
}

/// Where the mouse is after some samples, as far as they say.
pub open spec fn mouse_after(samples: Seq<(CapturedEvent, u64)>) -> Option<(i32, i32)>
    decreases samples.len(),
{
    if samples.len() == 0 {
        None
    } else {
        match point_of(samples.last().0) {
            Some(p) => Some(p),
            None => mouse_after(samples.drop_last()),
        }
    }
}

/// Whether a key completes one of the hotkeys, given the keys that are down with it.
pub open spec fn completes_one(combos: Seq<HotkeyCombo>, vk: i32, down: Set<i32>) -> bool {
    exists|i: int|
        0 <= i < combos.len() && (#[trigger] combos[i]).key == vk && keys::modifiers_match(
            combos[i].modifiers,
            down,
        )
}

/// The key of the hotkey that is held after some samples, if one is.
pub open spec fn hotkey_after(combos: Seq<HotkeyCombo>, samples: Seq<(CapturedEvent, u64)>) -> Option<
    i32,
>
    decreases samples.len(),
{
    if samples.len() == 0 {
        None
    } else {
        let rest = samples.drop_last();
        let before = hotkey_after(combos, rest);
        let down = recorder::down_after(rest);
        match samples.last().0 {
            CapturedEvent::KeyDown { vk, .. } => if !down.contains(vk) && completes_one(
                combos,
                vk,
                down.insert(vk),
            ) {
                Some(vk)
            } else {
                before
            },
            CapturedEvent::KeyUp { vk, .. } => if before == Some(vk) {
                None
            } else {
                before
            },
            _ => before,
        }
    }
}

/// The samples of the mouse that are to be in the recording, in order: those that come while
/// no hotkey is held, without moves to where the mouse already is.
pub open spec fn mouse_samples(combos: Seq<HotkeyCombo>, samples: Seq<(CapturedEvent, u64)>) -> Seq<
    (CapturedEvent, u64),
>
    decreases samples.len(),
{
    if samples.len() == 0 {
        Seq::empty()
    } else {
        let rest = samples.drop_last();
        let ev = samples.last().0;
        let stays = ev is MouseMove && mouse_after(rest) == point_of(ev);
        if of_mouse(ev) && hotkey_after(combos, rest) is None && !stays {
            mouse_samples(combos, rest).push(samples.last())
        } else {
            mouse_samples(combos, rest)
        }
    }
}

/// The events of the mouse in a recording, each with the time at which it came.
pub open spec fn mouse_part(events: Seq<MacroEvent>, times: Seq<nat>) -> Seq<(MacroEvent, nat)>
    decreases events.len(),
{
    if events.len() == 0 || times.len() == 0 {
        Seq::empty()
    } else {
        let before = mouse_part(events.drop_last(), times.drop_last());
        if is_mouse_event(events.last()) {
            before.push((events.last(), times.last()))
        } else {
            before
        }
    }
}

/// Whether events say what samples say, one for one and each at its time.
pub open spec fn tells(samples: Seq<(CapturedEvent, u64)>, part: Seq<(MacroEvent, nat)>) -> bool {
    &&& samples.len() == part.len()
    &&& forall|i: int|
        0 <= i < part.len() ==> says(samples[i].0, (#[trigger] part[i]).0) && part[i].1
            == samples[i].1
}

/// What a sample adds to the recording is one event that says what the sample says: its kind,
/// button, point, turn of the wheel or key. Else it adds nothing.
pub proof fn law_event_says_what_the_sample_says(v: RecorderView, ev: CapturedEvent, now: nat)
    ensures
        ({
            let after = recorder::step(v, ev, now).events;
            ||| after.is_prefix_of(v.events)
            ||| after.len() == v.events.len() + 1 && v.events.is_prefix_of(after) && says(
                ev,
                after.last(),
            )
        }),
{
    if let CapturedEvent::KeyDown { vk, .. } = ev {
        if let Some(combo) = recorder::completed(v.combos, vk, v.down.insert(vk)) {
            recorder::lemma_run_is_of_presses(v.events, combo.modifiers);
        }
    }
}

/// While no hotkey is held, every sample is recorded but moves to where the mouse already is,
/// presses of keys that are down, presses that complete a hotkey, and releases of keys that
/// are not held.
pub proof fn law_samples_are_recorded(v: RecorderView, ev: CapturedEvent, now: nat)
    requires
        v.suppressed is None,
        match ev {
            CapturedEvent::MouseMove { .. } => v.last_pos != point_of(ev),
            CapturedEvent::KeyDown { vk, .. } => !v.down.contains(vk) && !completes_one(
                v.combos,
                vk,
                v.down.insert(vk),
            ),
            CapturedEvent::KeyUp { vk, .. } => v.held.contains(vk),
            _ => true,
        },
    ensures
        recorder::step(v, ev, now).events.len() == v.events.len() + 1,
        v.events.is_prefix_of(recorder::step(v, ev, now).events),
        says(ev, recorder::step(v, ev, now).events.last()),
        recorder::step(v, ev, now).times == v.times.push(now),
{
    if let CapturedEvent::KeyDown { vk, .. } = ev {
        lemma_completed_is_one(v.combos, vk, v.down.insert(vk));
    }
}

proof fn lemma_completed_is_one(combos: Seq<HotkeyCombo>, vk: i32, down: Set<i32>)
    ensures
        recorder::completed(combos, vk, down) is Some <==> completes_one(combos, vk, down),
    decreases combos.len(),
{
    if combos.len() > 0 {
        let rest = combos.skip(1);
        lemma_completed_is_one(rest, vk, down);
        if completes_one(rest, vk, down) {
            let i = choose|i: int|
                0 <= i < rest.len() && (#[trigger] rest[i]).key == vk && keys::modifiers_match(
                    rest[i].modifiers,
                    down,
                );
            assert(combos[i + 1] == rest[i]);
        }
        if completes_one(combos, vk, down) && !recorder::completes(combos[0], vk, down) {
            let i = choose|i: int|
                0 <= i < combos.len() && (#[trigger] combos[i]).key == vk && keys::modifiers_match(
                    combos[i].modifiers,
                    down,
                );
            assert(rest[i - 1] == combos[i]);
        }
    }
}

proof fn lemma_mouse_part_of_front(events: Seq<MacroEvent>, times: Seq<nat>, cut: int)
    requires
        0 <= cut <= events.len(),
        times.len() == events.len(),
        forall|i: int| cut <= i < events.len() ==> !is_mouse_event(#[trigger] events[i]),
    ensures
        mouse_part(events.take(cut), times.take(cut)) == mouse_part(events, times),
    decreases events.len(),
{
    if cut == events.len() {
        assert(events.take(cut) =~= events);
        assert(times.take(cut) =~= times);
    } else {
        let e = events.drop_last();
        let t = times.drop_last();
        assert forall|i: int| cut <= i < e.len() implies !is_mouse_event(#[trigger] e[i]) by {
            assert(e[i] == events[i]);
        }
        lemma_mouse_part_of_front(e, t, cut);
        assert(e.take(cut) =~= events.take(cut));
        assert(t.take(cut) =~= times.take(cut));
        assert(!is_mouse_event(events[events.len() - 1]));
    }
}

proof fn lemma_mouse_part_grows(events: Seq<MacroEvent>, times: Seq<nat>, e: MacroEvent, t: nat)
    requires
        events.len() == times.len(),
    ensures
        mouse_part(events.push(e), times.push(t)) == (if is_mouse_event(e) {
            mouse_part(events, times).push((e, t))
        } else {
            mouse_part(events, times)
        }),
{
    assert(events.push(e).drop_last() =~= events);
    assert(times.push(t).drop_last() =~= times);
}

/// The recorder knows which hotkey is held and where the mouse is.
pub proof fn law_hotkey_and_mouse_are_known(
    combos: Seq<HotkeyCombo>,
    start: nat,
    samples: Seq<(CapturedEvent, u64)>,
)
    ensures
        recorder::run(recorder::fresh(combos, start), samples).suppressed == hotkey_after(
            combos,
            samples,
        ),
        recorder::run(recorder::fresh(combos, start), samples).last_pos == mouse_after(samples),
    decreases samples.len(),
{
    if samples.len() > 0 {
        let rest = samples.drop_last();
        law_hotkey_and_mouse_are_known(combos, start, rest);
        recorder::law_down_keys_are_known(combos, start, rest);
        if let CapturedEvent::KeyDown { vk, .. } = samples.last().0 {
            lemma_completed_is_one(combos, vk, recorder::down_after(rest).insert(vk));
        }
    }
}

/// The mouse is recorded faithfully. Its events in the recording are, one for one, in order
/// and at their times, the presses, releases, moves and turns of the wheel that came while no
/// hotkey was held, without moves to where the mouse already was.
pub proof fn law_mouse_is_recorded_faithfully(
    combos: Seq<HotkeyCombo>,
    start: nat,
    samples: Seq<(CapturedEvent, u64)>,
)
    ensures
        ({
            let v = recorder::run(recorder::fresh(combos, start), samples);
            tells(mouse_samples(combos, samples), mouse_part(v.events, v.times))
        }),
    decreases samples.len(),
{
    lemma_times_match(combos, start, samples);
    if samples.len() > 0 {
        let rest = samples.drop_last();
        let (ev, at) = samples.last();
        law_mouse_is_recorded_faithfully(combos, start, rest);
        law_hotkey_and_mouse_are_known(combos, start, rest);
        recorder::law_down_keys_are_known(combos, start, rest);
        lemma_times_match(combos, start, rest);
        let v = recorder::run(recorder::fresh(combos, start), rest);
        let after = recorder::step(v, ev, at as nat);
        let before = mouse_samples(combos, rest);
        let part = mouse_part(v.events, v.times);
        if after.events.len() == v.events.len() + 1 {
            law_event_says_what_the_sample_says(v, ev, at as nat);
            let e = after.events.last();
            assert(after.events =~= v.events.push(e));
            assert(after.times =~= v.times.push(at as nat));
            lemma_mouse_part_grows(v.events, v.times, e, at as nat);
        } else if let CapturedEvent::KeyDown { vk, .. } = ev {
            if !v.down.contains(vk) {
                if let Some(combo) = recorder::completed(v.combos, vk, v.down.insert(vk)) {
                    let cut = recorder::run_start(v.events, combo.modifiers) as int;
                    recorder::lemma_run_is_of_presses(v.events, combo.modifiers);
                    assert forall|i: int| cut <= i < v.events.len() implies !is_mouse_event(
                        #[trigger] v.events[i],
                    ) by {
                        assert(recorder::is_prefix_press(combo.modifiers, v.events[i]));
                    }
                    lemma_mouse_part_of_front(v.events, v.times, cut);
                }
            }
        }
    }
}

proof fn lemma_times_match(
    combos: Seq<HotkeyCombo>,
    start: nat,
    samples: Seq<(CapturedEvent, u64)>,
)
    ensures
        ({
            let v = recorder::run(recorder::fresh(combos, start), samples);
            &&& v.times.len() == v.events.len()
            &&& v.start == start
        }),
    decreases samples.len(),
{
    if samples.len() > 0 {
        let rest = samples.drop_last();
        lemma_times_match(combos, start, rest);
        let v = recorder::run(recorder::fresh(combos, start), rest);
        if let CapturedEvent::KeyDown { vk, .. } = samples.last().0 {
            if let Some(combo) = recorder::completed(v.combos, vk, v.down.insert(vk)) {
                recorder::lemma_run_is_of_presses(v.events, combo.modifiers);
            }
        }
    }
}

/// The samples that are to be in a recording without hotkeys, in order: all but moves to where
/// the mouse already is, presses of keys that are down, and releases of keys that are not.
pub open spec fn all_samples(samples: Seq<(CapturedEvent, u64)>) -> Seq<(CapturedEvent, u64)>
    decreases samples.len(),
{
    if samples.len() == 0 {
        Seq::empty()
    } else {
        let rest = samples.drop_last();
        let ev = samples.last().0;
        let dropped = match ev {
            CapturedEvent::MouseMove { .. } => mouse_after(rest) == point_of(ev),
            CapturedEvent::KeyDown { vk, .. } => recorder::down_after(rest).contains(vk),
            CapturedEvent::KeyUp { vk, .. } => !recorder::down_after(rest).contains(vk),
            _ => false,
        };
        if dropped {
            all_samples(rest)
        } else {
            all_samples(rest).push(samples.last())
        }
    }
}

/// Without hotkeys everything is recorded: the events are, one for one, in order and at their
/// times, the samples without those that say nothing new.
pub proof fn law_everything_is_recorded(start: nat, samples: Seq<(CapturedEvent, u64)>)
    ensures
        ({
            let v = recorder::run(recorder::fresh(Seq::empty(), start), samples);
            let kept = all_samples(samples);
            &&& v.events.len() == kept.len()
            &&& v.times.len() == kept.len()
            &&& forall|i: int|
                0 <= i < kept.len() ==> says((#[trigger] kept[i]).0, v.events[i]) && v.times[i]
                    == kept[i].1
        }),
    decreases samples.len(),
{
    lemma_without_hotkeys(start, samples);
    if samples.len() > 0 {
        let rest = samples.drop_last();
        let (ev, at) = samples.last();
        law_everything_is_recorded(start, rest);
        lemma_without_hotkeys(start, rest);
        law_hotkey_and_mouse_are_known(Seq::empty(), start, rest);
        recorder::law_down_keys_are_known(Seq::empty(), start, rest);
        let v = recorder::run(recorder::fresh(Seq::empty(), start), rest);
        let after = recorder::step(v, ev, at as nat);
        let kept = all_samples(samples);
        let before = all_samples(rest);
        if kept.len() > before.len() {
            law_samples_are_recorded(v, ev, at as nat);
        }
        assert forall|i: int| 0 <= i < kept.len() implies says(
            (#[trigger] kept[i]).0,
            after.events[i],
        ) && after.times[i] == kept[i].1 by {
            if i < before.len() {
                assert(kept[i] == before[i]);
                assert(after.events[i] == v.events[i]);
                assert(after.times[i] == v.times[i]);
            }
        }
    }
}

proof fn lemma_without_hotkeys(start: nat, samples: Seq<(CapturedEvent, u64)>)
    ensures
        ({
            let v = recorder::run(recorder::fresh(Seq::empty(), start), samples);
            &&& v.held == v.down
            &&& v.combos == Seq::<HotkeyCombo>::empty()
            &&& v.suppressed is None
        }),
    decreases samples.len(),
{
    if samples.len() > 0 {
        lemma_without_hotkeys(start, samples.drop_last());
    }
}

/// A delay is the time since the event before in whole milliseconds: none where the time goes
/// back, and the longest that it can hold where the time is longer.
pub proof fn law_delay_is_the_time_since(anchor: nat, now: nat)
    ensures
        ({
            let d = recorder::delay_since(anchor, now);
            &&& 0 <= d <= i32::MAX
            &&& now <= anchor ==> d == 0
            &&& now >= anchor ==> d * 1_000_000 <= now - anchor
            &&& d < i32::MAX ==> now - anchor < (d + 1) * 1_000_000
        }),
{
}

/// The hotkeys that are left out are those for recording, playing and stopping, as far as they
/// have a key, and no others.
pub proof fn law_own_hotkeys_are_left_out(b: SettingsBindings, combo: HotkeyCombo)
    ensures
        recorder::combos_of(Some(b)).contains(combo) <==> combo.key != 0 && (combo == b.record
            || combo == b.play || combo == b.stop),
        !recorder::combos_of(None).contains(combo),
{
    reveal(Seq::filter);
    let keep = |c: HotkeyCombo| c.key != 0;
    let s1 = seq![b.record];
    let s2 = seq![b.record, b.play];
    let s3 = seq![b.record, b.play, b.stop];
    assert(s1.drop_last() =~= Seq::<HotkeyCombo>::empty());
    assert(s2.drop_last() =~= s1);
    assert(s3.drop_last() =~= s2);
    let f0 = Seq::<HotkeyCombo>::empty().filter(keep);
    let f1 = s1.filter(keep);
    let f2 = s2.filter(keep);
    let f3 = s3.filter(keep);
    assert(f0 =~= Seq::<HotkeyCombo>::empty());
    lemma_pushed(f0, b.record, combo);
    lemma_pushed(f1, b.play, combo);
    lemma_pushed(f2, b.stop, combo);
    assert(recorder::combos_of(Some(b)) == f3);
}

proof fn lemma_pushed(list: Seq<HotkeyCombo>, item: HotkeyCombo, x: HotkeyCombo)
    ensures
        list.push(item).contains(x) <==> list.contains(x) || x == item,
{
    let longer = list.push(item);
    if list.contains(x) {
        let i = choose|i: int| 0 <= i < list.len() && list[i] == x;
        assert(longer[i] == x);
    }
    if longer.contains(x) {
        let i = choose|i: int| 0 <= i < longer.len() && longer[i] == x;
        if i < list.len() {
            assert(list[i] == x);
        }
    }
    assert(longer[list.len() as int] == item);
}

/// Handing the events out changes nothing of what is recorded next: the next event says the
/// same, with the same delay, as if they had stayed.
pub proof fn law_recording_goes_on_after_handing_out(v: RecorderView, ev: CapturedEvent, now: nat)
    requires
        v.times.len() == v.events.len(),
        recorder::step(v, ev, now).events.len() == v.events.len() + 1,
        v.suppressed is None,
    ensures
        recorder::step(recorder::emptied(v), ev, now).events == seq![
            recorder::step(v, ev, now).events.last(),
        ],
{
    if let CapturedEvent::KeyDown { vk, .. } = ev {
        if let Some(combo) = recorder::completed(v.combos, vk, v.down.insert(vk)) {
            recorder::lemma_run_is_of_presses(v.events, combo.modifiers);
        }
    }
}

} // verus!
