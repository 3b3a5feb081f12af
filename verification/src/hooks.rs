//! Raw input: what a hook message says, what is sent to the system, and what the state of
//! the mouse and the keyboard means.

pub mod laws;

use std::collections::HashSet;

use vstd::prelude::*;

use crate::config::HotkeyCombo;
use crate::keys;
use crate::keys::VK_ESCAPE;
use crate::model;
use crate::model::{word_of, MouseButton};
use crate::text;

verus! {

broadcast use vstd::std_specs::hash::group_hash_axioms;

// ---------------------------------------------------------------------------
// Captured events
// ---------------------------------------------------------------------------

/// One raw input sample, as the recorder receives it.
#[derive(Debug, Clone, Copy, PartialEq, Eq, Structural)]
pub enum CapturedEvent {
    MouseMove { x: i32, y: i32 },
    MouseDown { button: MouseButton, x: i32, y: i32 },
    MouseUp { button: MouseButton, x: i32, y: i32 },
    MouseWheel { delta: i32 },
    KeyDown { vk: i32, scan_code: u32 },
    KeyUp { vk: i32, scan_code: u32 },
}

/// The hook code of a message that carries an input.
pub const HC_ACTION: i32 = 0;

pub const WM_KEYDOWN: u32 = 0x0100;

pub const WM_KEYUP: u32 = 0x0101;

pub const WM_SYSKEYDOWN: u32 = 0x0104;

pub const WM_SYSKEYUP: u32 = 0x0105;

pub const WM_MOUSEMOVE: u32 = 0x0200;

pub const WM_LBUTTONDOWN: u32 = 0x0201;

pub const WM_LBUTTONUP: u32 = 0x0202;

pub const WM_RBUTTONDOWN: u32 = 0x0204;

pub const WM_RBUTTONUP: u32 = 0x0205;

pub const WM_MBUTTONDOWN: u32 = 0x0207;

pub const WM_MBUTTONUP: u32 = 0x0208;

pub const WM_MOUSEWHEEL: u32 = 0x020A;

pub const WM_XBUTTONDOWN: u32 = 0x020B;

pub const WM_XBUTTONUP: u32 = 0x020C;

/// The 32 bits of an unsigned number, read as a signed one.
pub open spec fn signed(n: u32) -> i32 {
    if n > 0x7fff_ffff {
        (n - 0x1_0000_0000) as i32
    } else {
        n as i32
    }
}

/// The 32 bits of an unsigned number, read as a signed one.
pub fn signed_of(n: u32) -> (r: i32)
    ensures
        r == signed(n),
{
    if n > 0x7fff_ffff {
        (n as i64 - 0x1_0000_0000) as i32
    } else {
        n as i32
    }
}

/// Whether a keyboard message reports a key going down.
pub open spec fn is_key_down(msg: u32) -> bool {
    msg == WM_KEYDOWN || msg == WM_SYSKEYDOWN
}

/// Whether a keyboard message reports a key going up.
pub open spec fn is_key_up(msg: u32) -> bool {
    msg == WM_KEYUP || msg == WM_SYSKEYUP
}

/// The event that a low-level keyboard message stands for.
pub fn keyboard_event(n_code: i32, msg: u32, vk_code: u32, scan_code: u32) -> (r: Option<
    CapturedEvent,
>)
    ensures
        r == (if n_code != HC_ACTION {
            None::<CapturedEvent>
        } else if is_key_down(msg) {
            Some(CapturedEvent::KeyDown { vk: signed(vk_code), scan_code })
        } else if is_key_up(msg) {
            Some(CapturedEvent::KeyUp { vk: signed(vk_code), scan_code })
        } else {
            None::<CapturedEvent>
        }),
{
    if n_code != HC_ACTION {
        return None;
    }
    let down: bool = msg == WM_KEYDOWN || msg == WM_SYSKEYDOWN;
    let up: bool = msg == WM_KEYUP || msg == WM_SYSKEYUP;
    let vk: i32 = signed_of(vk_code);
    if down {
        Some(CapturedEvent::KeyDown { vk, scan_code })
    } else if up {
        Some(CapturedEvent::KeyUp { vk, scan_code })
    } else {
        None
    }
}

/// The number in the upper 16 bits of the mouse data.
pub open spec fn high_word(data: u32) -> int {
    data as int / 0x1_0000
}

/// The same number, read as a signed one.
pub open spec fn wheel_delta(data: u32) -> int {
    if high_word(data) >= 0x8000 {
        high_word(data) - 0x1_0000
    } else {
        high_word(data)
    }
}

/// The event that a low-level mouse message at a point stands for.
pub open spec fn spec_mouse_event(
    n_code: i32,
    msg: u32,
    x: i32,
    y: i32,
    data: u32,
) -> Option<CapturedEvent> {
    if n_code != HC_ACTION {
        None
    } else if msg == WM_MOUSEMOVE {
        Some(CapturedEvent::MouseMove { x, y })
    } else if msg == WM_LBUTTONDOWN {
        Some(CapturedEvent::MouseDown { button: MouseButton::Left, x, y })
    } else if msg == WM_LBUTTONUP {
        Some(CapturedEvent::MouseUp { button: MouseButton::Left, x, y })
    } else if msg == WM_RBUTTONDOWN {
        Some(CapturedEvent::MouseDown { button: MouseButton::Right, x, y })
    } else if msg == WM_RBUTTONUP {
        Some(CapturedEvent::MouseUp { button: MouseButton::Right, x, y })
    } else if msg == WM_MBUTTONDOWN {
        Some(CapturedEvent::MouseDown { button: MouseButton::Middle, x, y })
    } else if msg == WM_MBUTTONUP {
        Some(CapturedEvent::MouseUp { button: MouseButton::Middle, x, y })
    } else if msg == WM_XBUTTONDOWN && high_word(data) == 1 {
        Some(CapturedEvent::MouseDown { button: MouseButton::X1, x, y })
    } else if msg == WM_XBUTTONDOWN && high_word(data) == 2 {
        Some(CapturedEvent::MouseDown { button: MouseButton::X2, x, y })
    } else if msg == WM_XBUTTONUP && high_word(data) == 1 {
        Some(CapturedEvent::MouseUp { button: MouseButton::X1, x, y })
    } else if msg == WM_XBUTTONUP && high_word(data) == 2 {
        Some(CapturedEvent::MouseUp { button: MouseButton::X2, x, y })
    } else if msg == WM_MOUSEWHEEL {
        Some(CapturedEvent::MouseWheel { delta: wheel_delta(data) as i32 })
    } else {
        None
    }
}

/// The event that a low-level mouse message at a point stands for.
pub fn mouse_event(n_code: i32, msg: u32, x: i32, y: i32, data: u32) -> (r: Option<CapturedEvent>)
    ensures
        r == spec_mouse_event(n_code, msg, x, y, data),
{
    if n_code != HC_ACTION {
        return None;
    }
    let high: u32 = data / 0x1_0000;
    if msg == WM_MOUSEMOVE {
        Some(CapturedEvent::MouseMove { x, y })
    } else if msg == WM_LBUTTONDOWN {
        Some(CapturedEvent::MouseDown { button: MouseButton::Left, x, y })
    } else if msg == WM_LBUTTONUP {
        Some(CapturedEvent::MouseUp { button: MouseButton::Left, x, y })
    } else if msg == WM_RBUTTONDOWN {
        Some(CapturedEvent::MouseDown { button: MouseButton::Right, x, y })
    } else if msg == WM_RBUTTONUP {
        Some(CapturedEvent::MouseUp { button: MouseButton::Right, x, y })
    } else if msg == WM_MBUTTONDOWN {
        Some(CapturedEvent::MouseDown { button: MouseButton::Middle, x, y })
    } else if msg == WM_MBUTTONUP {
        Some(CapturedEvent::MouseUp { button: MouseButton::Middle, x, y })
    } else if msg == WM_XBUTTONDOWN || msg == WM_XBUTTONUP {
        let button: MouseButton = match high {
            1 => MouseButton::X1,
            2 => MouseButton::X2,
            _ => return None,
        };
        if msg == WM_XBUTTONDOWN {
            Some(CapturedEvent::MouseDown { button, x, y })
        } else {
            Some(CapturedEvent::MouseUp { button, x, y })
        }
    } else if msg == WM_MOUSEWHEEL {
        let delta: i32 = if high >= 0x8000 {
            high as i32 - 0x1_0000
        } else {
            high as i32
        };
        Some(CapturedEvent::MouseWheel { delta })
    } else {
        None
    }
}

/// A message never reports a press or release of no button.
pub proof fn law_captured_buttons_are_buttons(n_code: i32, msg: u32, x: i32, y: i32, data: u32)
    ensures
        match spec_mouse_event(n_code, msg, x, y, data) {
            Some(CapturedEvent::MouseDown { button, .. }) => button != MouseButton::NoButton,
            Some(CapturedEvent::MouseUp { button, .. }) => button != MouseButton::NoButton,
            _ => true,
        },
{
}

// ---------------------------------------------------------------------------
// Triple-tap emergency stop
// ---------------------------------------------------------------------------

/// Three taps of Escape within this many milliseconds are an emergency stop.
pub const TRIPLE_TAP_WINDOW_MS: u32 = 600;

/// The Escape taps that still count, and whether an emergency stop waits to be handled.
#[derive(Debug)]
pub struct PanicState {
    pub press_times: Vec<u32>,
    pub triggered: bool,
}

/// The ticks from one reading of the tick counter to a later one. The counter wraps.
pub open spec fn ticks_between(earlier: u32, later: u32) -> int {
    if later >= earlier {
        later - earlier
    } else {
        later - earlier + 0x1_0000_0000
    }
}

/// The ticks from one reading of the tick counter to a later one.
pub fn ticks_since(earlier: u32, later: u32) -> (r: u32)
    ensures
        r == ticks_between(earlier, later),
{
    if later >= earlier {
        later - earlier
    } else {
        (later as i64 - earlier as i64 + 0x1_0000_0000) as u32
    }
}

/// The taps that count once another tap came: those within the window before it.
pub open spec fn counted_taps(times: Seq<u32>, now: u32) -> Seq<u32> {
    times.push(now).filter(|t: u32| ticks_between(t, now) <= TRIPLE_TAP_WINDOW_MS)
}

/// Whether a tap is the third that counts.
pub open spec fn fires(times: Seq<u32>, now: u32) -> bool {
    counted_taps(times, now).len() >= 3
}

/// The taps that are remembered after another tap: none after one that fires.
pub open spec fn remembered(times: Seq<u32>, now: u32) -> Seq<u32> {
    if fires(times, now) {
        Seq::empty()
    } else {
        counted_taps(times, now)
    }
}

impl PanicState {
    pub fn new() -> (r: Self)
        ensures
            r.press_times@ == Seq::<u32>::empty(),
            !r.triggered,
    {
        PanicState { press_times: Vec::new(), triggered: false }
    }
}

/// Counts a tap of Escape at a time. Returns whether it was the third within the window; the
/// count then starts anew.
pub fn check_panic_triple_tap(state: &mut PanicState, now: u32) -> (r: bool)
    ensures
        r == fires(old(state).press_times@, now),
        final(state).press_times@ == remembered(old(state).press_times@, now),
        final(state).triggered == old(state).triggered,
{
    let ghost keep = |t: u32| ticks_between(t, now) <= TRIPLE_TAP_WINDOW_MS;
    state.press_times.push(now);
    let ghost all = state.press_times@;
    let mut kept: Vec<u32> = Vec::new();
    let mut i: usize = 0;
    proof {
        assert(all.take(0).filter(keep) =~= Seq::<u32>::empty()) by {
            reveal(Seq::filter);
        }
    }
    while i < state.press_times.len()
        invariant
            i <= state.press_times.len(),
            state.press_times@ == all,
            state.triggered == old(state).triggered,
            keep == (|t: u32| ticks_between(t, now) <= TRIPLE_TAP_WINDOW_MS),
            kept@ == all.take(i as int).filter(keep),
        decreases state.press_times.len() - i,
    {
        proof {
            reveal(Seq::filter);
            assert(all.take(i + 1).drop_last() =~= all.take(i as int));
        }
        let t: u32 = state.press_times[i];
        if ticks_since(t, now) <= TRIPLE_TAP_WINDOW_MS {
            kept.push(t);
        }
        i = i + 1;
    }
    proof {
        assert(all.take(i as int) =~= all);
    }
    if kept.len() >= 3 {
        state.press_times.clear();
        true
    } else {
        state.press_times = kept;
        false
    }
}

/// Takes the pending emergency stop, if there is one: the next call finds none.
pub fn take_panic_triggered(state: &mut PanicState) -> (r: bool)
    ensures
        r == old(state).triggered,
        *final(state) == (PanicState { triggered: false, ..*old(state) }),
{
    let r: bool = state.triggered;
    state.triggered = false;
    r
}

/// Makes an emergency stop pending.
pub fn trigger_panic(state: &mut PanicState)
    ensures
        *final(state) == (PanicState { triggered: true, ..*old(state) }),
{
    state.triggered = true;
}

/// Handles a keyboard message: a tap of Escape counts, and the third within the window makes
/// an emergency stop pending. Every other message changes nothing.
pub fn panic_key_message(state: &mut PanicState, n_code: i32, msg: u32, vk_code: u32, now: u32)
    ensures
        if n_code == HC_ACTION && is_key_down(msg) && signed(vk_code) == VK_ESCAPE {
            &&& final(state).press_times@ == remembered(old(state).press_times@, now)
            &&& final(state).triggered == (old(state).triggered || fires(
                old(state).press_times@,
                now,
            ))
        } else {
            *final(state) == *old(state)
        },
{
    if n_code == HC_ACTION {
        let down: bool = msg == WM_KEYDOWN || msg == WM_SYSKEYDOWN;
        if down && signed_of(vk_code) == VK_ESCAPE {
            if check_panic_triple_tap(state, now) {
                trigger_panic(state);
            }
        }
    }
}

/// Counts a tap of Escape at a time.
pub fn panic_test_push_and_check(state: &mut PanicState, now: u32) -> (r: bool)
    ensures
        r == fires(old(state).press_times@, now),
        final(state).press_times@ == remembered(old(state).press_times@, now),
        final(state).triggered == old(state).triggered,
{
    check_panic_triple_tap(state, now)
}

/// Forgets the taps and the pending emergency stop.
pub fn panic_test_clear(state: &mut PanicState)
    ensures
        final(state).press_times@ == Seq::<u32>::empty(),
        !final(state).triggered,
{
    state.press_times.clear();
    state.triggered = false;
}

proof fn lemma_counted_one(now: u32)
    ensures
        counted_taps(Seq::empty(), now) == seq![now],
{
    reveal(Seq::filter);
    let keep = |t: u32| ticks_between(t, now) <= TRIPLE_TAP_WINDOW_MS;
    assert(Seq::<u32>::empty().push(now).drop_last() =~= Seq::<u32>::empty());
    assert(Seq::<u32>::empty().filter(keep) =~= Seq::<u32>::empty());
    assert(Seq::<u32>::empty().push(now).filter(keep) =~= seq![now]);
}

/// Three taps fire where the two earlier ones lie within the window before the third, and
/// the first within the window before the second.
pub proof fn law_three_quick_taps_fire(a: u32, b: u32, c: u32)
    requires
        ticks_between(a, b) <= TRIPLE_TAP_WINDOW_MS,
        ticks_between(a, c) <= TRIPLE_TAP_WINDOW_MS,
        ticks_between(b, c) <= TRIPLE_TAP_WINDOW_MS,
    ensures
        counted_taps(Seq::empty(), a) == seq![a],
        counted_taps(seq![a], b) == seq![a, b],
        counted_taps(seq![a, b], c).len() == 3,
{
    reveal(Seq::filter);
    lemma_counted_one(a);
    let kb = |t: u32| ticks_between(t, b) <= TRIPLE_TAP_WINDOW_MS;
    let kc = |t: u32| ticks_between(t, c) <= TRIPLE_TAP_WINDOW_MS;
    let s1 = seq![a];
    let s2 = seq![a, b];
    assert(s1.drop_last() =~= Seq::<u32>::empty());
    assert(s2.drop_last() =~= s1);
    assert(s1.push(b).drop_last() =~= s1);
    assert(s2.push(c).drop_last() =~= s2);
    assert(Seq::<u32>::empty().filter(kb) =~= Seq::<u32>::empty());
    assert(Seq::<u32>::empty().filter(kc) =~= Seq::<u32>::empty());
    assert(s1.filter(kb) =~= s1);
    assert(s1.push(b).filter(kb) =~= s2);
    assert(s1.filter(kc) =~= s1);
    assert(s2.filter(kc) =~= s2);
    assert(s2.push(c).filter(kc) =~= s2.push(c));
}

/// A tap that comes after the window of every earlier one stands alone.
pub proof fn law_slow_tap_stands_alone(times: Seq<u32>, now: u32)
    requires
        forall|i: int|
            0 <= i < times.len() ==> ticks_between(#[trigger] times[i], now)
                > TRIPLE_TAP_WINDOW_MS,
    ensures
        counted_taps(times, now) == seq![now],
    decreases times.len(),
{
    reveal(Seq::filter);
    let keep = |t: u32| ticks_between(t, now) <= TRIPLE_TAP_WINDOW_MS;
    assert(times.push(now).drop_last() =~= times);
    if times.len() == 0 {
        assert(times.filter(keep) =~= Seq::<u32>::empty());
    } else {
        let rest = times.drop_last();
        law_slow_tap_stands_alone(rest, now);
        assert(rest.push(now).drop_last() =~= rest);
        assert(rest.filter(keep).push(now) == seq![now]);
        assert(rest.filter(keep) =~= Seq::<u32>::empty()) by {
            assert(rest.filter(keep).push(now).len() == 1);
        }
        assert(times.filter(keep) =~= Seq::<u32>::empty());
    }
    assert(counted_taps(times, now) =~= seq![now]);
}

/// The taps that are remembered after a series of taps, starting from none.
pub open spec fn after_taps(taps: Seq<u32>) -> Seq<u32>
    decreases taps.len(),
{
    if taps.len() == 0 {
        Seq::empty()
    } else {
        remembered(after_taps(taps.drop_last()), taps.last())
    }
}

/// At most two taps are ever remembered.
pub proof fn law_at_most_two_taps_remembered(taps: Seq<u32>)
    ensures
        after_taps(taps).len() <= 2,
{
}

/// The ticks of a series do not go back.
pub open spec fn in_order(taps: Seq<u32>) -> bool {
    forall|i: int, j: int| 0 <= i <= j < taps.len() ==> taps[i] <= taps[j]
}

/// Any tap lies outside the window of the one before the last one.
pub open spec fn spread(taps: Seq<u32>) -> bool {
    forall|i: int, j: int|
        0 <= i && i + 2 <= j < taps.len() ==> #[trigger] taps[j] - #[trigger] taps[i]
            > TRIPLE_TAP_WINDOW_MS
}

proof fn lemma_spread_taps(taps: Seq<u32>)
    requires
        in_order(taps),
        spread(taps),
    ensures
        after_taps(taps).len() <= taps.len(),
        after_taps(taps).len() <= 2,
        taps.len() > 0 ==> after_taps(taps).len() > 0 && after_taps(taps).last() == taps.last(),
        after_taps(taps).len() == 2 ==> after_taps(taps)[0] == taps[taps.len() - 2],
        taps.len() > 0 ==> !fires(after_taps(taps.drop_last()), taps.last()),
    decreases taps.len(),
{
    if taps.len() > 0 {
        let rest = taps.drop_last();
        let now = taps.last();
        lemma_spread_taps(rest);
        let before = after_taps(rest);
        let keep = |t: u32| ticks_between(t, now) <= TRIPLE_TAP_WINDOW_MS;
        reveal(Seq::filter);
        assert(before.push(now).drop_last() =~= before);
        if before.len() > 0 {
            let first = before.drop_last();
            assert(before.last() == taps[taps.len() - 2]);
            if before.len() == 2 {
                assert(first.last() == taps[taps.len() - 3]);
                assert(taps[taps.len() - 1] - taps[taps.len() - 3] > TRIPLE_TAP_WINDOW_MS);
                assert(first.drop_last() =~= Seq::<u32>::empty());
                assert(first.drop_last().filter(keep) =~= Seq::<u32>::empty());
            }
            assert(first.filter(keep) =~= Seq::<u32>::empty());
            assert(before.filter(keep).len() <= 1);
        } else {
            assert(before.filter(keep) =~= Seq::<u32>::empty());
        }
    }
}

/// Taps of which no three lie within one window never fire.
pub proof fn law_spread_taps_never_fire(taps: Seq<u32>)
    requires
        taps.len() > 0,
        in_order(taps),
        spread(taps),
    ensures
        !fires(after_taps(taps.drop_last()), taps.last()),
{
    lemma_spread_taps(taps);
}

// ---------------------------------------------------------------------------
// What is sent to the system
// ---------------------------------------------------------------------------

/// The rectangle that all screens together span.
#[derive(Debug, Clone, Copy, PartialEq, Eq, Structural)]
pub struct VirtualScreen {
    pub left: i32,
    pub top: i32,
    pub width: i32,
    pub height: i32,
}

/// The largest coordinate of absolute mouse input.
pub const ABSOLUTE_MAX: i32 = 65535;

/// A position along one axis of the virtual screen, in absolute mouse coordinates: 0 at its
/// origin, the largest coordinate at its last pixel.
pub open spec fn absolute(pos: int, origin: int, extent: int) -> int {
    if extent <= 1 {
        0
    } else {
        model::clamp(((pos - origin) * ABSOLUTE_MAX) / (extent - 1), 0, ABSOLUTE_MAX as int)
    }
}

impl VirtualScreen {
    /// Whether the distance of a point from the origin can be computed in 32 bits.
    pub open spec fn spec_fits(self, x: i32, y: i32) -> bool {
        &&& i32::MIN <= x - self.left <= i32::MAX
        &&& i32::MIN <= y - self.top <= i32::MAX
    }

    /// Whether the distance of a point from the origin can be computed in 32 bits.
    pub fn fits(&self, x: i32, y: i32) -> (r: bool)
        ensures
            r == self.spec_fits(x, y),
    {
        let dx: i64 = x as i64 - self.left as i64;
        let dy: i64 = y as i64 - self.top as i64;
        -0x8000_0000 <= dx && dx <= 0x7fff_ffff && -0x8000_0000 <= dy && dy <= 0x7fff_ffff
    }
}

fn absolute_on_axis(offset: i32, extent: i32) -> (r: i32)
    ensures
        r == absolute(offset as int, 0, extent as int),
{
    if extent <= 1 {
        return 0;
    }
    let last: i64 = extent as i64 - 1;
    if offset < 0 {
        proof {
            assert((offset * 65535) / last as int <= 0) by (nonlinear_arith)
                requires
                    offset < 0,
                    last > 0,
            ;
        }
        return 0;
    }
    let scaled: i64 = (offset as i64 * 65535) / last;
    if scaled > 65535 {
        ABSOLUTE_MAX
    } else {
        proof {
            assert(scaled >= 0) by (nonlinear_arith)
                requires
                    scaled == (offset * 65535) / last as int,
                    offset >= 0,
                    last > 0,
            ;
        }
        scaled as i32
    }
}

/// A point of the screen in absolute mouse coordinates.
pub fn absolute_coords(screen_x: i32, screen_y: i32, screen: VirtualScreen) -> (r: (i32, i32))
    requires
        screen.spec_fits(screen_x, screen_y),
    ensures
        r.0 == absolute(screen_x as int, screen.left as int, screen.width as int),
        r.1 == absolute(screen_y as int, screen.top as int, screen.height as int),
{
    let fx: i32 = absolute_on_axis(screen_x - screen.left, screen.width);
    let fy: i32 = absolute_on_axis(screen_y - screen.top, screen.height);
    (fx, fy)
}

/// Absolute coordinates keep the order of positions.
pub proof fn law_absolute_is_monotone(a: int, b: int, origin: int, extent: int)
    requires
        a <= b,
    ensures
        absolute(a, origin, extent) <= absolute(b, origin, extent),
{
    if extent > 1 {
        let d = extent - 1;
        assert(((a - origin) * 65535) / d <= ((b - origin) * 65535) / d) by {
            vstd::arithmetic::div_mod::lemma_div_is_ordered(
                (a - origin) * 65535,
                (b - origin) * 65535,
                d,
            );
        }
    }
}

/// The first pixel of the virtual screen has the smallest absolute coordinate, the last one
/// the largest.
pub proof fn law_absolute_spans_the_screen(origin: int, extent: int)
    requires
        extent > 1,
    ensures
        absolute(origin, origin, extent) == 0,
        absolute(origin + extent - 1, origin, extent) == ABSOLUTE_MAX,
{
    let d = extent - 1;
    assert((0int * 65535) / d == 0) by (nonlinear_arith)
        requires
            d > 0,
    ;
    assert((d * 65535) / d == 65535) by (nonlinear_arith)
        requires
            d > 0,
    ;
}

/// Absolute coordinates are in bounds wherever the point lies.
pub proof fn law_absolute_is_in_bounds(pos: int, origin: int, extent: int)
    ensures
        0 <= absolute(pos, origin, extent) <= ABSOLUTE_MAX,
{
}

pub const MOUSEEVENTF_MOVE: u32 = 0x0001;

pub const MOUSEEVENTF_LEFTDOWN: u32 = 0x0002;

pub const MOUSEEVENTF_LEFTUP: u32 = 0x0004;

pub const MOUSEEVENTF_RIGHTDOWN: u32 = 0x0008;

pub const MOUSEEVENTF_RIGHTUP: u32 = 0x0010;

pub const MOUSEEVENTF_MIDDLEDOWN: u32 = 0x0020;

pub const MOUSEEVENTF_MIDDLEUP: u32 = 0x0040;

pub const MOUSEEVENTF_XDOWN: u32 = 0x0080;

pub const MOUSEEVENTF_XUP: u32 = 0x0100;

pub const MOUSEEVENTF_WHEEL: u32 = 0x0800;

/// The flags of input at absolute coordinates of the virtual screen.
pub const ABSOLUTE_FLAGS: u32 = 0xC000;

/// One mouse input as the system takes it.
#[derive(Debug, Clone, Copy, PartialEq, Eq, Structural)]
pub struct MouseInput {
    pub dx: i32,
    pub dy: i32,
    pub mouse_data: u32,
    pub flags: u32,
}

/// An absolute mouse input at a point of the screen.
pub open spec fn input_at(
    x: i32,
    y: i32,
    screen: VirtualScreen,
    mouse_data: u32,
    flag: u32,
) -> MouseInput {
    MouseInput {
        dx: absolute(x as int, screen.left as int, screen.width as int) as i32,
        dy: absolute(y as int, screen.top as int, screen.height as int) as i32,
        mouse_data,
        flags: (ABSOLUTE_FLAGS + flag) as u32,
    }
}

/// The input that moves the mouse to a point of the screen.
pub fn mouse_move_input(screen_x: i32, screen_y: i32, screen: VirtualScreen) -> (r: MouseInput)
    requires
        screen.spec_fits(screen_x, screen_y),
    ensures
        r == input_at(screen_x, screen_y, screen, 0, MOUSEEVENTF_MOVE),
{
    let (dx, dy) = absolute_coords(screen_x, screen_y, screen);
    MouseInput { dx, dy, mouse_data: 0, flags: ABSOLUTE_FLAGS + MOUSEEVENTF_MOVE }
}

/// The flag of a press of a button.
pub open spec fn down_flag(button: MouseButton) -> u32 {
    match button {
        MouseButton::Left => MOUSEEVENTF_LEFTDOWN,
        MouseButton::Right => MOUSEEVENTF_RIGHTDOWN,
        MouseButton::Middle => MOUSEEVENTF_MIDDLEDOWN,
        MouseButton::X1 | MouseButton::X2 => MOUSEEVENTF_XDOWN,
        MouseButton::NoButton => MOUSEEVENTF_MOVE,
    }
}

/// The flag of a release of a button.
pub open spec fn up_flag(button: MouseButton) -> u32 {
    match button {
        MouseButton::Left => MOUSEEVENTF_LEFTUP,
        MouseButton::Right => MOUSEEVENTF_RIGHTUP,
        MouseButton::Middle => MOUSEEVENTF_MIDDLEUP,
        MouseButton::X1 | MouseButton::X2 => MOUSEEVENTF_XUP,
        MouseButton::NoButton => MOUSEEVENTF_MOVE,
    }
}

/// The number that tells the two extra buttons apart.
pub open spec fn x_data(button: MouseButton) -> u32 {
    match button {
        MouseButton::X1 => 1,
        MouseButton::X2 => 2,
        _ => 0,
    }
}

/// The flags of a press and of a release of a button, and its number among the extra ones.
pub fn button_flags(button: MouseButton) -> (r: (u32, u32, u32))
    ensures
        r == (down_flag(button), up_flag(button), x_data(button)),
{
    match button {
        MouseButton::Left => (MOUSEEVENTF_LEFTDOWN, MOUSEEVENTF_LEFTUP, 0),
        MouseButton::Right => (MOUSEEVENTF_RIGHTDOWN, MOUSEEVENTF_RIGHTUP, 0),
        MouseButton::Middle => (MOUSEEVENTF_MIDDLEDOWN, MOUSEEVENTF_MIDDLEUP, 0),
        MouseButton::X1 => (MOUSEEVENTF_XDOWN, MOUSEEVENTF_XUP, 1),
        MouseButton::X2 => (MOUSEEVENTF_XDOWN, MOUSEEVENTF_XUP, 2),
        MouseButton::NoButton => (MOUSEEVENTF_MOVE, MOUSEEVENTF_MOVE, 0),
    }
}

/// The inputs of a click at a point: a move there, then press and release, twice for a double
/// click. None for no button.
pub open spec fn spec_click_inputs(
    button: MouseButton,
    is_double: bool,
    x: i32,
    y: i32,
    screen: VirtualScreen,
) -> Seq<MouseInput> {
    let go = input_at(x, y, screen, 0, MOUSEEVENTF_MOVE);
    let down = input_at(x, y, screen, x_data(button), down_flag(button));
    let up = input_at(x, y, screen, x_data(button), up_flag(button));
    if button == MouseButton::NoButton {
        Seq::empty()
    } else if is_double {
        seq![go, down, up, down, up]
    } else {
        seq![go, down, up]
    }
}

/// The inputs of a click at a point, to be sent in one call so that nothing comes between
/// them.
pub fn click_inputs(
    button: MouseButton,
    is_double: bool,
    target_x: i32,
    target_y: i32,
    screen: VirtualScreen,
) -> (r: Vec<MouseInput>)
    requires
        screen.spec_fits(target_x, target_y),
    ensures
        r@ == spec_click_inputs(button, is_double, target_x, target_y, screen),
{
    let mut inputs: Vec<MouseInput> = Vec::new();
    if button == MouseButton::NoButton {
        return inputs;
    }
    let (dx, dy) = absolute_coords(target_x, target_y, screen);
    let (down_flag, up_flag, mouse_data) = button_flags(button);
    inputs.push(MouseInput { dx, dy, mouse_data: 0, flags: ABSOLUTE_FLAGS + MOUSEEVENTF_MOVE });
    inputs.push(MouseInput { dx, dy, mouse_data, flags: ABSOLUTE_FLAGS + down_flag });
    inputs.push(MouseInput { dx, dy, mouse_data, flags: ABSOLUTE_FLAGS + up_flag });
    if is_double {
        inputs.push(MouseInput { dx, dy, mouse_data, flags: ABSOLUTE_FLAGS + down_flag });
        inputs.push(MouseInput { dx, dy, mouse_data, flags: ABSOLUTE_FLAGS + up_flag });
    }
    inputs
}

/// Every press of a click is released by the input that follows it.
pub proof fn law_click_releases_what_it_presses(
    button: MouseButton,
    is_double: bool,
    x: i32,
    y: i32,
    screen: VirtualScreen,
    i: int,
)
    requires
        button != MouseButton::NoButton,
        0 <= i < spec_click_inputs(button, is_double, x, y, screen).len(),
        spec_click_inputs(button, is_double, x, y, screen)[i] == input_at(
            x,
            y,
            screen,
            x_data(button),
            down_flag(button),
        ),
    ensures
        i + 1 < spec_click_inputs(button, is_double, x, y, screen).len(),
        spec_click_inputs(button, is_double, x, y, screen)[i + 1] == input_at(
            x,
            y,
            screen,
            x_data(button),
            up_flag(button),
        ),
{
}

/// A message that tells a window of a press or release of a button.
#[derive(Debug, Clone, Copy, PartialEq, Eq, Structural)]
pub struct ClickMessage {
    pub msg: u32,
    pub wparam: u32,
    pub lparam: u32,
}

/// The message and key state of a press or release in a window, for the buttons that windows
/// are told of.
pub open spec fn click_code(button: MouseButton, down: bool) -> Option<(u32, u32)> {
    match button {
        MouseButton::Left => Some(
            if down {
                (WM_LBUTTONDOWN, 0x0001u32)
            } else {
                (WM_LBUTTONUP, 0u32)
            },
        ),
        MouseButton::Right => Some(
            if down {
                (WM_RBUTTONDOWN, 0x0002u32)
            } else {
                (WM_RBUTTONUP, 0u32)
            },
        ),
        MouseButton::Middle => Some(
            if down {
                (WM_MBUTTONDOWN, 0x0010u32)
            } else {
                (WM_MBUTTONUP, 0u32)
            },
        ),
        _ => None,
    }
}

/// A point of a window in one number: its column in the lower 16 bits, its row above them.
pub open spec fn packed_point(x: int, y: int) -> int {
    (y % 0x1_0000) * 0x1_0000 + x % 0x1_0000
}

/// The message that tells a window of a press or release of a button at a point of it.
pub fn click_message(button: MouseButton, client_x: i32, client_y: i32, down: bool) -> (r: Option<
    ClickMessage,
>)
    ensures
        match click_code(button, down) {
            Some(code) => r == Some(
                ClickMessage {
                    msg: code.0,
                    wparam: code.1,
                    lparam: packed_point(client_x as int, client_y as int) as u32,
                },
            ),
            None => r == None::<ClickMessage>,
        },
{
    let (msg, wparam): (u32, u32) = match (button, down) {
        (MouseButton::Left, true) => (WM_LBUTTONDOWN, 0x0001),
        (MouseButton::Left, false) => (WM_LBUTTONUP, 0x0000),
        (MouseButton::Right, true) => (WM_RBUTTONDOWN, 0x0002),
        (MouseButton::Right, false) => (WM_RBUTTONUP, 0x0000),
        (MouseButton::Middle, true) => (WM_MBUTTONDOWN, 0x0010),
        (MouseButton::Middle, false) => (WM_MBUTTONUP, 0x0000),
        _ => return None,
    };
    let row: u32 = word_of(client_y) % 0x1_0000;
    let column: u32 = word_of(client_x) % 0x1_0000;
    Some(ClickMessage { msg, wparam, lparam: row * 0x1_0000 + column })
}

/// A packed point keeps any row and column that fit in 16 bits.
pub proof fn law_packed_point_reads_back(x: int, y: int)
    requires
        0 <= x < 0x1_0000,
        0 <= y < 0x1_0000,
    ensures
        packed_point(x, y) % 0x1_0000 == x,
        packed_point(x, y) / 0x1_0000 == y,
{
}

// ---------------------------------------------------------------------------
// Keys, buttons and windows
// ---------------------------------------------------------------------------

/// Whether a hotkey is held, given the keys that are down.
pub fn is_hotkey_pressed(combo: &HotkeyCombo, down: &HashSet<i32>) -> (r: bool)
    ensures
        r == keys::pressed(*combo, down@),
{
    if combo.key == 0 {
        return false;
    }
    keys::modifiers_held_match(combo, down) && down.contains(&combo.key)
}

/// The virtual key of a mouse button.
pub open spec fn spec_button_key(button: MouseButton) -> Option<i32> {
    match button {
        MouseButton::Left => Some(0x01),
        MouseButton::Right => Some(0x02),
        MouseButton::Middle => Some(0x04),
        MouseButton::X1 => Some(0x05),
        MouseButton::X2 => Some(0x06),
        MouseButton::NoButton => None,
    }
}

/// The virtual key of a mouse button.
pub fn button_key(button: MouseButton) -> (r: Option<i32>)
    ensures
        r == spec_button_key(button),
{
    match button {
        MouseButton::Left => Some(0x01),
        MouseButton::Right => Some(0x02),
        MouseButton::Middle => Some(0x04),
        MouseButton::X1 => Some(0x05),
        MouseButton::X2 => Some(0x06),
        MouseButton::NoButton => None,
    }
}

/// Whether a mouse button is held, given the keys that are down.
pub fn is_real_button_down(button: MouseButton, down: &HashSet<i32>) -> (r: bool)
    ensures
        r == match spec_button_key(button) {
            Some(vk) => down@.contains(vk),
            None => false,
        },
{
    match button_key(button) {
        Some(vk) => down.contains(&vk),
        None => false,
    }
}

/// A window, by the number of its handle.
#[derive(Debug, Clone, Copy, PartialEq, Eq, Structural)]
pub struct SafeHwnd(pub usize);

impl SafeHwnd {
    /// The window of a handle, unless it is the null handle.
    pub fn from_handle(handle: usize) -> (r: Option<SafeHwnd>)
        ensures
            r == (if handle == 0 {
                None::<SafeHwnd>
            } else {
                Some(SafeHwnd(handle))
            }),
    {
        if handle == 0 {
            None
        } else {
            Some(SafeHwnd(handle))
        }
    }

    /// How the window is called: its title text, or its handle where it has none.
    pub open spec fn spec_title(self, text: Seq<char>) -> Seq<char> {
        if text.len() == 0 {
            "HWND 0x"@ + text::hex_upper(self.0 as nat)
        } else {
            text
        }
    }

    /// How the window is called: its title text, or its handle where it has none.
    pub fn title(self, text: &str) -> (r: String)
        ensures
            r@ == self.spec_title(text@),
    {
        if text.unicode_len() == 0 {
            let mut s: String = "HWND 0x".to_owned();
            text::push_hex_upper(&mut s, self.0 as u64);
            s
        } else {
            text.to_owned()
        }
    }
}

/// The window of a title, given the handle that a search for the title found. An empty title
/// is that of no window.
pub fn find_window_by_title(title: &str, found: usize) -> (r: Option<SafeHwnd>)
    ensures
        r == (if title@.len() == 0 || found == 0 {
            None::<SafeHwnd>
        } else {
            Some(SafeHwnd(found))
        }),
{
    if title.unicode_len() == 0 {
        return None;
    }
    SafeHwnd::from_handle(found)
}

/// The bounds of a window on the screen.
#[derive(Debug, Clone, Copy, PartialEq, Eq, Structural)]
pub struct ScreenRect {
    pub left: i32,
    pub top: i32,
    pub right: i32,
    pub bottom: i32,
}

impl ScreenRect {
    /// Whether a point lies in the rectangle, its edges included.
    pub open spec fn spec_holds(self, x: i32, y: i32) -> bool {
        self.left <= x <= self.right && self.top <= y <= self.bottom
    }

    /// Whether a point lies in the rectangle, its edges included.
    pub fn holds(&self, x: i32, y: i32) -> (r: bool)
        ensures
            r == self.spec_holds(x, y),
    {
        x >= self.left && x <= self.right && y >= self.top && y <= self.bottom
    }
}

/// Whether a point lies in a window that may not be there.
pub open spec fn in_window(x: i32, y: i32, window: Option<ScreenRect>) -> bool {
    match window {
        Some(rect) => rect.spec_holds(x, y),
        None => false,
    }
}

/// Whether a point lies in the main window, given its bounds.
pub fn is_point_in_tinytask(x: i32, y: i32, window: Option<ScreenRect>) -> (r: bool)
    ensures
        r == in_window(x, y, window),
{
    match window {
        Some(rect) => rect.holds(x, y),
        None => false,
    }
}

/// Whether a point lies in the window of the click sequence, given its bounds.
pub fn is_point_in_sequence_window(x: i32, y: i32, window: Option<ScreenRect>) -> (r: bool)
    ensures
        r == in_window(x, y, window),
{
    match window {
        Some(rect) => rect.holds(x, y),
        None => false,
    }
}

/// Whether a point lies in either window of this program.
pub fn is_point_in_app_window(
    x: i32,
    y: i32,
    main: Option<ScreenRect>,
    sequence: Option<ScreenRect>,
) -> (r: bool)
    ensures
        r == (in_window(x, y, main) || in_window(x, y, sequence)),
{
    is_point_in_tinytask(x, y, main) || is_point_in_sequence_window(x, y, sequence)
}

// ---------------------------------------------------------------------------
// Real input against our own
// ---------------------------------------------------------------------------

/// The ticks at which this program last began and ended sending input. An end of 0 means
/// that it has sent none.
#[derive(Debug, Clone, Copy, PartialEq, Eq, Structural)]
pub struct InjectionWindow {
    pub start: u32,
    pub end: u32,
}

/// The ticks by which input may be stamped late.
pub const INJECTION_SLACK_MS: u32 = 5;

impl InjectionWindow {
    pub fn new() -> (r: Self)
        ensures
            r == (InjectionWindow { start: 0, end: 0 }),
    {
        InjectionWindow { start: 0, end: 0 }
    }

    /// Whether input with a time stamp is this program's own.
    pub open spec fn spec_covers(self, stamp: u32) -> bool {
        self.end != 0 && ticks_between(self.start, stamp) <= ticks_between(self.start, self.end)
            + INJECTION_SLACK_MS
    }
}

/// Notes the ticks at which a burst of our own input began and ended.
pub fn note_own_injection(window: &mut InjectionWindow, start: u32, end: u32)
    ensures
        *final(window) == (InjectionWindow { start, end }),
{
    window.start = start;
    window.end = end;
}

/// Whether the user has touched mouse or keyboard within the last milliseconds, given the
/// time stamp of the last input of any kind. An unknown time stamp counts as long ago.
pub open spec fn user_active(
    threshold_ms: u32,
    last_input: Option<u32>,
    now: u32,
    own: InjectionWindow,
) -> bool {
    match last_input {
        Some(stamp) => ticks_between(stamp, now) < threshold_ms && !own.spec_covers(stamp),
        None => false,
    }
}

/// Whether the user has touched mouse or keyboard within the last milliseconds.
pub fn real_input_recently(
    threshold_ms: u32,
    last_input: Option<u32>,
    now: u32,
    own: &InjectionWindow,
) -> (r: bool)
    ensures
        r == user_active(threshold_ms, last_input, now, *own),
{
    let stamp: u32 = match last_input {
        Some(stamp) => stamp,
        None => return false,
    };
    if ticks_since(stamp, now) >= threshold_ms {
        return false;
    }
    if own.end != 0 {
        let rel: i64 = ticks_since(own.start, stamp) as i64;
        let span: i64 = ticks_since(own.start, own.end) as i64;
        if rel <= span + INJECTION_SLACK_MS as i64 {
            return false;
        }
    }
    true
}

/// Input of our own is never taken for the user's: whatever is stamped within the noted
/// ticks does not count as activity.
pub proof fn law_own_input_is_not_activity(
    threshold_ms: u32,
    stamp: u32,
    now: u32,
    start: u32,
    end: u32,
)
    requires
        end != 0,
        ticks_between(start, stamp) <= ticks_between(start, end),
    ensures
        !user_active(threshold_ms, Some(stamp), now, (InjectionWindow { start, end })),
{
}

// ---------------------------------------------------------------------------
// Installing the hooks
// ---------------------------------------------------------------------------

/// What is left to do once both hooks were asked for.
#[derive(Debug, Clone, Copy, PartialEq, Eq, Structural)]
pub enum HookOutcome {
    /// Both hooks are in place.
    Installed,
    /// One or both are missing: the one that is in place is taken out again.
    Failed { unhook_mouse: bool, unhook_keyboard: bool },
}

/// Whether hooks can be installed: not while others are.
pub fn may_install_hooks(installed: bool) -> (r: Result<(), String>)
    ensures
        match r {
            Ok(_) => !installed,
            Err(e) => installed && e@
                == "hooks already installed — drop previous HookHandles first"@,
        },
{
    if installed {
        Err("hooks already installed — drop previous HookHandles first".to_owned())
    } else {
        Ok(())
    }
}

/// What is left to do, given which of the two hooks the system put in place.
pub fn hook_outcome(mouse: bool, keyboard: bool) -> (r: HookOutcome)
    ensures
        r == (if mouse && keyboard {
            HookOutcome::Installed
        } else {
            HookOutcome::Failed { unhook_mouse: mouse, unhook_keyboard: keyboard }
        }),
{
    if mouse && keyboard {
        HookOutcome::Installed
    } else {
        HookOutcome::Failed { unhook_mouse: mouse, unhook_keyboard: keyboard }
    }
}

/// The text of a failure of the system to install the hooks.
pub fn hook_error(error: &str) -> (r: String)
    ensures
        r@ == "SetWindowsHookEx failed: "@ + error@,
{
    let mut s: String = "SetWindowsHookEx failed: ".to_owned();
    s.append(error);
    s
}

/// The text of a failure of the system to install the emergency stop.
pub fn panic_hook_error(error: &str) -> (r: String)
    ensures
        r@ == "panic hook SetWindowsHookEx failed: "@ + error@,
{
    let mut s: String = "panic hook SetWindowsHookEx failed: ".to_owned();
    s.append(error);
    s
}

} // verus!
