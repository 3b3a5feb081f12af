//! What the numbers of the system mean: messages, flags, keys and ticks.

use std::collections::HashSet;

use vstd::prelude::*;

use crate::config::HotkeyCombo;
use crate::hooks;
use crate::hooks::{
    absolute_coords, button_flags, button_key, click_inputs, click_message, find_window_by_title,
    hook_outcome, is_hotkey_pressed, is_point_in_app_window, is_real_button_down, keyboard_event,
    mouse_event, mouse_move_input, panic_key_message, real_input_recently, take_panic_triggered,
    ticks_since, CapturedEvent, ClickMessage, HookOutcome, InjectionWindow, MouseInput,
    PanicState, SafeHwnd, ScreenRect, VirtualScreen,
};
use crate::keys;
use crate::model;
use crate::model::MouseButton;
use crate::text;

verus! {

// ---------------------------------------------------------------------------
// Messages
// ---------------------------------------------------------------------------

/// A press or release of a button, as it is captured.
pub open spec fn button_event(button: MouseButton, down: bool, x: i32, y: i32) -> CapturedEvent {
    if down {
        CapturedEvent::MouseDown { button, x, y }
    } else {
        CapturedEvent::MouseUp { button, x, y }
    }
}

/// The message of the system for a press or release of a button, and the mouse data that go
/// with it. The numbers are the system's.
pub open spec fn system_message(button: MouseButton, down: bool) -> (u32, u32) {
    match (button, down) {
        (MouseButton::Left, true) => (0x0201, 0),
        (MouseButton::Left, false) => (0x0202, 0),
        (MouseButton::Right, true) => (0x0204, 0),
        (MouseButton::Right, false) => (0x0205, 0),
        (MouseButton::Middle, true) => (0x0207, 0),
        (MouseButton::Middle, false) => (0x0208, 0),
        (MouseButton::X1, true) => (0x020B, 0x1_0000),
        (MouseButton::X1, false) => (0x020C, 0x1_0000),
        (MouseButton::X2, true) => (0x020B, 0x2_0000),
        (MouseButton::X2, false) => (0x020C, 0x2_0000),
        (MouseButton::NoButton, _) => (0, 0),
    }
}

/// Every press and release of a button is captured as such, at its point.
pub proof fn law_button_messages_are_captured(
    button: MouseButton,
    down: bool,
    x: i32,
    y: i32,
    r: Option<CapturedEvent>,
)
    requires
        button != MouseButton::NoButton,
        call_ensures(
            mouse_event,
            (0i32, system_message(button, down).0, x, y, system_message(button, down).1),
            r,
        ),
    ensures
        r == Some(button_event(button, down, x, y)),
{
}

/// A move is captured at its point. A turn of the wheel is captured with the number in the
/// upper half of the mouse data, which has a sign.
pub proof fn law_moves_and_turns_are_captured(
    x: i32,
    y: i32,
    data: u32,
    moved: Option<CapturedEvent>,
    turned: Option<CapturedEvent>,
)
    requires
        call_ensures(mouse_event, (0i32, 0x0200u32, x, y, data), moved),
        call_ensures(mouse_event, (0i32, 0x020Au32, x, y, data), turned),
    ensures
        moved == Some(CapturedEvent::MouseMove { x, y }),
        turned matches Some(CapturedEvent::MouseWheel { delta }) && -0x8000 <= delta < 0x8000 && (
        delta * 0x1_0000 + data as int % 0x1_0000 == data || delta * 0x1_0000 + data as int
            % 0x1_0000 == data - 0x1_0000_0000),
{
}

/// Nothing is captured of a message that carries no input or is not of the mouse.
pub proof fn law_other_messages_are_not_captured(
    n_code: i32,
    msg: u32,
    x: i32,
    y: i32,
    data: u32,
    r: Option<CapturedEvent>,
)
    requires
        call_ensures(mouse_event, (n_code, msg, x, y, data), r),
        n_code != 0 || msg < 0x0200 || msg > 0x020C,
    ensures
        r is None,
{
}

/// What a mouse message is captured as has its point.
pub proof fn law_captured_point_is_the_messages(
    n_code: i32,
    msg: u32,
    x: i32,
    y: i32,
    data: u32,
    r: Option<CapturedEvent>,
)
    requires
        call_ensures(mouse_event, (n_code, msg, x, y, data), r),
    ensures
        match r {
            Some(CapturedEvent::MouseMove { x: rx, y: ry }) => rx == x && ry == y,
            Some(CapturedEvent::MouseDown { x: rx, y: ry, .. }) => rx == x && ry == y,
            Some(CapturedEvent::MouseUp { x: rx, y: ry, .. }) => rx == x && ry == y,
            Some(CapturedEvent::KeyDown { .. }) | Some(CapturedEvent::KeyUp { .. }) => false,
            _ => true,
        },
{
}

/// A key going down or up is captured as such, with its key and its scan code, whether the
/// system takes it for one of its own or not. Nothing else of the keyboard is captured.
pub proof fn law_key_messages_are_captured(
    n_code: i32,
    msg: u32,
    vk_code: u32,
    scan_code: u32,
    r: Option<CapturedEvent>,
)
    requires
        call_ensures(keyboard_event, (n_code, msg, vk_code, scan_code), r),
        vk_code <= i32::MAX,
    ensures
        r == (if n_code == 0 && (msg == 0x0100 || msg == 0x0104) {
            Some(CapturedEvent::KeyDown { vk: vk_code as i32, scan_code })
        } else if n_code == 0 && (msg == 0x0101 || msg == 0x0105) {
            Some(CapturedEvent::KeyUp { vk: vk_code as i32, scan_code })
        } else {
            None::<CapturedEvent>
        }),
{
}

/// The message of a press or release that a window is told of names its button: captured, it
/// is that press or release. A press says that its button is down, a release that none is. The
/// point of the window is in the message. The buttons beyond the third are not told of.
pub proof fn law_click_message_names_its_button(
    button: MouseButton,
    x: i32,
    y: i32,
    down: bool,
    r: Option<ClickMessage>,
)
    requires
        call_ensures(click_message, (button, x, y, down), r),
    ensures
        r is Some <==> button == MouseButton::Left || button == MouseButton::Right || button
            == MouseButton::Middle,
        r matches Some(m) ==> {
            &&& hooks::spec_mouse_event(hooks::HC_ACTION, m.msg, x, y, 0) == Some(
                button_event(button, down, x, y),
            )
            &&& m.msg == system_message(button, down).0
            &&& m.wparam == (if !down {
                0
            } else if button == MouseButton::Left {
                0x0001
            } else if button == MouseButton::Right {
                0x0002
            } else {
                0x0010int
            })
            &&& (m.lparam as int % 0x1_0000 - x) % 0x1_0000 == 0
            &&& (m.lparam as int / 0x1_0000 - y) % 0x1_0000 == 0
        },
{
}

/// No two presses or releases share a message.
pub proof fn law_click_messages_differ(
    button: MouseButton,
    down: bool,
    m: ClickMessage,
    other: MouseButton,
    other_down: bool,
    n: ClickMessage,
    x: i32,
    y: i32,
)
    requires
        call_ensures(click_message, (button, x, y, down), Some(m)),
        call_ensures(click_message, (other, x, y, other_down), Some(n)),
        m.msg == n.msg,
    ensures
        button == other,
        down == other_down,
{
    law_click_message_names_its_button(button, x, y, down, Some(m));
    law_click_message_names_its_button(other, x, y, other_down, Some(n));
}

/// The 32 bits of a number stay the same, with a sign or without.
pub proof fn law_signed_keeps_the_bits(n: u32)
    ensures
        hooks::signed(n) == n || hooks::signed(n) == n - 0x1_0000_0000,
        model::word(hooks::signed(n)) == n,
{
}

// ---------------------------------------------------------------------------
// Sent input
// ---------------------------------------------------------------------------

/// The flags of a button are the system's: a press has its own bit, a release the next one,
/// and the extra buttons are told apart by their number.
pub proof fn law_button_flags_are_the_systems(button: MouseButton, r: (u32, u32, u32))
    requires
        call_ensures(button_flags, (button,), r),
    ensures
        button != MouseButton::NoButton ==> r.1 == 2 * r.0,
        match button {
            MouseButton::Left => r.0 == 0x0002 && r.2 == 0,
            MouseButton::Right => r.0 == 0x0008 && r.2 == 0,
            MouseButton::Middle => r.0 == 0x0020 && r.2 == 0,
            MouseButton::X1 => r.0 == 0x0080 && r.2 == 1,
            MouseButton::X2 => r.0 == 0x0080 && r.2 == 2,
            MouseButton::NoButton => r.2 == 0 && r.0 == r.1 && r.0 == 0x0001,
        },
        r == (hooks::down_flag(button), hooks::up_flag(button), hooks::x_data(button)),
{
}

/// No two buttons have the same flags and number.
pub proof fn law_buttons_are_told_apart(
    a: MouseButton,
    ra: (u32, u32, u32),
    b: MouseButton,
    rb: (u32, u32, u32),
)
    requires
        call_ensures(button_flags, (a,), ra),
        call_ensures(button_flags, (b,), rb),
        ra.0 == rb.0 || ra.1 == rb.1,
        ra.2 == rb.2,
    ensures
        a == b,
{
}

/// Absolute coordinates are in proportion: a position inside the screen has the share of the
/// largest coordinate that it has of the screen, rounded down.
pub proof fn law_absolute_is_in_proportion(pos: int, origin: int, extent: int)
    requires
        extent > 1,
        origin <= pos < origin + extent,
    ensures
        hooks::absolute(pos, origin, extent) * (extent - 1) <= (pos - origin) * 65535,
        (pos - origin) * 65535 < (hooks::absolute(pos, origin, extent) + 1) * (extent - 1),
        0 <= hooks::absolute(pos, origin, extent) <= 65535,
{
    let d = extent - 1;
    let n = (pos - origin) * 65535;
    let q = n / d;
    vstd::arithmetic::div_mod::lemma_fundamental_div_mod(n, d);
    vstd::arithmetic::div_mod::lemma_mod_bound(n, d);
    assert(0 <= q <= 65535) by (nonlinear_arith)
        requires
            n == d * q + n % d,
            0 <= n % d < d,
            0 <= n <= d * 65535,
    ;
    assert(q * d <= n && n < (q + 1) * d) by (nonlinear_arith)
        requires
            n == d * q + n % d,
            0 <= n % d < d,
    ;
}

/// A point outside the screen is taken for the nearest one inside it.
pub proof fn law_points_outside_are_brought_inside(pos: int, origin: int, extent: int)
    requires
        extent > 1,
    ensures
        pos < origin ==> hooks::absolute(pos, origin, extent) == hooks::absolute(
            origin,
            origin,
            extent,
        ),
        pos >= origin + extent ==> hooks::absolute(pos, origin, extent) == hooks::absolute(
            origin + extent - 1,
            origin,
            extent,
        ),
{
    hooks::law_absolute_spans_the_screen(origin, extent);
    hooks::law_absolute_is_in_bounds(pos, origin, extent);
    if pos < origin {
        hooks::law_absolute_is_monotone(pos, origin, origin, extent);
    }
    if pos >= origin + extent {
        hooks::law_absolute_is_monotone(origin + extent - 1, pos, origin, extent);
    }
}

/// The two coordinates of a point are worked out each on its own axis.
pub proof fn law_axes_are_kept_apart(x: i32, y: i32, screen: VirtualScreen, r: (i32, i32))
    requires
        screen.spec_fits(x, y),
        call_ensures(absolute_coords, (x, y, screen), r),
    ensures
        r.0 == hooks::absolute(x as int, screen.left as int, screen.width as int),
        r.1 == hooks::absolute(y as int, screen.top as int, screen.height as int),
{
}

/// Whether an input is at a point of the screen.
pub open spec fn is_at(input: MouseInput, x: i32, y: i32, screen: VirtualScreen) -> bool {
    &&& input.dx == hooks::absolute(x as int, screen.left as int, screen.width as int)
    &&& input.dy == hooks::absolute(y as int, screen.top as int, screen.height as int)
}

/// A move goes to its point, counted from the corner of all screens, and presses nothing.
pub proof fn law_move_goes_to_its_point(x: i32, y: i32, screen: VirtualScreen, r: MouseInput)
    requires
        screen.spec_fits(x, y),
        call_ensures(mouse_move_input, (x, y, screen), r),
    ensures
        is_at(r, x, y, screen),
        r.flags == 0x8000 + 0x4000 + 0x0001,
        r.mouse_data == 0,
{
}

/// A click is made at its point with its button: a move there, then a press and a release,
/// twice for a double click. Without a button there is none.
pub proof fn law_click_is_made_with_its_button(
    button: MouseButton,
    is_double: bool,
    x: i32,
    y: i32,
    screen: VirtualScreen,
    flags: (u32, u32, u32),
    r: Vec<MouseInput>,
)
    requires
        screen.spec_fits(x, y),
        call_ensures(button_flags, (button,), flags),
        call_ensures(click_inputs, (button, is_double, x, y, screen), r),
    ensures
        r@.len() == (if button == MouseButton::NoButton {
            0
        } else if is_double {
            5
        } else {
            3int
        }),
        forall|i: int|
            0 <= i < r@.len() ==> {
                &&& is_at(#[trigger] r@[i], x, y, screen)
                &&& if i == 0 {
                    r@[i].flags == 0xC001 && r@[i].mouse_data == 0
                } else {
                    r@[i].mouse_data == flags.2 && r@[i].flags == 0xC000 + (if i % 2 == 1 {
                        flags.0
                    } else {
                        flags.1
                    })
                }
            },
{
}

/// The keys by which the system knows whether a button is down, each its own.
pub proof fn law_buttons_have_their_keys(a: MouseButton, b: MouseButton, ra: Option<i32>, rb: Option<i32>)
    requires
        call_ensures(button_key, (a,), ra),
        call_ensures(button_key, (b,), rb),
    ensures
        a == MouseButton::Left ==> ra == Some(1i32),
        a == MouseButton::Right ==> ra == Some(2i32),
        a == MouseButton::Middle ==> ra == Some(4i32),
        a == MouseButton::X1 ==> ra == Some(5i32),
        a == MouseButton::X2 ==> ra == Some(6i32),
        ra is None <==> a == MouseButton::NoButton,
        ra == rb ==> a == b,
{
}

/// Of the buttons just that one counts as down whose key is.
pub proof fn law_button_is_down_with_its_key(
    button: MouseButton,
    other: MouseButton,
    vk: i32,
    down: &HashSet<i32>,
    r: bool,
)
    requires
        call_ensures(button_key, (button,), Some(vk)),
        down@ == Set::<i32>::empty().insert(vk),
        call_ensures(is_real_button_down, (other, down), r),
    ensures
        r == (other == button),
{
}

// ---------------------------------------------------------------------------
// Ticks
// ---------------------------------------------------------------------------

/// Ticks count on from the earlier reading to the later one, past the largest number.
pub proof fn law_ticks_count_on(earlier: u32, later: u32, r: u32)
    requires
        call_ensures(ticks_since, (earlier, later), r),
    ensures
        (earlier + r) % 0x1_0000_0000 == later,
        earlier <= later ==> r == later - earlier,
{
}

/// Of three taps, one after the other, the third fires just where all three lie within 600
/// milliseconds.
pub proof fn law_three_taps_fire_within_the_window(a: u32, b: u32, c: u32)
    requires
        a <= b <= c,
    ensures
        hooks::fires(hooks::after_taps(seq![a, b]), c) <==> c - a <= 600,
        !hooks::fires(hooks::after_taps(Seq::empty()), a),
        !hooks::fires(hooks::after_taps(seq![a]), b),
{
    reveal(Seq::filter);
    let none = Seq::<u32>::empty();
    let s1 = seq![a];
    let s2 = seq![a, b];
    assert(s1.drop_last() =~= none);
    assert(s2.drop_last() =~= s1);
    assert(hooks::after_taps(none) =~= none);
    lemma_counted(none, a);
    assert(none.push(a) =~= s1);
    assert(hooks::after_taps(s1) =~= s1);
    lemma_counted(s1, b);
    lemma_counted(s2, c);
    lemma_counted(seq![b], c);
    assert(s1.push(b) =~= s2);
    if b - a <= 600 {
        assert(hooks::after_taps(s2) =~= s2);
    } else {
        assert(hooks::after_taps(s2) =~= seq![b]);
    }
}

/// The taps that count, of up to two earlier ones and a later one.
proof fn lemma_counted(times: Seq<u32>, now: u32)
    requires
        times.len() <= 2,
        forall|i: int| 0 <= i < times.len() ==> times[i] <= now,
    ensures
        times.len() == 0 ==> hooks::counted_taps(times, now) == seq![now],
        times.len() == 1 ==> hooks::counted_taps(times, now) == (if now - times[0] <= 600 {
            seq![times[0], now]
        } else {
            seq![now]
        }),
        times.len() == 2 ==> (hooks::counted_taps(times, now).len() >= 3 <==> now - times[0] <= 600
            && now - times[1] <= 600),
{
    reveal(Seq::filter);
    let keep = |t: u32| hooks::ticks_between(t, now) <= hooks::TRIPLE_TAP_WINDOW_MS;
    let all = times.push(now);
    assert(all.drop_last() =~= times);
    let none = Seq::<u32>::empty();
    assert(none.filter(keep) =~= none);
    if times.len() == 1 {
        assert(times.drop_last() =~= none);
        assert(times[0] == times.last());
    }
    if times.len() == 2 {
        let first = times.drop_last();
        assert(first.drop_last() =~= none);
        assert(first.last() == times[0]);
        assert(times.last() == times[1]);
        let f1 = first.filter(keep);
        let f2 = times.filter(keep);
        assert(f1.len() == (if now - times[0] <= 600 {
            1
        } else {
            0int
        }));
        assert(f2.len() == f1.len() + (if now - times[1] <= 600 {
            1
        } else {
            0int
        }));
        assert(all.filter(keep).len() == f2.len() + 1);
    }
    if times.len() == 0 {
        assert(times =~= none);
    }
    assert(hooks::counted_taps(times, now) == all.filter(keep));
    if times.len() <= 1 {
        assert(all.filter(keep) =~= times.filter(keep).push(now));
        if times.len() == 1 {
            if now - times[0] <= 600 {
                assert(times.filter(keep) =~= times);
                assert(all.filter(keep) =~= seq![times[0], now]);
            } else {
                assert(times.filter(keep) =~= none);
                assert(all.filter(keep) =~= seq![now]);
            }
        } else {
            assert(all.filter(keep) =~= seq![now]);
        }
    }
}

/// Escape counts, pressed alone or with the system's own meaning. No other key and no release
/// does. An emergency stop that waits is not taken back.
pub proof fn law_only_escape_counts(
    state: &mut PanicState,
    n_code: i32,
    msg: u32,
    vk_code: u32,
    now: u32,
)
    requires
        call_ensures(panic_key_message, (state, n_code, msg, vk_code, now), ()),
    ensures
        old(state).triggered ==> final(state).triggered,
        n_code != 0 || vk_code != 0x1B || (msg != 0x0100 && msg != 0x0104) ==> *final(state)
            == *old(state),
        n_code == 0 && vk_code == 0x1B && (msg == 0x0100 || msg == 0x0104) ==> {
            &&& final(state).triggered == (old(state).triggered || hooks::fires(
                old(state).press_times@,
                now,
            ))
            &&& final(state).press_times@ == hooks::remembered(old(state).press_times@, now)
        },
{
}

/// An emergency stop is handled once.
pub proof fn law_emergency_stop_is_handled_once(
    first: &mut PanicState,
    r: bool,
    second: &mut PanicState,
    again: bool,
)
    requires
        call_ensures(take_panic_triggered, (first,), r),
        *old(second) == *final(first),
        call_ensures(take_panic_triggered, (second,), again),
    ensures
        r == old(first).triggered,
        !again,
        final(second).press_times@ == old(first).press_times@,
{
}

/// The user counts as active just where the last input came less than so many milliseconds ago
/// and not from this program, whose input is stamped at most five milliseconds late.
pub proof fn law_user_is_active_with_fresh_input(
    threshold_ms: u32,
    stamp: u32,
    now: u32,
    own: &InjectionWindow,
    r: bool,
)
    requires
        call_ensures(real_input_recently, (threshold_ms, Some(stamp), now, own), r),
        stamp <= now,
        own.start <= own.end,
    ensures
        now - stamp >= threshold_ms ==> !r,
        now - stamp < threshold_ms && own.end == 0 ==> r,
        now - stamp < threshold_ms && stamp > own.end + 5 ==> r,
        own.end != 0 && own.start <= stamp <= own.end + 5 ==> !r,
{
}

/// Without any input the user is not active.
pub proof fn law_no_input_is_no_activity(
    threshold_ms: u32,
    now: u32,
    own: &InjectionWindow,
    r: bool,
)
    requires
        call_ensures(real_input_recently, (threshold_ms, None::<u32>, now, own), r),
    ensures
        !r,
{
}

// ---------------------------------------------------------------------------
// Hotkeys, windows and hooks
// ---------------------------------------------------------------------------

/// A hotkey without modifiers is pressed just where its key is down and no modifier key is.
pub proof fn law_plain_hotkey_is_pressed(combo: &HotkeyCombo, down: &HashSet<i32>, r: bool)
    requires
        combo.modifiers == 0,
        call_ensures(is_hotkey_pressed, (combo, down), r),
    ensures
        r <==> combo.key != 0 && down@.contains(combo.key) && forall|vk: i32|
            keys::is_modifier(vk) ==> !#[trigger] down@.contains(vk),
{
    keys::law_modifiers_match_is_exact(0, down@);
    assert(0i32 & 1i32 == 0i32) by (bit_vector);
    assert(0i32 & 2i32 == 0i32) by (bit_vector);
    assert(0i32 & 4i32 == 0i32) by (bit_vector);
    assert(0i32 & 8i32 == 0i32) by (bit_vector);
}

/// A point lies in this program's windows where neither of its coordinates has to be moved to
/// lie between the edges of one of them.
pub proof fn law_point_in_a_window(
    x: i32,
    y: i32,
    main: Option<ScreenRect>,
    sequence: Option<ScreenRect>,
    r: bool,
)
    requires
        call_ensures(is_point_in_app_window, (x, y, main, sequence), r),
    ensures
        main is None && sequence is None ==> !r,
        main matches Some(w) ==> w.left <= w.right && w.top <= w.bottom && model::clamp(
            x as int,
            w.left as int,
            w.right as int,
        ) == x && model::clamp(y as int, w.top as int, w.bottom as int) == y ==> r,
        sequence matches Some(w) ==> w.left <= w.right && w.top <= w.bottom && model::clamp(
            x as int,
            w.left as int,
            w.right as int,
        ) == x && model::clamp(y as int, w.top as int, w.bottom as int) == y ==> r,
        (main matches Some(w) ==> x < w.left || x > w.right || y < w.top || y > w.bottom) && (
        sequence matches Some(w) ==> x < w.left || x > w.right || y < w.top || y > w.bottom) ==> !r,
{
}

/// A window is found by a title where the search has found one, and then it is that one. No
/// window has an empty title.
pub proof fn law_found_window_is_the_one(title: &str, found: usize, r: Option<SafeHwnd>)
    requires
        call_ensures(find_window_by_title, (title, found), r),
    ensures
        r matches Some(w) ==> w.0 == found && w.0 != 0,
        r is None <==> found == 0 || title@.len() == 0,
{
}

/// Either both hooks stay in place or none does.
pub proof fn law_hooks_stay_both_or_none(mouse: bool, keyboard: bool, r: HookOutcome)
    requires
        call_ensures(hook_outcome, (mouse, keyboard), r),
    ensures
        r is Installed <==> mouse && keyboard,
        r matches HookOutcome::Failed { unhook_mouse, unhook_keyboard } ==> unhook_mouse == mouse
            && unhook_keyboard == keyboard,
{
}

/// A window is called by its title; one without goes by its handle, which can be read back.
pub proof fn law_window_is_called_by_its_title(w: SafeHwnd, title: &str, r: String)
    requires
        call_ensures(SafeHwnd::title, (w, title), r),
    ensures
        title@.len() > 0 ==> r@ == title@,
        title@.len() == 0 ==> r@.len() > 7 && r@[0] == 'H' && text::hex_value(r@.skip(7)) == w.0,
{
    reveal_strlit("HWND 0x");
    text::law_hex_reads_back(w.0 as nat);
    if title@.len() == 0 {
        assert(r@.skip(7) =~= text::hex_upper(w.0 as nat));
        assert(text::hex_value(Seq::<char>::empty()) == 0);
        text::lemma_hex_nonempty(w.0 as nat);
    }
}

/// A point is too far off just where its distance from the corner of the screen does not fit
/// into 32 bits; one on the screen never is.
pub proof fn law_points_on_the_screen_are_not_too_far(screen: VirtualScreen, x: i32, y: i32, r: bool)
    requires
        call_ensures(VirtualScreen::fits, (&screen, x, y), r),
    ensures
        screen.left <= x < screen.left + screen.width && screen.top <= y < screen.top
            + screen.height ==> r,
        r <==> -0x8000_0000 <= x - screen.left <= 0x7fff_ffff && -0x8000_0000 <= y - screen.top
            <= 0x7fff_ffff,
{
}

} // verus!
