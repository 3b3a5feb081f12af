//! What one click takes.
//!
//! A click of the mouse itself is one list of actions. A click that a window is told of comes
//! in parts, since each part depends on how the one before it went.

use vstd::prelude::*;

use crate::hooks::SafeHwnd;
use crate::model::{ClickType, CursorMode, MouseButton};

verus! {

/// Why a click could not be made.
#[derive(Debug, Clone, Copy, PartialEq, Eq, Structural)]
pub enum TickError {
    NoCursor,
    WindowGone,
    NoClientPoint,
}

impl TickError {
    pub open spec fn spec_text(self) -> Seq<char> {
        match self {
            TickError::NoCursor => "GetCursorPos failed"@,
            TickError::WindowGone => "Target window is no longer valid"@,
            TickError::NoClientPoint => "ScreenToClient failed — window may be minimized"@,
        }
    }

    /// The error in words.
    pub fn text(self) -> (r: &'static str)
        ensures
            r@ == self.spec_text(),
    {
        match self {
            TickError::NoCursor => "GetCursorPos failed",
            TickError::WindowGone => "Target window is no longer valid",
            TickError::NoClientPoint => "ScreenToClient failed — window may be minimized",
        }
    }
}

/// One action of a click.
#[derive(Debug, Clone, Copy, PartialEq, Eq, Structural)]
pub enum TickAction {
    /// Bring a window to the front.
    Focus { window: SafeHwnd },
    Sleep { ms: u64 },
    /// Note that our own input begins.
    InjectionBegins,
    /// Move to a point and click there.
    Click { button: MouseButton, double: bool, x: i32, y: i32 },
    /// Move the mouse.
    MoveTo { x: i32, y: i32 },
    /// Note that our own input has ended.
    InjectionEnds,
    /// Leave a window a message of a press or release.
    Post { window: SafeHwnd, x: i32, y: i32, down: bool },
    /// Have a window handle a message of a press or release at once.
    Send { window: SafeHwnd, x: i32, y: i32, down: bool },
}

/// The point that is clicked, without deviation: where the mouse is, or a fixed one.
pub fn tick_target(cursor: CursorMode, position: Option<(i32, i32)>) -> (r: Result<
    (i32, i32),
    TickError,
>)
    ensures
        r == (match cursor {
            CursorMode::Fixed { x, y } => Ok::<(i32, i32), TickError>((x, y)),
            _ => match position {
                Some(p) => Ok::<(i32, i32), TickError>(p),
                None => Err::<(i32, i32), TickError>(TickError::NoCursor),
            },
        }),
{
    match cursor {
        CursorMode::Fixed { x, y } => Ok((x, y)),
        CursorMode::Current | CursorMode::MultiTarget => match position {
            Some(p) => Ok(p),
            None => Err(TickError::NoCursor),
        },
    }
}

/// Whether a click at a fixed point or a target brings the window there to the front first.
pub open spec fn takes_focus(cursor: CursorMode, sequence: bool) -> bool {
    sequence || cursor is Fixed
}

/// Whether a click at a fixed point or a target brings the window there to the front first.
pub fn wants_focus(cursor: CursorMode, sequence: bool) -> (r: bool)
    ensures
        r == takes_focus(cursor, sequence),
{
    sequence || match cursor {
        CursorMode::Fixed { .. } => true,
        _ => false,
    }
}

/// What a click of the mouse itself finds.
#[derive(Debug, Clone, Copy, PartialEq, Eq)]
pub struct Surroundings {
    /// Where the mouse is.
    pub saved_pos: Option<(i32, i32)>,
    /// The window in front.
    pub foreground: Option<SafeHwnd>,
    /// The top window at the point of the click.
    pub target_root: Option<SafeHwnd>,
    /// Whether the point of the click lies in this program's window.
    pub over_app: bool,
}

/// The window that is brought to the front, and the one that is put back there afterwards:
/// where another window than the one in front is clicked, and it is not this program's.
pub open spec fn focus_change(focus: bool, s: Surroundings) -> Option<(SafeHwnd, SafeHwnd)> {
    match (s.target_root, s.foreground) {
        (Some(root), Some(front)) => if focus && front != root && !s.over_app {
            Some((root, front))
        } else {
            None
        },
        _ => None,
    }
}

/// The point to which the mouse returns, where it was not at the point of the click.
pub open spec fn return_point(s: Surroundings, x: i32, y: i32) -> Option<(i32, i32)> {
    match s.saved_pos {
        Some(p) => if p == (x, y) {
            None
        } else {
            Some(p)
        },
        None => None,
    }
}

/// The actions of a click of the mouse itself: bring the window to the front, click, put the
/// mouse and the window in front back.
pub open spec fn foreground_actions(
    button: MouseButton,
    double: bool,
    focus: bool,
    x: i32,
    y: i32,
    s: Surroundings,
) -> Seq<TickAction> {
    let change = focus_change(focus, s);
    let before = match change {
        Some((root, _)) => seq![TickAction::Focus { window: root }, TickAction::Sleep { ms: 15 }],
        None => Seq::empty(),
    };
    let click = seq![TickAction::InjectionBegins, TickAction::Click { button, double, x, y }];
    let back = match return_point(s, x, y) {
        Some((sx, sy)) => seq![TickAction::MoveTo { x: sx, y: sy }, TickAction::Sleep { ms: 2 }],
        None => Seq::empty(),
    };
    let after = match change {
        Some((_, front)) => seq![TickAction::InjectionEnds, TickAction::Focus { window: front }],
        None => seq![TickAction::InjectionEnds],
    };
    before + click + back + after
}

/// The actions of a click of the mouse itself at a point.
pub fn foreground_click(
    button: MouseButton,
    click_type: ClickType,
    focus: bool,
    x: i32,
    y: i32,
    s: Surroundings,
) -> (r: Vec<TickAction>)
    ensures
        r@ == foreground_actions(button, click_type == ClickType::Double, focus, x, y, s),
{
    let mut list: Vec<TickAction> = Vec::new();
    let mut restore: Option<SafeHwnd> = None;
    if focus {
        if let Some(root) = s.target_root {
            if let Some(front) = s.foreground {
                if front != root && !s.over_app {
                    restore = Some(front);
                    list.push(TickAction::Focus { window: root });
                    list.push(TickAction::Sleep { ms: 15 });
                }
            }
        }
    }
    list.push(TickAction::InjectionBegins);
    list.push(TickAction::Click { button, double: click_type == ClickType::Double, x, y });
    if let Some((sx, sy)) = s.saved_pos {
        if sx != x || sy != y {
            list.push(TickAction::MoveTo { x: sx, y: sy });
            list.push(TickAction::Sleep { ms: 2 });
        }
    }
    list.push(TickAction::InjectionEnds);
    if let Some(front) = restore {
        list.push(TickAction::Focus { window: front });
    }
    proof {
        assert(list@ =~= foreground_actions(
            button,
            click_type == ClickType::Double,
            focus,
            x,
            y,
            s,
        ));
    }
    list
}

/// After a click of the mouse itself, the last move was back to where the mouse had been, if
/// it had been elsewhere; and the last window brought to the front is the one that was there.
pub proof fn law_foreground_click_restores(
    button: MouseButton,
    double: bool,
    focus: bool,
    x: i32,
    y: i32,
    s: Surroundings,
)
    ensures
        ({
            let list = foreground_actions(button, double, focus, x, y, s);
            &&& list.contains(TickAction::Click { button, double, x, y })
            &&& s.saved_pos matches Some(p) ==> p != (x, y) ==> list.contains(
                TickAction::MoveTo { x: p.0, y: p.1 },
            )
            &&& focus_change(focus, s) matches Some((root, front)) ==> list[0]
                == (TickAction::Focus { window: root }) && list.last() == (TickAction::Focus {
                window: front,
            })
        }),
{
    let list = foreground_actions(button, double, focus, x, y, s);
    let n: int = if focus_change(focus, s) is Some {
        2
    } else {
        0
    };
    assert(list[n + 1] == (TickAction::Click { button, double, x, y }));
    if let Some(p) = return_point(s, x, y) {
        assert(list[n + 2] == (TickAction::MoveTo { x: p.0, y: p.1 }));
    }
}

// ---------------------------------------------------------------------------
// A click that a window is told of
// ---------------------------------------------------------------------------

/// The point of the window that is clicked, or why there is none.
pub fn background_point(alive: bool, client: Option<(i32, i32)>) -> (r: Result<
    (i32, i32),
    TickError,
>)
    ensures
        r == (if !alive {
            Err::<(i32, i32), TickError>(TickError::WindowGone)
        } else {
            match client {
                Some(p) => Ok::<(i32, i32), TickError>(p),
                None => Err::<(i32, i32), TickError>(TickError::NoClientPoint),
            }
        }),
{
    if !alive {
        return Err(TickError::WindowGone);
    }
    match client {
        Some(p) => Ok(p),
        None => Err(TickError::NoClientPoint),
    }
}

/// A press and a release by message, and the time between them.
pub open spec fn posted_click(window: SafeHwnd, p: (i32, i32), ms: u64) -> Seq<TickAction> {
    seq![
        TickAction::Post { window, x: p.0, y: p.1, down: true },
        TickAction::Sleep { ms },
        TickAction::Post { window, x: p.0, y: p.1, down: false },
    ]
}

/// A press and a release that the window handles at once.
pub open spec fn sent_click(window: SafeHwnd, p: (i32, i32)) -> Seq<TickAction> {
    seq![
        TickAction::Send { window, x: p.0, y: p.1, down: true },
        TickAction::Sleep { ms: 5 },
        TickAction::Send { window, x: p.0, y: p.1, down: false },
    ]
}

fn push_posted(list: &mut Vec<TickAction>, window: SafeHwnd, p: (i32, i32), ms: u64)
    ensures
        final(list)@ == old(list)@ + posted_click(window, p, ms),
{
    list.push(TickAction::Post { window, x: p.0, y: p.1, down: true });
    list.push(TickAction::Sleep { ms });
    list.push(TickAction::Post { window, x: p.0, y: p.1, down: false });
    proof {
        assert(list@ =~= old(list)@ + posted_click(window, p, ms));
    }
}

/// First, the window is left a press and a release.
pub fn background_first(window: SafeHwnd, p: (i32, i32)) -> (r: Vec<TickAction>)
    ensures
        r@ == posted_click(window, p, 5),
{
    let mut list: Vec<TickAction> = Vec::new();
    push_posted(&mut list, window, p, 5);
    proof {
        assert(list@ =~= posted_click(window, p, 5));
    }
    list
}

/// Then, where either message could not be left, the window is made to handle both.
pub fn background_fallback(window: SafeHwnd, p: (i32, i32), pressed: bool, released: bool) -> (r:
    Vec<TickAction>)
    ensures
        r@ == (if pressed && released {
            Seq::<TickAction>::empty()
        } else {
            sent_click(window, p)
        }),
{
    let mut list: Vec<TickAction> = Vec::new();
    if !pressed || !released {
        list.push(TickAction::Send { window, x: p.0, y: p.1, down: true });
        list.push(TickAction::Sleep { ms: 5 });
        list.push(TickAction::Send { window, x: p.0, y: p.1, down: false });
    }
    list
}

/// The inner window that is told as well: the one at the point, where it is another.
pub open spec fn inner(window: SafeHwnd, at_point: Option<SafeHwnd>) -> Option<SafeHwnd> {
    match at_point {
        Some(child) => if child != window {
            Some(child)
        } else {
            None
        },
        None => None,
    }
}

/// Then the window at the point, if it is another and still there, is left the same messages,
/// at the point as it counts it.
pub fn background_inner(
    window: SafeHwnd,
    at_point: Option<SafeHwnd>,
    alive: bool,
    client: Option<(i32, i32)>,
) -> (r: Vec<TickAction>)
    ensures
        r@ == (match (inner(window, at_point), client) {
            (Some(child), Some(p)) => if alive {
                posted_click(child, p, 5)
            } else {
                Seq::<TickAction>::empty()
            },
            _ => Seq::<TickAction>::empty(),
        }),
{
    let mut list: Vec<TickAction> = Vec::new();
    if let Some(child) = at_point {
        if child != window && alive {
            if let Some(p) = client {
                push_posted(&mut list, child, p, 5);
                proof {
                    assert(list@ =~= posted_click(child, p, 5));
                }
            }
        }
    }
    list
}

/// Last, a double click leaves the window the messages a second time.
pub fn background_second(window: SafeHwnd, click_type: ClickType, p: (i32, i32)) -> (r: Vec<
    TickAction,
>)
    ensures
        r@ == (if click_type == ClickType::Double {
            seq![TickAction::Sleep { ms: 50 }] + posted_click(window, p, 10)
        } else {
            Seq::<TickAction>::empty()
        }),
{
    let mut list: Vec<TickAction> = Vec::new();
    if click_type == ClickType::Double {
        list.push(TickAction::Sleep { ms: 50 });
        push_posted(&mut list, window, p, 10);
        proof {
            assert(list@ =~= seq![TickAction::Sleep { ms: 50 }] + posted_click(window, p, 10));
        }
    }
    list
}

/// And the window at the point, if it is another.
pub fn background_second_inner(
    window: SafeHwnd,
    click_type: ClickType,
    at_point: Option<SafeHwnd>,
    client: Option<(i32, i32)>,
) -> (r: Vec<TickAction>)
    ensures
        r@ == (match (inner(window, at_point), client) {
            (Some(child), Some(p)) => if click_type == ClickType::Double {
                seq![TickAction::Sleep { ms: 5 }] + posted_click(child, p, 10)
            } else {
                Seq::<TickAction>::empty()
            },
            _ => Seq::<TickAction>::empty(),
        }),
{
    let mut list: Vec<TickAction> = Vec::new();
    if click_type == ClickType::Double {
        if let Some(child) = at_point {
            if child != window {
                if let Some(p) = client {
                    list.push(TickAction::Sleep { ms: 5 });
                    push_posted(&mut list, child, p, 10);
                    proof {
                        assert(list@ =~= seq![TickAction::Sleep { ms: 5 }] + posted_click(
                            child,
                            p,
                            10,
                        ));
                    }
                }
            }
        }
    }
    list
}

// ---------------------------------------------------------------------------
// Laws
// ---------------------------------------------------------------------------

/// A fixed point is clicked wherever the mouse is. Else the click is where the mouse is, and
/// fails just where that is not known.
pub proof fn law_click_is_at_the_chosen_place(
    cursor: CursorMode,
    position: Option<(i32, i32)>,
    r: Result<(i32, i32), TickError>,
)
    requires
        call_ensures(tick_target, (cursor, position), r),
    ensures
        cursor matches CursorMode::Fixed { x, y } ==> r matches Ok(p) && p.0 == x && p.1 == y,
        !(cursor is Fixed) ==> match position {
            Some(p) => r matches Ok(q) && q == p,
            None => r matches Err(e) && e == TickError::NoCursor,
        },
{
}

/// Only a click at a point that was chosen brings another window to the front.
pub proof fn law_focus_is_taken_for_chosen_points(cursor: CursorMode, sequence: bool, r: bool)
    requires
        call_ensures(wants_focus, (cursor, sequence), r),
    ensures
        !r <==> !sequence && (cursor == CursorMode::Current || cursor == CursorMode::MultiTarget),
{
}

/// Whether some actions make one click between two marks of own input, and all their input
/// lies between them. The mouse moves only back to where it was, and that after the click.
/// Windows come to the front before the first mark or after the last one. No window is told of
/// anything.
pub open spec fn makes_one_click(
    list: Seq<TickAction>,
    click: TickAction,
    saved_pos: Option<(i32, i32)>,
    begins: int,
    ends: int,
) -> bool {
    &&& 0 <= begins
    &&& begins + 1 < ends < list.len()
    &&& list[begins] == TickAction::InjectionBegins
    &&& list[ends] == TickAction::InjectionEnds
    &&& list[begins + 1] == click
    &&& forall|k: int|
        0 <= k < list.len() ==> match #[trigger] list[k] {
            TickAction::Click { .. } => k == begins + 1,
            TickAction::MoveTo { x, y } => begins + 1 < k < ends && saved_pos == Some((x, y)),
            TickAction::Focus { .. } => k < begins || ends < k,
            TickAction::InjectionBegins => k == begins,
            TickAction::InjectionEnds => k == ends,
            TickAction::Sleep { .. } => true,
            TickAction::Post { .. } | TickAction::Send { .. } => false,
        }
}

/// A click of the mouse itself makes one click, with its button, of its kind, at its point,
/// and the mouse is then where it was.
pub proof fn law_foreground_click_is_one_click(
    button: MouseButton,
    click_type: ClickType,
    focus: bool,
    x: i32,
    y: i32,
    s: Surroundings,
    click: TickAction,
    r: Vec<TickAction>,
)
    requires
        call_ensures(foreground_click, (button, click_type, focus, x, y, s), r),
        click == (TickAction::Click { button, double: click_type == ClickType::Double, x, y }),
    ensures
        exists|begins: int, ends: int| #[trigger]
            makes_one_click(r@, click, s.saved_pos, begins, ends),
        s.saved_pos matches Some(p) ==> p != (x, y) ==> r@.contains(
            TickAction::MoveTo { x: p.0, y: p.1 },
        ),
{
    let list = r@;
    let double = click_type == ClickType::Double;
    law_foreground_click_restores(button, double, focus, x, y, s);
    match (focus_change(focus, s), return_point(s, x, y)) {
        (Some((root, front)), Some((sx, sy))) => {
            assert(list =~= seq![
                TickAction::Focus { window: root },
                TickAction::Sleep { ms: 15 },
                TickAction::InjectionBegins,
                click,
                TickAction::MoveTo { x: sx, y: sy },
                TickAction::Sleep { ms: 2 },
                TickAction::InjectionEnds,
                TickAction::Focus { window: front },
            ]);
            assert(makes_one_click(list, click, s.saved_pos, 2, 6));
        },
        (Some((root, front)), None) => {
            assert(list =~= seq![
                TickAction::Focus { window: root },
                TickAction::Sleep { ms: 15 },
                TickAction::InjectionBegins,
                click,
                TickAction::InjectionEnds,
                TickAction::Focus { window: front },
            ]);
            assert(makes_one_click(list, click, s.saved_pos, 2, 4));
        },
        (None, Some((sx, sy))) => {
            assert(list =~= seq![
                TickAction::InjectionBegins,
                click,
                TickAction::MoveTo { x: sx, y: sy },
                TickAction::Sleep { ms: 2 },
                TickAction::InjectionEnds,
            ]);
            assert(makes_one_click(list, click, s.saved_pos, 0, 4));
        },
        (None, None) => {
            assert(list =~= seq![TickAction::InjectionBegins, click, TickAction::InjectionEnds]);
            assert(makes_one_click(list, click, s.saved_pos, 0, 2));
        },
    }
}

/// A window is brought to the front just where a chosen point of another window than the one
/// in front is clicked, and it is not this program's; the one that was in front comes back
/// last.
pub proof fn law_focus_is_given_back(
    button: MouseButton,
    click_type: ClickType,
    focus: bool,
    x: i32,
    y: i32,
    s: Surroundings,
    r: Vec<TickAction>,
)
    requires
        call_ensures(foreground_click, (button, click_type, focus, x, y, s), r),
    ensures
        r@.len() > 0,
        r@[0] is Focus <==> focus && !s.over_app && s.foreground is Some && s.target_root is Some
            && s.foreground != s.target_root,
        r@.last() is Focus <==> r@[0] is Focus,
        r@[0] is Focus ==> Some(r@[0]->Focus_window) == s.target_root && Some(
            r@.last()->Focus_window,
        ) == s.foreground,
{
}

/// A click that a window is told of fails where the window is gone or has no such point, and
/// else is at the point as the window counts it.
pub proof fn law_background_click_is_at_the_point(
    alive: bool,
    client: Option<(i32, i32)>,
    r: Result<(i32, i32), TickError>,
)
    requires
        call_ensures(background_point, (alive, client), r),
    ensures
        !alive ==> r == Err::<(i32, i32), TickError>(TickError::WindowGone),
        alive && client is None ==> r == Err::<(i32, i32), TickError>(TickError::NoClientPoint),
        alive && client is Some ==> r == Ok::<(i32, i32), TickError>(client->Some_0),
{
}

/// Whether some actions tell a window of a press and then of the release at the same point,
/// with some time between, and of nothing else.
pub open spec fn tells_of_a_click(
    list: Seq<TickAction>,
    window: SafeHwnd,
    p: (i32, i32),
    at_once: bool,
) -> bool {
    &&& list.len() == 3
    &&& list[1] is Sleep
    &&& list[1]->Sleep_ms > 0
    &&& forall|i: int|
        i == 0 || i == 2 ==> match #[trigger] list[i] {
            TickAction::Post { window: w, x, y, down } => !at_once && w == window && (x, y) == p
                && down == (i == 0),
            TickAction::Send { window: w, x, y, down } => at_once && w == window && (x, y) == p
                && down == (i == 0),
            _ => false,
        }
}

/// A window is left a click first; where either message could not be left, it is made to
/// handle both.
pub proof fn law_window_is_told_of_a_click(
    window: SafeHwnd,
    p: (i32, i32),
    pressed: bool,
    released: bool,
    first: Vec<TickAction>,
    fallback: Vec<TickAction>,
)
    requires
        call_ensures(background_first, (window, p), first),
        call_ensures(background_fallback, (window, p, pressed, released), fallback),
    ensures
        tells_of_a_click(first@, window, p, false),
        fallback@.len() == 0 <==> pressed && released,
        fallback@.len() > 0 ==> tells_of_a_click(fallback@, window, p, true),
{
}

/// The window at the point is told as well where it is another one that is still there and
/// has such a point.
pub proof fn law_inner_window_is_told_as_well(
    window: SafeHwnd,
    at_point: Option<SafeHwnd>,
    alive: bool,
    client: Option<(i32, i32)>,
    r: Vec<TickAction>,
)
    requires
        call_ensures(background_inner, (window, at_point, alive, client), r),
    ensures
        r@.len() > 0 <==> alive && at_point is Some && at_point != Some(window) && client is Some,
        r@.len() > 0 ==> tells_of_a_click(r@, at_point->Some_0, client->Some_0, false),
{
}

/// A double click is told of a second time, after a while; a single one is not.
pub proof fn law_double_click_is_told_twice(
    window: SafeHwnd,
    click_type: ClickType,
    p: (i32, i32),
    at_point: Option<SafeHwnd>,
    client: Option<(i32, i32)>,
    second: Vec<TickAction>,
    inner_second: Vec<TickAction>,
)
    requires
        call_ensures(background_second, (window, click_type, p), second),
        call_ensures(background_second_inner, (window, click_type, at_point, client), inner_second),
    ensures
        second@.len() > 0 <==> click_type == ClickType::Double,
        second@.len() > 0 ==> second@[0] is Sleep && tells_of_a_click(
            second@.skip(1),
            window,
            p,
            false,
        ),
        inner_second@.len() > 0 <==> click_type == ClickType::Double && at_point is Some && at_point
            != Some(window) && client is Some,
        inner_second@.len() > 0 ==> inner_second@[0] is Sleep && tells_of_a_click(
            inner_second@.skip(1),
            at_point->Some_0,
            client->Some_0,
            false,
        ),
{
    if second@.len() > 0 {
        assert(second@.skip(1) =~= posted_click(window, p, 10));
    }
    if inner_second@.len() > 0 {
        assert(inner_second@.skip(1) =~= posted_click(at_point->Some_0, client->Some_0, 10));
    }
}

} // verus!
