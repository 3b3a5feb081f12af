//! The list of targets that the clicker runs through.

use vstd::prelude::*;

use crate::hooks;
use crate::hooks::signed_of;
use crate::model::SequenceTarget;
use crate::text;
use crate::text::push_dec_nat;

verus! {

/// Something that the user does in the list of targets. An edit is done once a field is let go
/// or left; until then its value is on the way.
#[derive(Debug, Clone, Copy, PartialEq, Eq, Structural)]
pub enum PanelAction {
    /// Moves the list into a window of its own, or back.
    PopOut,
    SwitchOn,
    SwitchOff,
    TogglePicking,
    ToggleRow { row: usize },
    DeleteRow { row: usize },
    EditPoint { row: usize, x: i32, y: i32, done: bool },
    /// The number of clicks as it was typed.
    EditClicks { row: usize, clicks: i32, done: bool },
    /// The interval in milliseconds as it was typed.
    EditInterval { row: usize, interval_ms: i32, done: bool },
}

impl PanelAction {
    /// Whether the list is to be stored after the action: not while a value is on the way, nor
    /// for what is never stored.
    pub open spec fn is_stored(self) -> bool {
        match self {
            PanelAction::TogglePicking | PanelAction::ToggleRow { .. } => false,
            PanelAction::EditPoint { done, .. } => done,
            PanelAction::EditClicks { done, .. } => done,
            PanelAction::EditInterval { done, .. } => done,
            _ => true,
        }
    }

    /// Whether the action is about a row that a list of some length has, or about none.
    pub open spec fn is_within(self, len: nat) -> bool {
        match self {
            PanelAction::DeleteRow { row } => row < len,
            PanelAction::EditPoint { row, .. } => row < len,
            PanelAction::EditClicks { row, .. } => row < len,
            PanelAction::EditInterval { row, .. } => row < len,
            _ => true,
        }
    }

    /// Whether the list is to be stored after the action.
    pub fn stores(&self) -> (r: bool)
        ensures
            r == self.is_stored(),
    {
        match *self {
            PanelAction::TogglePicking | PanelAction::ToggleRow { .. } => false,
            PanelAction::EditPoint { done, .. } => done,
            PanelAction::EditClicks { done, .. } => done,
            PanelAction::EditInterval { done, .. } => done,
            _ => true,
        }
    }

    /// Whether a list has the row that the action is about, where it is about one.
    pub fn fits(&self, targets: &Vec<SequenceTarget>) -> (r: bool)
        ensures
            r == self.is_within(targets@.len()),
    {
        let len: usize = targets.len();
        match *self {
            PanelAction::DeleteRow { row } => row < len,
            PanelAction::EditPoint { row, .. } => row < len,
            PanelAction::EditClicks { row, .. } => row < len,
            PanelAction::EditInterval { row, .. } => row < len,
            _ => true,
        }
    }
}

/// The targets after an action.
pub open spec fn targets_after(targets: Seq<SequenceTarget>, action: PanelAction) -> Seq<
    SequenceTarget,
> {
    match action {
        PanelAction::DeleteRow { row } => targets.remove(row as int),
        PanelAction::EditPoint { row, x, y, .. } => targets.update(
            row as int,
            SequenceTarget { x, y, ..targets[row as int] },
        ),
        PanelAction::EditClicks { row, clicks, .. } => targets.update(
            row as int,
            SequenceTarget { clicks: at_least_one(clicks), ..targets[row as int] },
        ),
        PanelAction::EditInterval { row, interval_ms, .. } => targets.update(
            row as int,
            SequenceTarget { interval_ms: at_least_one(interval_ms), ..targets[row as int] },
        ),
        _ => targets,
    }
}

/// The row that is open after an action.
pub open spec fn open_after(open: Option<usize>, action: PanelAction) -> Option<usize> {
    match action {
        PanelAction::ToggleRow { row } => toggled_row(open, row),
        PanelAction::DeleteRow { row } => row_after_delete(open, row),
        _ => open,
    }
}

/// Whether the targets are switched on after an action.
pub open spec fn enabled_after(enabled: bool, action: PanelAction) -> bool {
    match action {
        PanelAction::SwitchOn => true,
        PanelAction::SwitchOff => false,
        _ => enabled,
    }
}

/// Whether targets are picked after an action.
pub open spec fn picking_after(picking: bool, action: PanelAction) -> bool {
    if action is TogglePicking {
        !picking
    } else {
        picking
    }
}

/// Whether the list is a window of its own after an action.
pub open spec fn popped_out_after(popped_out: bool, action: PanelAction) -> bool {
    if action is PopOut {
        !popped_out
    } else {
        popped_out
    }
}

/// Whether the targets are switched on, are picked, and are shown in a window of their own
/// after an action.
pub fn change_switches(enabled: bool, picking: bool, popped_out: bool, action: PanelAction) -> (r: (
    bool,
    bool,
    bool,
))
    ensures
        r.0 == enabled_after(enabled, action),
        r.1 == picking_after(picking, action),
        r.2 == popped_out_after(popped_out, action),
{
    match action {
        PanelAction::PopOut => (enabled, picking, !popped_out),
        PanelAction::SwitchOn => (true, picking, popped_out),
        PanelAction::SwitchOff => (false, picking, popped_out),
        PanelAction::TogglePicking => (enabled, !picking, popped_out),
        _ => (enabled, picking, popped_out),
    }
}

/// The row that is open after a row was clicked: that one, or none where it was open.
pub open spec fn toggled_row(open: Option<usize>, row: usize) -> Option<usize> {
    if open == Some(row) {
        None
    } else {
        Some(row)
    }
}

/// The row that is open after a row was clicked.
pub fn toggle_expand(open: Option<usize>, row: usize) -> (r: Option<usize>)
    ensures
        r == toggled_row(open, row),
{
    if let Some(current) = open {
        if current == row {
            return None;
        }
    }
    Some(row)
}

/// The row that is open after a row was deleted: the one that was, wherever it has moved to.
pub open spec fn row_after_delete(open: Option<usize>, row: usize) -> Option<usize> {
    match open {
        Some(current) => if current == row {
            None
        } else if current > row {
            Some((current - 1) as usize)
        } else {
            Some(current)
        },
        None => None,
    }
}

/// Deletes a target. The row that is open stays open.
pub fn delete_target(targets: &mut Vec<SequenceTarget>, open: Option<usize>, row: usize) -> (r:
    Option<usize>)
    requires
        row < old(targets)@.len(),
    ensures
        final(targets)@ == old(targets)@.remove(row as int),
        r == row_after_delete(open, row),
{
    targets.remove(row);
    match open {
        Some(current) => {
            if current == row {
                None
            } else if current > row {
                Some(current - 1)
            } else {
                Some(current)
            }
        },
        None => None,
    }
}

/// Does to the targets what an action asks for. Returns the row that is open then.
pub fn change_targets(
    targets: &mut Vec<SequenceTarget>,
    open: Option<usize>,
    action: PanelAction,
) -> (r: Option<usize>)
    requires
        action.is_within(old(targets)@.len()),
    ensures
        final(targets)@ == targets_after(old(targets)@, action),
        r == open_after(open, action),
{
    match action {
        PanelAction::ToggleRow { row } => {
            return toggle_expand(open, row);
        },
        PanelAction::DeleteRow { row } => {
            return delete_target(targets, open, row);
        },
        PanelAction::EditPoint { row, x, y, .. } => {
            let t: SequenceTarget = targets[row];
            targets.set(row, SequenceTarget { x, y, ..t });
        },
        PanelAction::EditClicks { row, clicks, .. } => {
            let t: SequenceTarget = targets[row];
            targets.set(row, SequenceTarget { clicks: typed(clicks), ..t });
        },
        PanelAction::EditInterval { row, interval_ms, .. } => {
            let t: SequenceTarget = targets[row];
            targets.set(row, SequenceTarget { interval_ms: typed(interval_ms), ..t });
        },
        _ => {},
    }
    open
}

/// The row that is open shows the same target before and after another one was deleted.
pub proof fn law_open_row_keeps_its_target(
    targets: Seq<SequenceTarget>,
    open: usize,
    row: usize,
)
    requires
        open < targets.len(),
        row < targets.len(),
        open != row,
    ensures
        row_after_delete(Some(open), row) matches Some(now) && now < targets.remove(row as int).len()
            && targets.remove(row as int)[now as int] == targets[open as int],
{
}

/// Clicking a row twice leaves it as it was, where it was open or none was.
pub proof fn law_toggle_twice(open: Option<usize>, row: usize)
    requires
        open is None || open == Some(row),
    ensures
        toggled_row(toggled_row(open, row), row) == open,
{
}

/// A number that was typed, at least 1.
pub open spec fn at_least_one(n: i32) -> u32 {
    if n < 1 {
        1
    } else {
        n as u32
    }
}

/// The number of clicks or of milliseconds that was typed, at least 1.
pub fn typed(n: i32) -> (r: u32)
    ensures
        r == at_least_one(n),
{
    if n < 1 {
        1
    } else {
        n as u32
    }
}

/// A number as it is handed to the field in which it is typed.
pub fn shown(n: u32) -> (r: i32)
    ensures
        r == hooks::signed(n),
{
    signed_of(n)
}

/// What is shown and typed unchanged stays the same, for every number that can be typed.
pub proof fn law_shown_number_reads_back(n: u32)
    requires
        1 <= n <= i32::MAX,
    ensures
        at_least_one(hooks::signed(n)) == n,
{
}

/// A target in short: how often it is clicked, and the time between clicks.
pub fn summary(t: &SequenceTarget) -> (r: String)
    ensures
        r@ == text::dec_nat(t.clicks as nat) + "× / "@ + text::dec_nat(t.interval_ms as nat)
            + "ms"@,
{
    let mut s: String = "".to_owned();
    proof {
        reveal_strlit("");
    }
    push_dec_nat(&mut s, t.clicks as u64);
    proof {
        assert(s@ =~= text::dec_nat(t.clicks as nat));
    }
    s.append("× / ");
    push_dec_nat(&mut s, t.interval_ms as u64);
    s.append("ms");
    s
}

/// The number of a row, counted from 1.
pub fn row_number(row: usize) -> (r: String)
    requires
        row < usize::MAX,
    ensures
        r@ == text::dec_nat((row + 1) as nat),
{
    let mut s: String = "".to_owned();
    proof {
        reveal_strlit("");
    }
    push_dec_nat(&mut s, (row + 1) as u64);
    proof {
        assert(s@ =~= text::dec_nat((row + 1) as nat));
    }
    s
}

/// The mark of a row: whether its target is being clicked.
pub fn row_mark(active: bool) -> (r: &'static str)
    ensures
        r@ == (if active {
            "●"@
        } else {
            "○"@
        }),
{
    if active {
        "●"
    } else {
        "○"
    }
}

/// What the button that picks targets shows.
pub fn picking_label(picking: bool) -> (r: &'static str)
    ensures
        r@ == (if picking {
            "Stop Picking"@
        } else {
            "Start Picking"@
        }),
{
    if picking {
        "Stop Picking"
    } else {
        "Start Picking"
    }
}

/// What the button that takes the list out of the window shows, and its explanation.
pub fn pop_label(popped_out: bool) -> (r: (&'static str, &'static str))
    ensures
        r.0@ == (if popped_out {
            "Dock back"@
        } else {
            "Pop out"@
        }),
        r.1@ == (if popped_out {
            "Kembali ke docked panel"@
        } else {
            "Buka sebagai window terpisah"@
        }),
{
    if popped_out {
        ("Dock back", "Kembali ke docked panel")
    } else {
        ("Pop out", "Buka sebagai window terpisah")
    }
}

/// Whether the list warns that its targets are switched off.
pub fn warns_off(enabled: bool, targets: &Vec<SequenceTarget>) -> (r: bool)
    ensures
        r == (!enabled && targets@.len() > 0),
{
    !enabled && targets.len() > 0
}

/// An edit changes what it is about in its row, where numbers are at least 1, and nothing else
/// of that row or of another. Deleting takes one row out, and what is no edit changes no target.
pub proof fn law_edit_changes_just_its_row(
    targets: &mut Vec<SequenceTarget>,
    open: Option<usize>,
    action: PanelAction,
    r: Option<usize>,
    k: int,
)
    requires
        action.is_within(old(targets)@.len()),
        0 <= k < old(targets)@.len(),
        call_ensures(change_targets, (targets, open, action), r),
    ensures
        ({
            let a = old(targets)@;
            let b = final(targets)@;
            match action {
                PanelAction::EditPoint { row, x, y, .. } => {
                    &&& b.len() == a.len()
                    &&& k != row ==> b[k] == a[k]
                    &&& k == row ==> b[k].x == x && b[k].y == y && b[k].clicks == a[k].clicks
                        && b[k].interval_ms == a[k].interval_ms
                },
                PanelAction::EditClicks { row, clicks, .. } => {
                    &&& b.len() == a.len()
                    &&& k != row ==> b[k] == a[k]
                    &&& k == row ==> b[k].x == a[k].x && b[k].y == a[k].y && b[k].interval_ms
                        == a[k].interval_ms
                    &&& k == row && clicks >= 1 ==> b[k].clicks == clicks
                    &&& k == row && clicks < 1 ==> b[k].clicks == 1
                },
                PanelAction::EditInterval { row, interval_ms, .. } => {
                    &&& b.len() == a.len()
                    &&& k != row ==> b[k] == a[k]
                    &&& k == row ==> b[k].x == a[k].x && b[k].y == a[k].y && b[k].clicks
                        == a[k].clicks
                    &&& k == row && interval_ms >= 1 ==> b[k].interval_ms == interval_ms
                    &&& k == row && interval_ms < 1 ==> b[k].interval_ms == 1
                },
                PanelAction::DeleteRow { row } => {
                    &&& b.len() == a.len() - 1
                    &&& k < row ==> b[k] == a[k]
                    &&& k > row ==> b[k - 1] == a[k]
                },
                _ => b == a,
            }
        }),
        action matches PanelAction::ToggleRow { row } ==> (r == Some(row) <==> open != Some(row))
            && (r is None <==> open == Some(row)),
        !(action is ToggleRow) && !(action is DeleteRow) ==> r == open,
{
}

/// Each switch is turned by its own action alone.
pub proof fn law_switches_are_turned_one_by_one(
    enabled: bool,
    picking: bool,
    popped_out: bool,
    action: PanelAction,
    r: (bool, bool, bool),
)
    requires
        call_ensures(change_switches, (enabled, picking, popped_out, action), r),
    ensures
        action is SwitchOn ==> r.0,
        action is SwitchOff ==> !r.0,
        !(action is SwitchOn) && !(action is SwitchOff) ==> r.0 == enabled,
        r.1 != picking <==> action is TogglePicking,
        r.2 != popped_out <==> action is PopOut,
{
}

/// An action is about a row that is there. What changes a target or a switch that is stored is
/// stored once it is done.
pub proof fn law_changes_are_stored(
    targets: Vec<SequenceTarget>,
    action: PanelAction,
    fits: bool,
    stored: bool,
)
    requires
        call_ensures(PanelAction::fits, (&action, &targets), fits),
        call_ensures(PanelAction::stores, (&action,), stored),
    ensures
        action matches PanelAction::DeleteRow { row } ==> fits == (row < targets@.len()) && stored,
        action matches PanelAction::EditPoint { row, done, .. } ==> fits == (row < targets@.len())
            && stored == done,
        action matches PanelAction::EditClicks { row, done, .. } ==> fits == (row < targets@.len())
            && stored == done,
        action matches PanelAction::EditInterval { row, done, .. } ==> fits == (row
            < targets@.len()) && stored == done,
        action is SwitchOn || action is SwitchOff || action is PopOut ==> fits && stored,
        action is TogglePicking || action is ToggleRow ==> fits && !stored,
{
}

/// A number that was typed is taken as it is where it is at least 1, and as 1 else.
pub proof fn law_typed_number_is_at_least_one(n: i32, r: u32, back: i32)
    requires
        call_ensures(typed, (n,), r),
        call_ensures(shown, (r,), back),
    ensures
        r >= 1,
        n >= 1 ==> r == n && back == n,
        n < 1 ==> r == 1,
{
}

/// Rows are numbered from one, and the row of the target that is being clicked, the button that
/// picks and the one that takes the list out look different from the others.
pub proof fn law_rows_are_numbered_and_marked(
    row: usize,
    number: String,
    active: &'static str,
    idle: &'static str,
    stop: &'static str,
    start: &'static str,
    dock: (&'static str, &'static str),
    pop: (&'static str, &'static str),
)
    requires
        row < usize::MAX,
        call_ensures(row_number, (row,), number),
        call_ensures(row_mark, (true,), active),
        call_ensures(row_mark, (false,), idle),
        call_ensures(picking_label, (true,), stop),
        call_ensures(picking_label, (false,), start),
        call_ensures(pop_label, (true,), dock),
        call_ensures(pop_label, (false,), pop),
    ensures
        text::dec_value(number@) == row + 1,
        active@ == seq!['●'] && idle@ == seq!['○'],
        stop@[2] == 'o' && start@[2] == 'a',
        dock.0@[0] == 'D' && pop.0@[0] == 'P',
        dock.1@[0] == 'K' && pop.1@[0] == 'B',
{
    reveal_strlit("●");
    reveal_strlit("○");
    reveal_strlit("Stop Picking");
    reveal_strlit("Start Picking");
    reveal_strlit("Dock back");
    reveal_strlit("Pop out");
    reveal_strlit("Kembali ke docked panel");
    reveal_strlit("Buka sebagai window terpisah");
    text::law_dec_reads_back((row + 1) as nat);
    assert(active@ =~= seq!['●']);
    assert(idle@ =~= seq!['○']);
}

/// The short form of a target shows its clicks first and its interval after them.
pub proof fn law_summary_shows_the_target(t: SequenceTarget, r: String)
    requires
        call_ensures(summary, (&t,), r),
    ensures
        exists|clicks: Seq<char>, ms: Seq<char>|
            r@ == clicks + "× / "@ + ms + "ms"@ && #[trigger] text::dec_value(clicks) == t.clicks
                && #[trigger] text::dec_value(ms) == t.interval_ms,
{
    let clicks = text::dec_nat(t.clicks as nat);
    let ms = text::dec_nat(t.interval_ms as nat);
    text::law_dec_reads_back(t.clicks as nat);
    text::law_dec_reads_back(t.interval_ms as nat);
    assert(r@ == clicks + "× / "@ + ms + "ms"@);
    assert(text::dec_value(clicks) == t.clicks && text::dec_value(ms) == t.interval_ms);
}

/// The list warns where it has targets that are not clicked for being switched off.
pub proof fn law_switched_off_targets_are_warned_of(
    enabled: bool,
    targets: Vec<SequenceTarget>,
    r: bool,
)
    requires
        call_ensures(warns_off, (enabled, &targets), r),
    ensures
        enabled ==> !r,
        targets@.len() == 0 ==> !r,
        !enabled && targets@.len() > 0 ==> r,
{
}

} // verus!
