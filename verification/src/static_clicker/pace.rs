//! When a run of the clicker clicks, how it counts, and why it ends.
//!
//! The laws here look at a run from outside only. They speak of its settings, of what it was
//! told, and of what it answered.

use vstd::prelude::*;

use crate::model::{CursorMode, SequenceTarget};
use crate::static_clicker;
use crate::static_clicker::run;
use crate::static_clicker::run::{
    AfterWait, ClickAction, ClickPhase, ClickStep, ClickerError, ClickerView, Request,
};
use crate::static_clicker::{ClickMode, RepeatMode, StaticClickerConfig};

verus! {

/// All that a run answers, in order.
pub open spec fn answers(v: ClickerView, requests: Seq<Request>) -> Seq<ClickStep>
    decreases requests.len(),
{
    if requests.len() == 0 {
        Seq::empty()
    } else {
        let before = run::trace(v, requests.drop_last()).0;
        answers(v, requests.drop_last()).push(
            run::step(before, requests.last().signals, requests.last().delta).1,
        )
    }
}

/// Whether a run goes through targets.
pub open spec fn through_targets(c: StaticClickerConfig) -> bool {
    c.cursor == CursorMode::MultiTarget && c.sequence_enabled
}

/// How often the clicker clicks, or goes through its targets, if there is an end.
pub open spec fn wanted(c: StaticClickerConfig) -> Option<u32> {
    match c.repeat {
        RepeatMode::Count(n) => Some(n),
        RepeatMode::Infinite => None,
    }
}

/// The number of clicks that some answers ask for.
pub open spec fn clicks_in(said: Seq<ClickStep>) -> nat
    decreases said.len(),
{
    if said.len() == 0 {
        0
    } else if run::clicks(said.last()) {
        clicks_in(said.drop_last()) + 1
    } else {
        clicks_in(said.drop_last())
    }
}

/// The milliseconds after a click before the next one, without deviation: those of the target
/// that was clicked, or those of all clicks. At least one.
pub open spec fn pause_after(c: StaticClickerConfig, click: ClickAction) -> int {
    let ms = match click {
        ClickAction::ClickTarget { target, .. } =>
            c.sequence_targets@[target as int].interval_ms as int,
        _ => c.interval_ms as int,
    };
    if ms < 1 {
        1
    } else {
        ms
    }
}

/// The shortest that a wait may be with a deviation in either direction. A wait is never
/// shorter than a millisecond.
pub open spec fn shortest(ms: int, jitter: u32) -> int {
    if jitter > 0 && (ms > i64::MAX || ms - jitter < 1) {
        1
    } else {
        ms - jitter
    }
}

/// Whether the times of requests do not go back, and the deviations are within the jitter.
pub open spec fn in_bounds(c: StaticClickerConfig, requests: Seq<Request>) -> bool {
    &&& forall|i: int, j: int|
        0 <= i <= j < requests.len() ==> requests[i].signals.now <= requests[j].signals.now
    &&& forall|i: int|
        0 <= i < requests.len() ==> -c.interval_jitter_ms <= (#[trigger] requests[i]).delta
            <= c.interval_jitter_ms
}

/// The nanoseconds from one request to another.
pub open spec fn time_between(requests: Seq<Request>, from: int, to: int) -> int {
    requests[to].signals.now - requests[from].signals.now
}

/// Whether a request finds something in the way of a click: this program's window or, where
/// the mouse itself clicks, the user.
pub open spec fn obstructed(c: StaticClickerConfig, q: Request) -> bool {
    q.signals.over_app || (c.mode == ClickMode::Foreground && q.signals.user_busy)
}

proof fn lemma_answers(v: ClickerView, requests: Seq<Request>, next: Request)
    ensures
        answers(v, requests.push(next)) == answers(v, requests).push(
            run::step(run::trace(v, requests).0, next.signals, next.delta).1,
        ),
        run::trace(v, requests.push(next)).0 == run::step(
            run::trace(v, requests).0,
            next.signals,
            next.delta,
        ).0,
{
    assert(requests.push(next).drop_last() =~= requests);
}

proof fn lemma_answers_len(v: ClickerView, requests: Seq<Request>)
    ensures
        answers(v, requests).len() == requests.len(),
    decreases requests.len(),
{
    if requests.len() > 0 {
        lemma_answers_len(v, requests.drop_last());
    }
}

// ---------------------------------------------------------------------------
// The settings
// ---------------------------------------------------------------------------

/// A run has the settings that it was begun with, from the first click to the last: button,
/// kind of click, window, interval and deviations, number of repeats, and targets. It clicks
/// at the chosen place; where targets are chosen but switched off, it clicks where the mouse
/// is.
pub proof fn law_run_has_its_settings(c: StaticClickerConfig, requests: Seq<Request>)
    ensures
        ({
            let v = run::trace(run::begun(c), requests).0;
            &&& v.settings.button == c.button
            &&& v.settings.click_type == c.click_type
            &&& v.settings.mode == c.mode
            &&& v.settings.interval_ms == c.interval_ms
            &&& v.settings.interval_jitter_ms == c.interval_jitter_ms
            &&& v.settings.position_jitter_px == c.position_jitter_px
            &&& v.settings.total == wanted(c)
            &&& v.settings.sequence == through_targets(c)
            &&& c.cursor != CursorMode::MultiTarget ==> v.settings.cursor == c.cursor
            &&& c.cursor == CursorMode::MultiTarget && !c.sequence_enabled ==> v.settings.cursor
                == CursorMode::Current
            &&& v.targets == c.sequence_targets@
        }),
    decreases requests.len(),
{
    if requests.len() > 0 {
        law_run_has_its_settings(c, requests.drop_last());
    }
}

/// A target is clicked as often as it says, at least once.
pub proof fn law_target_is_clicked_as_often_as_it_says(t: SequenceTarget)
    ensures
        run::clicks_on(t) >= 1,
        t.clicks >= 1 ==> run::clicks_on(t) == t.clicks,
{
}

// ---------------------------------------------------------------------------
// Pace
// ---------------------------------------------------------------------------

/// Whether the wait after a click was over at a request.
spec fn rested(
    c: StaticClickerConfig,
    requests: Seq<Request>,
    said: Seq<ClickStep>,
    i: int,
    j: int,
) -> bool {
    &&& i + 2 <= j
    &&& time_between(requests, i + 2, j) >= shortest(
        pause_after(c, said[i].action),
        c.interval_jitter_ms,
    ) * 1_000_000
}

/// Whether an action is a click of a run, with targets on a given one.
spec fn is_click_on(v: ClickerView, click: ClickAction, target: usize) -> bool {
    match click {
        ClickAction::ClickTarget { target: t, .. } => v.settings.sequence && t == target,
        ClickAction::Click => !v.settings.sequence,
        _ => false,
    }
}

/// Where a run stands after a click.
spec fn paced(
    c: StaticClickerConfig,
    requests: Seq<Request>,
    said: Seq<ClickStep>,
    v: ClickerView,
    i: int,
) -> bool {
    let n = requests.len() as int;
    ||| rested(c, requests, said, i, n - 1)
    ||| v.phase is Ended
    ||| match v.phase {
        ClickPhase::Ticking { target, .. } => i == n - 1 && is_click_on(v, said[i].action, target),
        ClickPhase::AfterTick { target, .. } => i == n - 2 && is_click_on(
            v,
            said[i].action,
            target,
        ),
        ClickPhase::Waiting { ms, start, then } => {
            &&& i + 2 < n
            &&& start == requests[i + 2].signals.now
            &&& ms >= shortest(pause_after(c, said[i].action), c.interval_jitter_ms)
        },
        _ => false,
    }
}

proof fn lemma_pace(c: StaticClickerConfig, requests: Seq<Request>)
    requires
        c.sequence_targets@.len() <= usize::MAX,
        c.repeat is Count || run::roomy(run::begun(c), requests),
        in_bounds(c, requests),
    ensures
        ({
            let v = run::trace(run::begun(c), requests).0;
            let said = answers(run::begun(c), requests);
            &&& said.len() == requests.len()
            &&& run::sound(v)
            &&& forall|i: int|
                0 <= i < said.len() && run::clicks(#[trigger] said[i]) ==> paced(
                    c,
                    requests,
                    said,
                    v,
                    i,
                )
            &&& forall|i: int, j: int|
                0 <= i < j < said.len() && run::clicks(#[trigger] said[i]) && run::clicks(
                    #[trigger] said[j],
                ) ==> rested(c, requests, said, i, j)
        }),
    decreases requests.len(),
{
    let start = run::begun(c);
    lemma_answers_len(start, requests);
    if requests.len() > 0 {
        let rest = requests.drop_last();
        let q = requests.last();
        let n = rest.len() as int;
        assert(rest.push(q) =~= requests);
        assert(in_bounds(c, rest)) by {
            assert forall|i: int, j: int| 0 <= i <= j < rest.len() implies rest[i].signals.now
                <= rest[j].signals.now by {
                assert(requests[i].signals.now <= requests[j].signals.now);
            }
            assert forall|i: int| 0 <= i < rest.len() implies -c.interval_jitter_ms <= (
            #[trigger] rest[i]).delta <= c.interval_jitter_ms by {
                assert(rest[i] == requests[i]);
            }
        }
        lemma_pace(c, rest);
        law_run_has_its_settings(c, rest);
        lemma_answers(start, rest, q);
        let v = run::trace(start, rest).0;
        let said = answers(start, rest);
        let (after, s) = run::step(v, q.signals, q.delta);
        let more = said.push(s);
        run::lemma_step_stays_sound(v, q);
        assert(-c.interval_jitter_ms <= requests[n].delta <= c.interval_jitter_ms);
        assert forall|i: int| 0 <= i < more.len() && run::clicks(#[trigger] more[i]) implies paced(
            c,
            requests,
            more,
            after,
            i,
        ) by {
            if i < n {
                assert(paced(c, rest, said, v, i));
                assert(more[i] == said[i]);
                assert(requests[n - 1].signals.now <= requests[n].signals.now);
                if rested(c, rest, said, i, n - 1) {
                    assert(rested(c, requests, more, i, n));
                } else {
                    lemma_wait_of_a_click(c, rest, said, v, i, q);
                }
            }
        }
        assert forall|i: int, j: int|
            0 <= i < j < more.len() && run::clicks(#[trigger] more[i]) && run::clicks(
                #[trigger] more[j],
            ) implies rested(c, requests, more, i, j) by {
            assert(more[i] == said[i]);
            if j < n {
                assert(more[j] == said[j]);
                assert(rested(c, rest, said, i, j));
            } else {
                assert(paced(c, rest, said, v, i));
                assert(requests[n - 1].signals.now <= requests[n].signals.now);
            }
        }
    }
}

proof fn lemma_wait_of_a_click(
    c: StaticClickerConfig,
    requests: Seq<Request>,
    said: Seq<ClickStep>,
    v: ClickerView,
    i: int,
    q: Request,
)
    requires
        said.len() == requests.len(),
        0 <= i < said.len(),
        run::clicks(said[i]),
        run::sound(v),
        v.settings.sequence == through_targets(c),
        v.settings.interval_ms == c.interval_ms,
        v.settings.interval_jitter_ms == c.interval_jitter_ms,
        v.targets == c.sequence_targets@,
        -c.interval_jitter_ms <= q.delta <= c.interval_jitter_ms,
        paced(c, requests, said, v, i),
        !rested(c, requests, said, i, requests.len() - 1),
        requests.last().signals.now <= q.signals.now,
    ensures
        paced(
            c,
            requests.push(q),
            said.push(run::step(v, q.signals, q.delta).1),
            run::step(v, q.signals, q.delta).0,
            i,
        ),
{
    let n = requests.len() as int;
    let all = requests.push(q);
    assert(all[n] == q);
    match v.phase {
        ClickPhase::Waiting { ms, start, then } => {
            let d = q.signals.now - start;
            if d >= 0 && d / 1_000_000 >= ms {
                assert(d >= ms * 1_000_000);
                assert(all[i + 2] == requests[i + 2]);
            }
        },
        _ => {},
    }
}

/// The clicker keeps its pace: between two clicks lies the interval, that of the target that
/// was clicked first or of all clicks, shortened by no more than the jitter. It counts from
/// the second request after the click, by which the click was made and reported.
pub proof fn law_clicks_keep_their_distance(
    c: StaticClickerConfig,
    requests: Seq<Request>,
    i: int,
    j: int,
)
    requires
        c.sequence_targets@.len() <= usize::MAX,
        c.repeat is Count || run::roomy(run::begun(c), requests),
        in_bounds(c, requests),
        0 <= i < j < requests.len(),
        run::clicks(answers(run::begun(c), requests)[i]),
        run::clicks(answers(run::begun(c), requests)[j]),
    ensures
        i + 2 < j,
        time_between(requests, i + 2, j) >= shortest(
            pause_after(c, answers(run::begun(c), requests)[i].action),
            c.interval_jitter_ms,
        ) * 1_000_000,
{
    lemma_pace(c, requests);
    let said = answers(run::begun(c), requests);
    assert(rested(c, requests, said, i, j));
    assert(shortest(pause_after(c, said[i].action), c.interval_jitter_ms) >= 1);
}

/// The longest that a wait may be with a deviation in either direction.
pub open spec fn longest(ms: int, jitter: u32) -> int {
    ms + jitter
}

/// Whether a wait that a request began has a reason: a click before it that was just reported,
/// or something in the way of one. `click` is the click that was or would have been made.
pub open spec fn has_reason(
    c: StaticClickerConfig,
    requests: Seq<Request>,
    said: Seq<ClickStep>,
    click: ClickAction,
    from: int,
) -> bool {
    &&& if through_targets(c) {
        click matches ClickAction::ClickTarget { target, .. } && target < c.sequence_targets@.len()
    } else {
        click == ClickAction::Click
    }
    &&& {
        ||| from >= 2 && run::clicks(said[from - 2]) && click == said[from - 2].action
        ||| obstructed(c, requests[from])
    }
}

/// Whether a wait has a reason, began at a request, and is no longer than it may be.
spec fn justified(
    c: StaticClickerConfig,
    requests: Seq<Request>,
    said: Seq<ClickStep>,
    ms: u64,
    start: u64,
    click: ClickAction,
    from: int,
) -> bool {
    &&& 0 <= from < requests.len()
    &&& start == requests[from].signals.now
    &&& ms <= longest(pause_after(c, click), c.interval_jitter_ms)
    &&& has_reason(c, requests, said, click, from)
}

/// What a run has just done.
spec fn placed(c: StaticClickerConfig, said: Seq<ClickStep>, v: ClickerView) -> bool {
    let n = said.len() as int;
    match v.phase {
        ClickPhase::Ticking { target, .. } => n >= 1 && run::clicks(said[n - 1]) && is_click_on(
            v,
            said[n - 1].action,
            target,
        ),
        ClickPhase::AfterTick { target, .. } => n >= 2 && run::clicks(said[n - 2]) && is_click_on(
            v,
            said[n - 2].action,
            target,
        ),
        _ => true,
    }
}

spec fn waits_justly(
    c: StaticClickerConfig,
    requests: Seq<Request>,
    said: Seq<ClickStep>,
    v: ClickerView,
) -> bool {
    v.phase matches ClickPhase::Waiting { ms, start, .. } ==> exists|click: ClickAction, from: int|
        #[trigger] justified(c, requests, said, ms, start, click, from)
}

/// The number of clicks so far, as far as the counter holds it.
spec fn counted(said: Seq<ClickStep>, v: ClickerView) -> bool {
    let made = clicks_in(said);
    match v.phase {
        ClickPhase::Ended { .. } => true,
        ClickPhase::Ticking { .. } => made >= 1 && v.count == (made - 1) % 0x1_0000_0000,
        _ => v.count == made % 0x1_0000_0000,
    }
}

/// Whether a run that has ended had a reason to.
pub open spec fn had_to_end(
    c: StaticClickerConfig,
    requests: Seq<Request>,
    said: Seq<ClickStep>,
    completed: bool,
    error: Option<ClickerError>,
) -> bool {
    match error {
        None => if completed {
            !through_targets(c) ==> (wanted(c) matches Some(n) && n == clicks_in(said) % 0x1_0000_0000)
        } else {
            exists|i: int|
                0 <= i < requests.len() && ((#[trigger] requests[i]).signals.stop
                    || requests[i].signals.escape)
        },
        Some(ClickerError::NoTargets) => {
            &&& !completed
            &&& through_targets(c)
            &&& c.sequence_targets@.len() == 0
        },
        Some(ClickerError::WindowClosed) => {
            &&& !completed
            &&& c.mode is Background
            &&& exists|i: int|
                0 <= i < requests.len() && !(#[trigger] requests[i]).signals.window_alive
        },
        Some(ClickerError::Tick(e)) => {
            &&& !completed
            &&& exists|i: int|
                0 < i < requests.len() && (#[trigger] requests[i]).signals.tick_error == Some(e)
                    && run::clicks(said[i - 1])
        },
    }
}

/// Whether the answers of a run are in order: clicks are those that were chosen, each report
/// follows a click and counts it, and the end has a reason.
pub open spec fn answers_well(
    c: StaticClickerConfig,
    requests: Seq<Request>,
    said: Seq<ClickStep>,
    j: int,
) -> bool {
    match said[j].action {
        ClickAction::Click => !through_targets(c),
        ClickAction::ClickTarget { target, x, y } => {
            &&& through_targets(c)
            &&& target < c.sequence_targets@.len()
            &&& x == c.sequence_targets@[target as int].x
            &&& y == c.sequence_targets@[target as int].y
        },
        ClickAction::Report { count, total } => {
            &&& j > 0
            &&& run::clicks(said[j - 1])
            &&& requests[j].signals.tick_error is None
            &&& count == clicks_in(said.take(j)) % 0x1_0000_0000
            &&& total == wanted(c)
        },
        ClickAction::Finished { completed, error } => had_to_end(
            c,
            requests.take(j),
            said.take(j),
            completed,
            error,
        ),
        _ => true,
    }
}

spec fn ended_well(
    c: StaticClickerConfig,
    requests: Seq<Request>,
    said: Seq<ClickStep>,
    v: ClickerView,
) -> bool {
    v.phase matches ClickPhase::Ended { completed, error } ==> had_to_end(
        c,
        requests,
        said,
        completed,
        error,
    )
}

proof fn lemma_reason_stays(
    c: StaticClickerConfig,
    requests: Seq<Request>,
    said: Seq<ClickStep>,
    q: Request,
    s: ClickStep,
    completed: bool,
    error: Option<ClickerError>,
)
    requires
        said.len() == requests.len(),
        had_to_end(c, requests, said, completed, error),
        !run::clicks(s),
    ensures
        had_to_end(c, requests.push(q), said.push(s), completed, error),
{
    let all = requests.push(q);
    assert(said.push(s).drop_last() =~= said);
    match error {
        None => {
            if !completed {
                let i = choose|i: int|
                    0 <= i < requests.len() && ((#[trigger] requests[i]).signals.stop
                        || requests[i].signals.escape);
                assert(all[i] == requests[i]);
            }
        },
        Some(ClickerError::WindowClosed) => {
            let i = choose|i: int|
                0 <= i < requests.len() && !(#[trigger] requests[i]).signals.window_alive;
            assert(all[i] == requests[i]);
        },
        Some(ClickerError::Tick(e)) => {
            let i = choose|i: int|
                0 < i < requests.len() && (#[trigger] requests[i]).signals.tick_error == Some(e)
                    && run::clicks(said[i - 1]);
            assert(all[i] == requests[i]);
            assert(said.push(s)[i - 1] == said[i - 1]);
        },
        _ => {},
    }
}

proof fn lemma_step_answers(
    c: StaticClickerConfig,
    requests: Seq<Request>,
    said: Seq<ClickStep>,
    v: ClickerView,
    q: Request,
)
    requires
        said.len() == requests.len(),
        run::sound(v),
        run::has_room(v),
        v.settings.sequence == through_targets(c),
        v.settings.mode == c.mode,
        v.settings.interval_ms == c.interval_ms,
        v.settings.interval_jitter_ms == c.interval_jitter_ms,
        v.settings.total == wanted(c),
        v.targets == c.sequence_targets@,
        -c.interval_jitter_ms <= q.delta <= c.interval_jitter_ms,
        placed(c, said, v),
        counted(said, v),
        ended_well(c, requests, said, v),
        waits_justly(c, requests, said, v),
    ensures
        ({
            let (after, s) = run::step(v, q.signals, q.delta);
            let all = requests.push(q);
            let more = said.push(s);
            &&& placed(c, more, after)
            &&& counted(more, after)
            &&& ended_well(c, all, more, after)
            &&& waits_justly(c, all, more, after)
            &&& answers_well(c, all, more, said.len() as int)
        }),
{
    let (after, s) = run::step(v, q.signals, q.delta);
    let all = requests.push(q);
    let more = said.push(s);
    let n = said.len() as int;
    assert(more.drop_last() =~= said);
    assert(all.take(n) =~= requests);
    assert(more.take(n) =~= said);
    assert(all[n] == q);
    let made = clicks_in(said) as int;
    assert(made % 0x1_0000_0000 == (if (made - 1) % 0x1_0000_0000 == 0xffff_ffff {
        0
    } else {
        (made - 1) % 0x1_0000_0000 + 1
    }));
    if let ClickPhase::Ended { completed, error } = v.phase {
        lemma_reason_stays(c, requests, said, q, s, completed, error);
    }
    if let ClickPhase::Waiting { ms, start, .. } = after.phase {
        let (click, from) = if let ClickPhase::Waiting { .. } = v.phase {
            let (click, from) = choose|click: ClickAction, from: int| #[trigger]
                justified(c, requests, said, ms, start, click, from);
            assert(all[from] == requests[from]);
            (click, from)
        } else {
            match v.phase {
                ClickPhase::Guard { target, .. } => (
                    ClickAction::ClickTarget { target, x: 0, y: 0 },
                    n,
                ),
                ClickPhase::AfterTick { .. } => (said[n - 2].action, n),
                _ => (ClickAction::Click, n),
            }
        };
        assert(justified(c, all, more, ms, start, click, from));
    }
}

proof fn lemma_run_answers(c: StaticClickerConfig, requests: Seq<Request>)
    requires
        c.sequence_targets@.len() <= usize::MAX,
        c.repeat is Count || run::roomy(run::begun(c), requests),
        in_bounds(c, requests),
    ensures
        ({
            let v = run::trace(run::begun(c), requests).0;
            let said = answers(run::begun(c), requests);
            &&& said.len() == requests.len()
            &&& placed(c, said, v)
            &&& counted(said, v)
            &&& ended_well(c, requests, said, v)
            &&& waits_justly(c, requests, said, v)
            &&& forall|j: int|
                0 <= j < said.len() ==> #[trigger] answers_well(c, requests, said, j)
        }),
    decreases requests.len(),
{
    let start = run::begun(c);
    lemma_answers_len(start, requests);
    if requests.len() > 0 {
        let rest = requests.drop_last();
        let q = requests.last();
        let n = rest.len() as int;
        assert(rest.push(q) =~= requests);
        assert(in_bounds(c, rest)) by {
            assert forall|i: int, j: int| 0 <= i <= j < rest.len() implies rest[i].signals.now
                <= rest[j].signals.now by {
                assert(requests[i].signals.now <= requests[j].signals.now);
            }
            assert forall|i: int| 0 <= i < rest.len() implies -c.interval_jitter_ms <= (
            #[trigger] rest[i]).delta <= c.interval_jitter_ms by {
                assert(rest[i] == requests[i]);
            }
        }
        lemma_run_answers(c, rest);
        lemma_pace(c, rest);
        law_run_has_its_settings(c, rest);
        lemma_answers(start, rest, q);
        assert(-c.interval_jitter_ms <= requests[n].delta <= c.interval_jitter_ms);
        let v = run::trace(start, rest).0;
        let said = answers(start, rest);
        lemma_step_answers(c, rest, said, v, q);
        let more = answers(start, requests);
        assert forall|j: int| 0 <= j < more.len() implies #[trigger] answers_well(
            c,
            requests,
            more,
            j,
        ) by {
            if j < n {
                assert(answers_well(c, rest, said, j));
                assert(more.take(j) =~= said.take(j));
                assert(requests.take(j) =~= rest.take(j));
                assert(more[j] == said[j]);
                if j > 0 {
                    assert(more[j - 1] == said[j - 1]);
                }
            }
        }
    } else {
        assert(clicks_in(Seq::<ClickStep>::empty()) == 0);
    }
}

/// Whatever a run is told, its answers are in order. It clicks on its targets where it goes
/// through them, else at the chosen place. It reports just what was clicked without a failure,
/// each click once and counted on. It ends as completed when all is done, else because a stop
/// or the emergency key was wanted, the window is gone, a click failed, or there are no
/// targets.
pub proof fn law_run_answers_well(c: StaticClickerConfig, requests: Seq<Request>, j: int)
    requires
        c.sequence_targets@.len() <= usize::MAX,
        c.repeat is Count || run::roomy(run::begun(c), requests),
        in_bounds(c, requests),
        0 <= j < requests.len(),
    ensures
        answers_well(c, requests, answers(run::begun(c), requests), j),
{
    lemma_run_answers(c, requests);
    assert(answers_well(c, requests, answers(run::begun(c), requests), j));
}

/// The clicker does not dawdle: it sleeps only after a click or after something was in the
/// way of one, and no longer than the interval, lengthened by no more than the jitter.
pub proof fn law_clicker_does_not_dawdle(
    c: StaticClickerConfig,
    requests: Seq<Request>,
    next: Request,
)
    requires
        c.sequence_targets@.len() <= usize::MAX,
        c.repeat is Count || run::roomy(run::begun(c), requests),
        in_bounds(c, requests),
        answers(run::begun(c), requests.push(next)).last().action is Sleep,
    ensures
        exists|click: ClickAction, from: int|
            {
                &&& 0 <= from < requests.len()
                &&& #[trigger] has_reason(
                    c,
                    requests,
                    answers(run::begun(c), requests),
                    click,
                    from,
                )
                &&& time_between(requests.push(next), from, requests.len() as int) < longest(
                    pause_after(c, click),
                    c.interval_jitter_ms,
                ) * 1_000_000
            },
{
    let start = run::begun(c);
    let said = answers(start, requests);
    let v = run::trace(start, requests).0;
    lemma_run_answers(c, requests);
    lemma_answers(start, requests, next);
    if let ClickPhase::Waiting { ms, start: began, .. } = v.phase {
        let (click, from) = choose|click: ClickAction, from: int| #[trigger]
            justified(c, requests, said, ms, began, click, from);
        assert(has_reason(c, requests, said, click, from));
        let d = next.signals.now - began;
        if d >= 0 {
            assert(d / 1_000_000 < ms);
            assert(d < ms * 1_000_000);
        }
        assert(requests.push(next)[from] == requests[from]);
    }
}

/// A click that was asked for and went well is reported at once. One that failed ends the run
/// with that failure.
pub proof fn law_click_is_reported(v: ClickerView, first: Request, second: Request, third: Request)
    requires
        run::clicks(run::step(v, first.signals, first.delta).1),
    ensures
        ({
            let asked = run::step(v, first.signals, first.delta).0;
            let (after, s) = run::step(asked, second.signals, second.delta);
            match second.signals.tick_error {
                None => s.action is Report,
                Some(e) => run::step(after, third.signals, third.delta).1.action == (
                ClickAction::Finished { completed: false, error: Some(ClickerError::Tick(e)) }),
            }
        }),
{
}

/// The target that a run names as clicked last is the one that it asked to click last.
pub proof fn law_active_target_is_the_last_one(v: ClickerView, q: Request)
    ensures
        run::step(v, q.signals, q.delta).0.active == match run::step(
            v,
            q.signals,
            q.delta,
        ).1.action {
            ClickAction::ClickTarget { target, .. } => Some(target),
            _ => v.active,
        },
{
}

/// How many requests a run may answer with nothing to do, with nothing in the way.
spec fn patience(v: ClickerView) -> int {
    match v.phase {
        ClickPhase::AfterTick { .. } => 5,
        ClickPhase::Waiting { .. } => 4,
        ClickPhase::Top => 3,
        ClickPhase::ClickTop { .. } => 2,
        ClickPhase::Guard { .. } => 1,
        ClickPhase::Ticking { .. } => 1,
        ClickPhase::Ended { .. } => 0,
    }
}

/// Whether nothing hinders a click at any of some requests.
pub open spec fn unhindered(c: StaticClickerConfig, requests: Seq<Request>, from: int) -> bool {
    forall|i: int| from <= i < requests.len() ==> !obstructed(c, #[trigger] requests[i])
}

proof fn lemma_patience_runs_out(
    c: StaticClickerConfig,
    requests: Seq<Request>,
    from: int,
    to: int,
)
    requires
        0 <= from <= to <= requests.len(),
        unhindered(c, requests, from),
        forall|j: int|
            from <= j < requests.len() ==> (#[trigger] answers(
                run::begun(c),
                requests,
            )[j]).action is Continue,
    ensures
        0 <= patience(run::trace(run::begun(c), requests.take(to)).0) <= 5 - (to - from),
    decreases to - from,
{
    let start = run::begun(c);
    if to > from {
        lemma_patience_runs_out(c, requests, from, to - 1);
        let rest = requests.take(to - 1);
        let q = requests[to - 1];
        assert(rest.push(q) =~= requests.take(to));
        law_run_has_its_settings(c, rest);
        lemma_answers(start, rest, q);
        lemma_answers_len(start, rest);
        lemma_answers_len(start, requests);
        lemma_answers_of_take(start, requests, to);
        assert(answers(start, requests).take(to)[to - 1] == answers(start, requests)[to - 1]);
        assert(!obstructed(c, q));
    }
}

proof fn lemma_answers_of_take(v: ClickerView, requests: Seq<Request>, to: int)
    requires
        0 <= to <= requests.len(),
    ensures
        answers(v, requests).take(to) == answers(v, requests.take(to)),
    decreases requests.len(),
{
    lemma_answers_len(v, requests);
    if to == requests.len() {
        assert(requests.take(to) =~= requests);
        assert(answers(v, requests).take(to) =~= answers(v, requests));
    } else {
        let rest = requests.drop_last();
        lemma_answers_of_take(v, rest, to);
        lemma_answers_len(v, rest);
        assert(rest.take(to) =~= requests.take(to));
        assert(answers(v, requests).take(to) =~= answers(v, rest).take(to));
    }
}

/// The clicker gets on: with nothing in the way, of any six answers in a row at least one
/// clicks, reports, sleeps or says that nothing is left to do.
pub proof fn law_clicker_gets_on(c: StaticClickerConfig, requests: Seq<Request>, from: int)
    requires
        0 <= from,
        from + 6 <= requests.len(),
        unhindered(c, requests, from),
    ensures
        exists|j: int|
            from <= j < requests.len() && !((#[trigger] answers(
                run::begun(c),
                requests,
            )[j]).action is Continue),
{
    let said = answers(run::begun(c), requests);
    lemma_answers_len(run::begun(c), requests);
    if forall|j: int| from <= j < requests.len() ==> (#[trigger] said[j]).action is Continue {
        lemma_patience_runs_out(c, requests, from, requests.len() as int);
    }
}

/// A stop or the emergency key ends a run: told at three requests in a row, the run says at
/// the next one that nothing is left to do, and asks for no click in between.
pub proof fn law_stop_ends_the_run(
    v: ClickerView,
    first: Request,
    second: Request,
    third: Request,
    last: Request,
)
    requires
        first.signals.stop || first.signals.escape,
        second.signals.stop || second.signals.escape,
        third.signals.stop || third.signals.escape,
    ensures
        ({
            let a = run::step(v, first.signals, first.delta);
            let b = run::step(a.0, second.signals, second.delta);
            let d = run::step(b.0, third.signals, third.delta);
            &&& !run::clicks(a.1)
            &&& !run::clicks(b.1)
            &&& !run::clicks(d.1)
            &&& run::step(d.0, last.signals, last.delta).1.action is Finished
        }),
{
}

} // verus!
