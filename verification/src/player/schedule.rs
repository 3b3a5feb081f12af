//! When a playback does what: every event after its delay, every loop after the interval.
//!
//! The laws here look at a playback from outside only. They speak of what it was told, of what
//! it answered, and of the times at which it was asked.

use vstd::prelude::*;

use crate::model::{MacroEvent, MacroEventType, MouseButton};
use crate::player;
use crate::player::{
    AfterWait, Phase, PlayInput, PlaybackOptions, PlayerAction, PlayerStep, PlayerView, Signals,
    Wait,
};

verus! {

/// All that a playback answers, in order.
pub open spec fn answers(v: PlayerView, signals: Seq<Signals>) -> Seq<PlayerStep>
    decreases signals.len(),
{
    if signals.len() == 0 {
        Seq::empty()
    } else {
        let before = player::trace(v, signals.drop_last()).0;
        let last = signals.last();
        answers(v, signals.drop_last()).push(
            player::step(before, last.stop, last.pause, last.now).1,
        )
    }
}

/// The inputs that some answers have sent.
pub open spec fn sent_in(said: Seq<PlayerStep>) -> Seq<PlayInput>
    decreases said.len(),
{
    if said.len() == 0 {
        Seq::empty()
    } else {
        let before = sent_in(said.drop_last());
        match said.last().action {
            PlayerAction::Send { input } => before.push(input),
            _ => before,
        }
    }
}

/// The nanoseconds from one request to another, without the time that came after a request
/// with a pause. A pause that is wanted at the first of them begins with the next.
pub open spec fn unpaused(signals: Seq<Signals>, from: int, to: int) -> int
    decreases to - from,
{
    if to <= from {
        0
    } else {
        let before = unpaused(signals, from, to - 1);
        if signals[to - 1].pause && to - 1 > from {
            before
        } else if signals[to].now <= signals[to - 1].now {
            before
        } else {
            before + (signals[to].now - signals[to - 1].now)
        }
    }
}

/// Whether so many milliseconds without pauses lie between two requests, counted from the
/// request after the first of them.
pub open spec fn waited(signals: Seq<Signals>, first: int, second: int, ms: int) -> bool {
    &&& first < second
    &&& ms > 0 ==> first + 1 < second && unpaused(signals, first + 1, second) >= ms * 1_000_000
}

/// Whether the times of requests do not go back.
pub open spec fn in_order(signals: Seq<Signals>) -> bool {
    forall|i: int, j: int| 0 <= i <= j < signals.len() ==> signals[i].now <= signals[j].now
}

/// A loop of a playback: the request at which it was reported, and those at which its events
/// were played.
#[verifier::ext_equal]
pub struct LoopTrace {
    pub start: int,
    pub played: Seq<int>,
}

/// The request after which the wait for an event of a loop counts: that of the event before
/// or, for the first, of the report of the loop.
pub open spec fn before_event(l: LoopTrace, event: int) -> int {
    if event == 0 {
        l.start
    } else {
        l.played[event - 1]
    }
}

/// Whether an answer plays an event: it has the system do what the event says, unless that is
/// a press of what the inputs sent so far have left pressed.
pub open spec fn plays_event(said: Seq<PlayerStep>, j: int, e: MacroEvent) -> bool {
    let sent = sent_in(said.take(j));
    let send = match e.event_type {
        MacroEventType::MouseMove => Some(PlayInput::Move { x: e.x, y: e.y }),
        MacroEventType::MouseDown => if player::buttons_left(sent).contains(e.button) {
            None
        } else {
            Some(PlayInput::Button { button: e.button, down: true, x: e.x, y: e.y })
        },
        MacroEventType::MouseUp => Some(
            PlayInput::Button { button: e.button, down: false, x: e.x, y: e.y },
        ),
        MacroEventType::MouseWheel => Some(PlayInput::Wheel { delta: e.wheel_delta }),
        MacroEventType::KeyDown => if player::keys_left(sent).contains(e.key_code) {
            None
        } else {
            Some(PlayInput::Key { vk: e.key_code, down: true })
        },
        MacroEventType::KeyUp => Some(PlayInput::Key { vk: e.key_code, down: false }),
    };
    match send {
        Some(input) => said[j].action == (PlayerAction::Send { input }),
        None => said[j].action == PlayerAction::Continue,
    }
}

/// How many loops there are, unless there is no end.
pub open spec fn loops_wanted(options: PlaybackOptions) -> Option<int> {
    if options.infinite {
        None
    } else if options.loop_count < 1 {
        Some(1)
    } else {
        Some(options.loop_count as int)
    }
}

/// Whether an event of a loop was played as it should be: after its delay, and not against a
/// stop.
pub open spec fn event_in_time(
    events: Seq<MacroEvent>,
    delays: Seq<i64>,
    signals: Seq<Signals>,
    said: Seq<PlayerStep>,
    l: LoopTrace,
    event: int,
) -> bool {
    let j = l.played[event];
    &&& 0 <= j < said.len()
    &&& waited(signals, before_event(l, event), j, delays[event] as int)
    &&& !signals[j].stop
    &&& plays_event(said, j, events[event])
}

/// Whether a loop was played as it should be: reported with its number while neither a pause
/// nor a stop was wanted, and its events, as far as they go, each in order and in time.
pub open spec fn loop_in_time(
    events: Seq<MacroEvent>,
    delays: Seq<i64>,
    options: PlaybackOptions,
    signals: Seq<Signals>,
    said: Seq<PlayerStep>,
    l: LoopTrace,
    number: int,
) -> bool {
    &&& 0 <= l.start < said.len()
    &&& !signals[l.start].stop
    &&& !signals[l.start].pause
    &&& said[l.start].action matches PlayerAction::LoopStarted { number: told, total } && {
        &&& told == (number - 1) % usize::MAX as int + 1
        &&& match loops_wanted(options) {
            Some(wanted) => total matches Some(t) && t == wanted && number <= wanted,
            None => total is None,
        }
    }
    &&& l.played.len() <= events.len()
    &&& forall|k: int|
        0 <= k < l.played.len() ==> #[trigger] event_in_time(events, delays, signals, said, l, k)
}

/// Whether the events of all loops that were wanted have been played.
pub open spec fn everything_played(
    events: Seq<MacroEvent>,
    options: PlaybackOptions,
    loops: Seq<LoopTrace>,
) -> bool {
    events.len() == 0 || (loops_wanted(options) == Some(loops.len() as int) && loops.len() > 0
        && loops.last().played.len() == events.len())
}

/// Whether a request is the one at which some event was played.
pub open spec fn is_event(loops: Seq<LoopTrace>, j: int) -> bool {
    exists|l: int, k: int|
        0 <= l < loops.len() && 0 <= k < loops[l].played.len() && #[trigger] loops[l].played[k]
            == j
}

/// Whether a request is the one at which some loop was reported.
pub open spec fn is_start(loops: Seq<LoopTrace>, j: int) -> bool {
    exists|l: int| 0 <= l < loops.len() && (#[trigger] loops[l]).start == j
}

/// Whether an answer is one of those with which a playback ends: it lets something go that is
/// held, or says that nothing is left to do.
pub open spec fn lets_go(said: Seq<PlayerStep>, j: int, all: bool) -> bool {
    let sent = sent_in(said.take(j));
    match said[j].action {
        PlayerAction::Send { input } => match input {
            PlayInput::Key { vk, down } => !down && player::keys_left(sent).contains(vk),
            PlayInput::ReleaseButton { button } => player::buttons_left(sent).contains(button),
            _ => false,
        },
        PlayerAction::Finished { completed } => {
            &&& completed == all
            &&& player::keys_left(sent) == Set::<i32>::empty()
            &&& player::buttons_left(sent) == Set::<MouseButton>::empty()
        },
        _ => false,
    }
}

/// Whether a playback keeps to its schedule. `loops` are the loops that it has begun, `end` is
/// the request from which on it only lets go.
pub open spec fn on_schedule(
    events: Seq<MacroEvent>,
    delays: Seq<i64>,
    options: PlaybackOptions,
    signals: Seq<Signals>,
    said: Seq<PlayerStep>,
    loops: Seq<LoopTrace>,
    end: int,
) -> bool {
    &&& 0 <= end <= said.len()
    // Every loop is played in time, all but the last to its end.
    &&& forall|i: int|
        0 <= i < loops.len() ==> #[trigger] loop_in_time(
            events,
            delays,
            options,
            signals,
            said,
            loops[i],
            i + 1,
        )
    &&& forall|i: int|
        0 <= i < loops.len() - 1 ==> (#[trigger] loops[i]).played.len() == events.len()
    // The interval lies between the last event of a loop and the report of the next one.
    &&& forall|i: int|
        0 < i < loops.len() ==> waited(
            signals,
            loops[i - 1].played.last(),
            (#[trigger] loops[i]).start,
            options.interval_ms as int,
        )
    // Nothing else is sent or reported until the playback ends, and then it only lets go.
    &&& forall|j: int|
        0 <= j < end && (#[trigger] said[j]).action is Send ==> is_event(loops, j)
    &&& forall|j: int|
        0 <= j < end && (#[trigger] said[j]).action is LoopStarted ==> is_start(loops, j)
    &&& forall|j: int| 0 <= j < end ==> !((#[trigger] said[j]).action is Finished)
    &&& forall|i: int| 0 <= i < loops.len() ==> (#[trigger] loops[i]).start < end
    &&& forall|i: int, k: int|
        0 <= i < loops.len() && 0 <= k < loops[i].played.len()
            ==> #[trigger] loops[i].played[k] < end
    &&& forall|j: int|
        end <= j < said.len() ==> #[trigger] lets_go(
            said,
            j,
            everything_played(events, options, loops),
        )
}

// ---------------------------------------------------------------------------
// Proof
// ---------------------------------------------------------------------------

/// The request after which the wait of the present phase counts.
spec fn wait_base(loops: Seq<LoopTrace>, event: int) -> int {
    before_event(loops.last(), event)
}

/// Whether a wait that began at a request has run since.
spec fn running(signals: Seq<Signals>, w: Wait, from: int) -> bool {
    let n = signals.len() as int;
    let u = unpaused(signals, from, n - 1);
    &&& 0 <= from < n
    &&& w.start == signals[from].now
    &&& u >= 0
    &&& match w.pause_start {
        None => {
            &&& signals[n - 1].now - w.start - w.paused_for <= u
            &&& in_order(signals) ==> signals[n - 1].now - w.start - w.paused_for == u
            &&& from == n - 1 || !signals[n - 1].pause
        },
        Some(p) => {
            &&& p - w.start - w.paused_for <= u
            &&& in_order(signals) ==> p - w.start - w.paused_for == u && p <= signals[n - 1].now
            &&& from < n - 1
            &&& signals[n - 1].pause
        },
    }
}

/// Whether a wait is over by the last request.
spec fn ready(signals: Seq<Signals>, first: int, ms: int) -> bool {
    let n = signals.len() as int;
    &&& first < n
    &&& ms > 0 ==> first + 1 < n && unpaused(signals, first + 1, n - 1) >= ms * 1_000_000
}

/// Where a playback stands in its schedule.
spec fn stands(
    v: PlayerView,
    options: PlaybackOptions,
    signals: Seq<Signals>,
    loops: Seq<LoopTrace>,
    end: int,
) -> bool {
    let n = signals.len() as int;
    let count = v.events.len();
    let last = loops.last();
    &&& !(v.phase is Releasing) ==> end == n
    &&& match v.phase {
        Phase::LoopTop | Phase::Gate => {
            &&& v.number == loops.len() % usize::MAX as nat + 1
            &&& loops.len() > 0 ==> last.played.len() == count && ready(
                signals,
                last.played.last(),
                v.interval_ms as int,
            )
            &&& loops_wanted(options) matches Some(wanted) ==> loops.len() < wanted
        },
        Phase::Releasing { completed } => {
            &&& completed == everything_played(v.events, options, loops)
            &&& end <= n
        },
        _ => {
            &&& loops.len() > 0
            &&& v.number == (loops.len() - 1) % usize::MAX as int + 1
            &&& loops_wanted(options) matches Some(wanted) ==> loops.len() <= wanted
            &&& match v.phase {
                Phase::EventTop { event } => last.played.len() == event && wait_base(
                    loops,
                    event as int,
                ) == n - 1,
                Phase::EventSend { event } => last.played.len() == event && ready(
                    signals,
                    wait_base(loops, event as int),
                    v.delays[event as int] as int,
                ),
                Phase::Waiting { wait, then } => match then {
                    AfterWait::Play { event } => {
                        &&& last.played.len() == event
                        &&& wait.ms == v.delays[event as int]
                        &&& wait.ms > 0
                        &&& running(signals, wait, wait_base(loops, event as int) + 1)
                    },
                    AfterWait::NextLoop => {
                        &&& last.played.len() == count
                        &&& loops_wanted(options) != Some(loops.len() as int)
                        &&& wait.ms == v.interval_ms
                        &&& wait.ms > 0
                        &&& running(signals, wait, last.played.last() + 1)
                    },
                },
                Phase::LoopEnd => last.played.len() == count && last.played.last() == n - 1,
                _ => true,
            }
        },
    }
}

proof fn lemma_unpaused_of_prefix(signals: Seq<Signals>, next: Signals, from: int, to: int)
    requires
        0 <= from,
        to < signals.len(),
    ensures
        unpaused(signals.push(next), from, to) == unpaused(signals, from, to),
        unpaused(signals, from, to) >= 0,
    decreases to - from,
{
    if to > from {
        lemma_unpaused_of_prefix(signals, next, from, to - 1);
        assert(signals.push(next)[to] == signals[to]);
        assert(signals.push(next)[to - 1] == signals[to - 1]);
    }
}

proof fn lemma_waited_of_prefix(
    signals: Seq<Signals>,
    next: Signals,
    first: int,
    second: int,
    ms: int,
)
    requires
        -1 <= first,
        second < signals.len(),
        waited(signals, first, second, ms),
    ensures
        waited(signals.push(next), first, second, ms),
{
    lemma_unpaused_of_prefix(signals, next, first + 1, second);
}

proof fn lemma_ready_is_waited(signals: Seq<Signals>, next: Signals, first: int, ms: int)
    requires
        -1 <= first,
        signals.len() > 0,
        ready(signals, first, ms),
    ensures
        waited(signals.push(next), first, signals.len() as int, ms),
        ready(signals.push(next), first, ms),
{
    let n = signals.len() as int;
    lemma_unpaused_of_prefix(signals, next, first + 1, n - 1);
}

proof fn lemma_answers_of_prefix(v: PlayerView, signals: Seq<Signals>, next: Signals)
    ensures
        answers(v, signals.push(next)) == answers(v, signals).push(
            player::step(player::trace(v, signals).0, next.stop, next.pause, next.now).1,
        ),
        player::trace(v, signals.push(next)).0 == player::step(
            player::trace(v, signals).0,
            next.stop,
            next.pause,
            next.now,
        ).0,
{
    assert(signals.push(next).drop_last() =~= signals);
}

proof fn lemma_answers_len(v: PlayerView, signals: Seq<Signals>)
    ensures
        answers(v, signals).len() == signals.len(),
    decreases signals.len(),
{
    if signals.len() > 0 {
        lemma_answers_len(v, signals.drop_last());
    }
}

proof fn lemma_sent_in_is_sent(v: PlayerView, signals: Seq<Signals>)
    ensures
        sent_in(answers(v, signals)) == player::trace(v, signals).1,
    decreases signals.len(),
{
    if signals.len() > 0 {
        let rest = signals.drop_last();
        lemma_sent_in_is_sent(v, rest);
        let said = answers(v, signals);
        assert(said.drop_last() =~= answers(v, rest));
        let (before, sent) = player::trace(v, rest);
        let s = player::step(before, signals.last().stop, signals.last().pause, signals.last().now).1;
        assert(said.last() == s);
        match s.action {
            PlayerAction::Send { input } => {
                assert(sent + seq![input] =~= sent.push(input));
            },
            _ => {
                assert(sent + Seq::<PlayInput>::empty() =~= sent);
            },
        }
    }
}

/// A wait goes on with the next request.
proof fn lemma_running(signals: Seq<Signals>, next: Signals, w: Wait, from: int)
    requires
        running(signals, w, from),
    ensures
        running(signals.push(next), w.spec_polled(next.pause, next.now), from),
        w.spec_polled(next.pause, next.now).spec_over(next.now) && w.ms > 0 ==> unpaused(
            signals.push(next),
            from,
            signals.len() as int,
        ) >= w.ms * 1_000_000,
        !w.spec_polled(next.pause, next.now).spec_over(next.now) && !next.pause && in_order(
            signals.push(next),
        ) ==> unpaused(signals.push(next), from, signals.len() as int) < w.ms * 1_000_000,
{
    let n = signals.len() as int;
    let all = signals.push(next);
    lemma_unpaused_of_prefix(signals, next, from, n - 1);
    if in_order(all) {
        assert forall|i: int, j: int| 0 <= i <= j < n implies signals[i].now <= signals[j].now by {
            assert(all[i].now <= all[j].now);
        }
        assert(all[n - 1].now <= all[n].now);
        assert(all[from].now <= all[n].now);
    }
    assert(all[n] == next);
    assert(all[n - 1] == signals[n - 1]);
    assert(all[from] == signals[from]);
    let polled = w.spec_polled(next.pause, next.now);
    let u = unpaused(all, from, n);
    if polled.spec_over(next.now) && w.ms > 0 {
        let e = polled.elapsed(next.now);
        assert(e / 1_000_000 >= w.ms);
        assert(e >= w.ms * 1_000_000);
        assert(e == next.now - w.start - polled.paused_for);
    }
    if !polled.spec_over(next.now) && !next.pause && in_order(all) {
        let e = polled.elapsed(next.now);
        assert(e == u);
        assert(e / 1_000_000 < w.ms);
        assert(e < w.ms * 1_000_000);
    }
}

proof fn lemma_loop_of_prefix(
    events: Seq<MacroEvent>,
    delays: Seq<i64>,
    options: PlaybackOptions,
    signals: Seq<Signals>,
    said: Seq<PlayerStep>,
    next: Signals,
    s: PlayerStep,
    l: LoopTrace,
    number: int,
)
    requires
        said.len() == signals.len(),
        loop_in_time(events, delays, options, signals, said, l, number),
    ensures
        loop_in_time(events, delays, options, signals.push(next), said.push(s), l, number),
{
    assert forall|k: int| 0 <= k < l.played.len() implies #[trigger] event_in_time(
        events,
        delays,
        signals.push(next),
        said.push(s),
        l,
        k,
    ) by {
        assert(event_in_time(events, delays, signals, said, l, k));
        if k > 0 {
            assert(event_in_time(events, delays, signals, said, l, k - 1));
        }
        let j = l.played[k];
        lemma_waited_of_prefix(signals, next, before_event(l, k), j, delays[k] as int);
        assert(said.push(s).take(j) =~= said.take(j));
    }
}

/// A schedule goes on with an answer that neither sends nor reports anything, or that lets
/// something go.
proof fn lemma_schedule_goes_on(
    events: Seq<MacroEvent>,
    delays: Seq<i64>,
    options: PlaybackOptions,
    signals: Seq<Signals>,
    said: Seq<PlayerStep>,
    next: Signals,
    s: PlayerStep,
    loops: Seq<LoopTrace>,
    end: int,
)
    requires
        said.len() == signals.len(),
        loops.len() > 0 ==> events.len() > 0,
        on_schedule(events, delays, options, signals, said, loops, end),
    ensures
        end == said.len() && (s.action is Continue || s.action is Sleep) ==> on_schedule(
            events,
            delays,
            options,
            signals.push(next),
            said.push(s),
            loops,
            end + 1,
        ),
        lets_go(said.push(s), said.len() as int, everything_played(events, options, loops))
            ==> on_schedule(
            events,
            delays,
            options,
            signals.push(next),
            said.push(s),
            loops,
            end,
        ),
{
    let all = signals.push(next);
    let more = said.push(s);
    assert forall|i: int| 0 <= i < loops.len() implies #[trigger] loop_in_time(
        events,
        delays,
        options,
        all,
        more,
        loops[i],
        i + 1,
    ) by {
        lemma_loop_of_prefix(events, delays, options, signals, said, next, s, loops[i], i + 1);
    }
    assert forall|i: int| 0 < i < loops.len() implies waited(
        all,
        loops[i - 1].played.last(),
        (#[trigger] loops[i]).start,
        options.interval_ms as int,
    ) by {
        assert(loop_in_time(events, delays, options, signals, said, loops[i], i + 1));
        assert(loop_in_time(events, delays, options, signals, said, loops[i - 1], (i - 1) + 1));
        let before = loops[i - 1];
        assert(before.played.len() == events.len());
        assert(event_in_time(events, delays, signals, said, before, before.played.len() - 1));
        lemma_waited_of_prefix(
            signals,
            next,
            before.played.last(),
            loops[i].start,
            options.interval_ms as int,
        );
    }
    assert forall|j: int| end <= j < said.len() implies #[trigger] lets_go(
        more,
        j,
        everything_played(events, options, loops),
    ) by {
        assert(lets_go(said, j, everything_played(events, options, loops)));
        assert(more.take(j) =~= said.take(j));
    }
    assert forall|j: int| 0 <= j < end implies more[j] == said[j] by {}
}

/// A schedule goes on with the report of another loop.
proof fn lemma_loop_begins(
    events: Seq<MacroEvent>,
    delays: Seq<i64>,
    options: PlaybackOptions,
    signals: Seq<Signals>,
    said: Seq<PlayerStep>,
    next: Signals,
    s: PlayerStep,
    loops: Seq<LoopTrace>,
) -> (r: Seq<LoopTrace>)
    requires
        said.len() == signals.len(),
        events.len() > 0,
        on_schedule(events, delays, options, signals, said, loops, said.len() as int),
        loops.len() > 0 ==> loops.last().played.len() == events.len() && ready(
            signals,
            loops.last().played.last(),
            options.interval_ms as int,
        ),
        loop_in_time(
            events,
            delays,
            options,
            signals.push(next),
            said.push(s),
            (LoopTrace { start: said.len() as int, played: Seq::empty() }),
            loops.len() as int + 1,
        ),
    ensures
        r == loops.push((LoopTrace { start: said.len() as int, played: Seq::empty() })),
        on_schedule(
            events,
            delays,
            options,
            signals.push(next),
            said.push(s),
            r,
            said.len() as int + 1,
        ),
{
    let n = said.len() as int;
    let all = signals.push(next);
    let more = said.push(s);
    let begun = LoopTrace { start: n, played: Seq::empty() };
    let r = loops.push(begun);
    let quiet = PlayerStep { pause_changed: None, action: PlayerAction::Continue };
    assert forall|i: int| 0 <= i < r.len() implies #[trigger] loop_in_time(
        events,
        delays,
        options,
        all,
        more,
        r[i],
        i + 1,
    ) by {
        if i < loops.len() {
            assert(loop_in_time(events, delays, options, signals, said, loops[i], i + 1));
            lemma_loop_of_prefix(events, delays, options, signals, said, next, s, loops[i], i + 1);
        }
    }
    lemma_schedule_goes_on(events, delays, options, signals, said, next, quiet, loops, n);
    let calm = said.push(quiet);
    assert forall|i: int| 0 < i < r.len() implies waited(
        all,
        r[i - 1].played.last(),
        (#[trigger] r[i]).start,
        options.interval_ms as int,
    ) by {
        if i < loops.len() {
            assert(r[i] == loops[i] && r[i - 1] == loops[i - 1]);
            assert(waited(
                all,
                loops[i - 1].played.last(),
                loops[i].start,
                options.interval_ms as int,
            ));
        } else {
            let before = loops.last();
            assert(r[i - 1] == before);
            assert(loop_in_time(
                events,
                delays,
                options,
                signals,
                said,
                loops[loops.len() - 1],
                (loops.len() - 1) + 1,
            ));
            assert(event_in_time(events, delays, signals, said, before, before.played.len() - 1));
            lemma_ready_is_waited(signals, next, before.played.last(), options.interval_ms as int);
        }
    }
    assert forall|j: int| 0 <= j < n + 1 && (#[trigger] more[j]).action is Send implies is_event(
        r,
        j,
    ) by {
        if j < n {
            assert(said[j].action is Send);
            let (l, k) = choose|l: int, k: int|
                0 <= l < loops.len() && 0 <= k < loops[l].played.len() && #[trigger] loops[l].played[k]
                    == j;
            assert(r[l].played[k] == j);
        }
    }
    assert forall|j: int|
        0 <= j < n + 1 && (#[trigger] more[j]).action is LoopStarted implies is_start(r, j) by {
        if j < n {
            assert(said[j].action is LoopStarted);
            let l = choose|l: int| 0 <= l < loops.len() && (#[trigger] loops[l]).start == j;
            assert(r[l].start == j);
        } else {
            assert(r[loops.len() as int].start == j);
        }
    }
    assert forall|i: int, k: int|
        0 <= i < r.len() && 0 <= k < r[i].played.len() implies #[trigger] r[i].played[k] < n + 1 by {
        if i < loops.len() {
            assert(loops[i].played[k] < n);
        }
    }
    assert forall|j: int| 0 <= j < n + 1 implies !((#[trigger] more[j]).action is Finished) by {
        if j < n {
            assert(!(said[j].action is Finished));
        }
    }
    assert forall|i: int| 0 <= i < r.len() - 1 implies (#[trigger] r[i]).played.len()
        == events.len() by {
        if i < loops.len() - 1 {
            assert(loops[i].played.len() == events.len());
        }
    }
    assert forall|i: int| 0 <= i < r.len() implies (#[trigger] r[i]).start < n + 1 by {
        if i < loops.len() {
            assert(loops[i].start < n);
        }
    }
    r
}

/// A schedule goes on with another event.
proof fn lemma_event_is_played(
    events: Seq<MacroEvent>,
    delays: Seq<i64>,
    options: PlaybackOptions,
    signals: Seq<Signals>,
    said: Seq<PlayerStep>,
    next: Signals,
    s: PlayerStep,
    loops: Seq<LoopTrace>,
) -> (r: Seq<LoopTrace>)
    requires
        said.len() == signals.len(),
        on_schedule(events, delays, options, signals, said, loops, said.len() as int),
        loops.len() > 0,
        loops.last().played.len() < events.len(),
        ready(
            signals,
            before_event(loops.last(), loops.last().played.len() as int),
            delays[loops.last().played.len() as int] as int,
        ),
        !next.stop,
        plays_event(said.push(s), said.len() as int, events[loops.last().played.len() as int]),
    ensures
        r == loops.update(
            loops.len() - 1,
            (LoopTrace {
                start: loops.last().start,
                played: loops.last().played.push(said.len() as int),
            }),
        ),
        on_schedule(
            events,
            delays,
            options,
            signals.push(next),
            said.push(s),
            r,
            said.len() as int + 1,
        ),
{
    let n = said.len() as int;
    let all = signals.push(next);
    let more = said.push(s);
    let last = loops.last();
    let top = loops.len() - 1;
    let at = last.played.len() as int;
    let now = LoopTrace { start: last.start, played: last.played.push(n) };
    let r = loops.update(top, now);
    assert(loop_in_time(events, delays, options, signals, said, loops[top], top + 1));
    if at > 0 {
        assert(event_in_time(events, delays, signals, said, last, at - 1));
    }
    lemma_ready_is_waited(signals, next, before_event(last, at), delays[at] as int);
    lemma_loop_of_prefix(events, delays, options, signals, said, next, s, last, top + 1);
    assert forall|k: int| 0 <= k < now.played.len() implies #[trigger] event_in_time(
        events,
        delays,
        all,
        more,
        now,
        k,
    ) by {
        assert(before_event(now, k) == before_event(last, k));
        if k < at {
            assert(event_in_time(events, delays, all, more, last, k));
            assert(now.played[k] == last.played[k]);
        }
    }
    assert(loop_in_time(events, delays, options, all, more, now, top + 1));
    assert forall|i: int| 0 <= i < r.len() implies #[trigger] loop_in_time(
        events,
        delays,
        options,
        all,
        more,
        r[i],
        i + 1,
    ) by {
        if i < top {
            assert(loop_in_time(events, delays, options, signals, said, loops[i], i + 1));
            lemma_loop_of_prefix(events, delays, options, signals, said, next, s, loops[i], i + 1);
        }
    }
    let quiet = PlayerStep { pause_changed: None, action: PlayerAction::Continue };
    lemma_schedule_goes_on(events, delays, options, signals, said, next, quiet, loops, n);
    assert forall|i: int| 0 < i < r.len() implies waited(
        all,
        r[i - 1].played.last(),
        (#[trigger] r[i]).start,
        options.interval_ms as int,
    ) by {
        assert(r[i].start == loops[i].start);
        assert(r[i - 1] == loops[i - 1]);
        assert(waited(
            all,
            loops[i - 1].played.last(),
            loops[i].start,
            options.interval_ms as int,
        ));
    }
    assert forall|j: int| 0 <= j < n + 1 && (#[trigger] more[j]).action is Send implies is_event(
        r,
        j,
    ) by {
        if j < n {
            assert(said[j].action is Send);
            let (l, k) = choose|l: int, k: int|
                0 <= l < loops.len() && 0 <= k < loops[l].played.len() && #[trigger] loops[l].played[k]
                    == j;
            assert(r[l].played[k] == j);
        } else {
            assert(r[top].played[at] == j);
        }
    }
    assert forall|j: int|
        0 <= j < n + 1 && (#[trigger] more[j]).action is LoopStarted implies is_start(r, j) by {
        assert(j < n);
        assert(said[j].action is LoopStarted);
        let l = choose|l: int| 0 <= l < loops.len() && (#[trigger] loops[l]).start == j;
        assert(r[l].start == j);
    }
    assert forall|i: int, k: int|
        0 <= i < r.len() && 0 <= k < r[i].played.len() implies #[trigger] r[i].played[k] < n + 1 by {
        if i < top {
            assert(loops[i].played[k] < n);
        } else if k < at {
            assert(loops[top].played[k] < n);
        }
    }
    assert forall|j: int| 0 <= j < n + 1 implies !((#[trigger] more[j]).action is Finished) by {
        if j < n {
            assert(!(said[j].action is Finished));
        }
    }
    assert forall|i: int| 0 <= i < r.len() - 1 implies (#[trigger] r[i]).played.len()
        == events.len() by {
        assert(loops[i].played.len() == events.len());
    }
    assert forall|i: int| 0 <= i < r.len() implies (#[trigger] r[i]).start < n + 1 by {
        assert(loops[i].start < n);
    }
    r
}

/// Counting on, anew after the largest number.
proof fn lemma_count_on(a: int, m: int)
    requires
        a >= 0,
        m > 1,
    ensures
        (a + 1) % m == (if a % m == m - 1 {
            0
        } else {
            a % m + 1
        }),
        a < m ==> a % m == a,
{
    vstd::arithmetic::div_mod::lemma_fundamental_div_mod(a, m);
    let q = a / m;
    if a % m == m - 1 {
        assert((a + 1) == (q + 1) * m) by (nonlinear_arith)
            requires
                a == m * q + a % m,
                a % m == m - 1,
        ;
        vstd::arithmetic::div_mod::lemma_fundamental_div_mod_converse(a + 1, m, q + 1, 0);
    } else {
        assert((a + 1) == q * m + (a % m + 1)) by (nonlinear_arith)
            requires
                a == m * q + a % m,
        ;
        vstd::arithmetic::div_mod::lemma_fundamental_div_mod_converse(a + 1, m, q, a % m + 1);
    }
    if a < m {
        vstd::arithmetic::div_mod::lemma_small_mod(a as nat, m as nat);
    }
}

/// What a playback takes from the macro and the options, and keeps.
spec fn keeps(
    v: PlayerView,
    events: Seq<MacroEvent>,
    delays: Seq<i64>,
    options: PlaybackOptions,
) -> bool {
    &&& v.events == events
    &&& v.delays == delays
    &&& v.interval_ms == options.interval_ms
    &&& match loops_wanted(options) {
        Some(wanted) => v.total == Some(wanted as usize),
        None => v.total is None,
    }
}

/// Whether a step plays an event.
spec fn plays_now(v: PlayerView, next: Signals) -> bool {
    v.phase is EventSend && !next.stop
}

/// Whether a step reports a loop.
spec fn starts_now(v: PlayerView, next: Signals) -> bool {
    v.phase is Gate && !next.stop && !next.pause
}

/// Whether the last loop, if there is one, has its requests behind it.
spec fn placed(loops: Seq<LoopTrace>, events: nat) -> bool {
    loops.len() > 0 ==> events > 0 && loops.last().start >= 0 && (loops.last().played.len() > 0
        ==> loops.last().played.last() >= 0)
}

/// A step that neither reports a loop nor plays an event, before the playback ends.
proof fn lemma_quiet_step(
    v: PlayerView,
    options: PlaybackOptions,
    signals: Seq<Signals>,
    next: Signals,
    loops: Seq<LoopTrace>,
)
    requires
        player::sound(v),
        keeps(v, v.events, v.delays, options),
        stands(v, options, signals, loops, signals.len() as int),
        placed(loops, v.events.len()),
        !(v.phase is Releasing),
        !plays_now(v, next),
        !starts_now(v, next),
    ensures
        ({
            let (after, s) = player::step(v, next.stop, next.pause, next.now);
            &&& s.action is Continue || s.action is Sleep
            &&& stands(after, options, signals.push(next), loops, signals.len() as int + 1)
        }),
{
    let n = signals.len() as int;
    let all = signals.push(next);
    if loops.len() > 0 {
        lemma_count_on(loops.len() - 1, usize::MAX as int);
    }
    match v.phase {
        Phase::LoopTop | Phase::Gate => {
            if loops.len() > 0 {
                lemma_ready_is_waited(signals, next, loops.last().played.last(), v.interval_ms as int);
            }
        },
        Phase::EventTop { event } => {
            assert(all[n] == next);
            assert(unpaused(all, n, n) == 0);
        },
        Phase::Waiting { wait, then } => {
            let from = match then {
                AfterWait::Play { event } => wait_base(loops, event as int) + 1,
                AfterWait::NextLoop => loops.last().played.last() + 1,
            };
            lemma_running(signals, next, wait, from);
        },
        Phase::LoopEnd => {
            assert(all[n] == next);
            assert(unpaused(all, n, n) == 0);
        },
        _ => {},
    }
}

/// A step that reports a loop.
proof fn lemma_starting_step(
    v: PlayerView,
    options: PlaybackOptions,
    signals: Seq<Signals>,
    said: Seq<PlayerStep>,
    next: Signals,
    loops: Seq<LoopTrace>,
)
    requires
        said.len() == signals.len(),
        player::sound(v),
        keeps(v, v.events, v.delays, options),
        stands(v, options, signals, loops, signals.len() as int),
        starts_now(v, next),
    ensures
        ({
            let (after, s) = player::step(v, next.stop, next.pause, next.now);
            let begun = LoopTrace { start: said.len() as int, played: Seq::empty() };
            &&& loop_in_time(
                v.events,
                v.delays,
                options,
                signals.push(next),
                said.push(s),
                begun,
                loops.len() as int + 1,
            )
            &&& stands(
                after,
                options,
                signals.push(next),
                loops.push(begun),
                signals.len() as int + 1,
            )
        }),
{
}

/// A step that plays an event.
proof fn lemma_playing_step(
    v: PlayerView,
    options: PlaybackOptions,
    signals: Seq<Signals>,
    said: Seq<PlayerStep>,
    next: Signals,
    loops: Seq<LoopTrace>,
)
    requires
        said.len() == signals.len(),
        player::sound(v),
        stands(v, options, signals, loops, signals.len() as int),
        player::accounts(v.held, sent_in(said)),
        plays_now(v, next),
    ensures
        ({
            let (after, s) = player::step(v, next.stop, next.pause, next.now);
            let at = loops.last().played.len() as int;
            let now = LoopTrace {
                start: loops.last().start,
                played: loops.last().played.push(said.len() as int),
            };
            &&& loops.len() > 0
            &&& at < v.events.len()
            &&& plays_event(said.push(s), said.len() as int, v.events[at])
            &&& ready(signals, before_event(loops.last(), at), v.delays[at] as int)
            &&& stands(
                after,
                options,
                signals.push(next),
                loops.update(loops.len() - 1, now),
                signals.len() as int + 1,
            )
        }),
{
    let (after, s) = player::step(v, next.stop, next.pause, next.now);
    assert(said.push(s).take(said.len() as int) =~= said);
    let at = loops.last().played.len() as int;
    let e = v.events[at];
    assert(v.held.keys.contains(e.key_code) <==> player::keys_left(sent_in(said)).contains(
        e.key_code,
    ));
    assert(v.held.buttons.contains(e.button) <==> player::buttons_left(sent_in(said)).contains(
        e.button,
    ));
}

/// A step with which the playback ends.
proof fn lemma_ending_step(
    v: PlayerView,
    options: PlaybackOptions,
    signals: Seq<Signals>,
    said: Seq<PlayerStep>,
    next: Signals,
    loops: Seq<LoopTrace>,
    end: int,
)
    requires
        said.len() == signals.len(),
        stands(v, options, signals, loops, end),
        player::accounts(v.held, sent_in(said)),
        v.phase is Releasing,
    ensures
        ({
            let (after, s) = player::step(v, next.stop, next.pause, next.now);
            &&& lets_go(
                said.push(s),
                said.len() as int,
                everything_played(v.events, options, loops),
            )
            &&& stands(after, options, signals.push(next), loops, end)
        }),
{
    let (after, s) = player::step(v, next.stop, next.pause, next.now);
    assert(said.push(s).take(said.len() as int) =~= said);
    if v.held.keys.len() > 0 {
        assert(v.held.keys.contains(v.held.keys[0]));
    } else if v.held.buttons.len() > 0 {
        assert(v.held.buttons.contains(v.held.buttons[0]));
    } else {
        assert forall|k: i32| !player::keys_left(sent_in(said)).contains(k) by {
            assert(!v.held.keys.contains(k));
        }
        assert forall|b: MouseButton| !player::buttons_left(sent_in(said)).contains(b) by {
            assert(!v.held.buttons.contains(b));
        }
        assert(player::keys_left(sent_in(said)) =~= Set::<i32>::empty());
        assert(player::buttons_left(sent_in(said)) =~= Set::<MouseButton>::empty());
    }
}

proof fn lemma_placed(
    events: Seq<MacroEvent>,
    delays: Seq<i64>,
    options: PlaybackOptions,
    signals: Seq<Signals>,
    said: Seq<PlayerStep>,
    loops: Seq<LoopTrace>,
    end: int,
)
    requires
        loops.len() > 0 ==> events.len() > 0,
        on_schedule(events, delays, options, signals, said, loops, end),
    ensures
        placed(loops, events.len()),
{
    if loops.len() > 0 {
        let top = loops.len() - 1;
        assert(loop_in_time(events, delays, options, signals, said, loops[top], top + 1));
        let last = loops.last();
        if last.played.len() > 0 {
            assert(event_in_time(events, delays, signals, said, last, last.played.len() - 1));
        }
    }
}

proof fn lemma_step_on_schedule(
    events: Seq<MacroEvent>,
    delays: Seq<i64>,
    options: PlaybackOptions,
    signals: Seq<Signals>,
    said: Seq<PlayerStep>,
    v: PlayerView,
    next: Signals,
    loops: Seq<LoopTrace>,
    end: int,
) -> (r: (Seq<LoopTrace>, int))
    requires
        said.len() == signals.len(),
        loops.len() > 0 ==> events.len() > 0,
        player::sound(v),
        keeps(v, events, delays, options),
        player::accounts(v.held, sent_in(said)),
        on_schedule(events, delays, options, signals, said, loops, end),
        stands(v, options, signals, loops, end),
    ensures
        r.0.len() > 0 ==> events.len() > 0,
        keeps(player::step(v, next.stop, next.pause, next.now).0, events, delays, options),
        on_schedule(
            events,
            delays,
            options,
            signals.push(next),
            said.push(player::step(v, next.stop, next.pause, next.now).1),
            r.0,
            r.1,
        ),
        stands(
            player::step(v, next.stop, next.pause, next.now).0,
            options,
            signals.push(next),
            r.0,
            r.1,
        ),
{
    let s = player::step(v, next.stop, next.pause, next.now).1;
    let n = signals.len() as int;
    lemma_placed(events, delays, options, signals, said, loops, end);
    if v.phase is Releasing {
        lemma_ending_step(v, options, signals, said, next, loops, end);
        lemma_schedule_goes_on(events, delays, options, signals, said, next, s, loops, end);
        (loops, end)
    } else if starts_now(v, next) {
        lemma_starting_step(v, options, signals, said, next, loops);
        let r = lemma_loop_begins(events, delays, options, signals, said, next, s, loops);
        (r, n + 1)
    } else if plays_now(v, next) {
        lemma_playing_step(v, options, signals, said, next, loops);
        let r = lemma_event_is_played(events, delays, options, signals, said, next, s, loops);
        (r, n + 1)
    } else {
        lemma_quiet_step(v, options, signals, next, loops);
        lemma_schedule_goes_on(events, delays, options, signals, said, next, s, loops, end);
        (loops, n + 1)
    }
}

proof fn lemma_on_schedule(
    events: Seq<MacroEvent>,
    delays: Seq<i64>,
    options: PlaybackOptions,
    signals: Seq<Signals>,
) -> (r: (Seq<LoopTrace>, int))
    requires
        delays.len() == events.len() <= usize::MAX,
    ensures
        r.0.len() > 0 ==> events.len() > 0,
        ({
            let v = player::trace(player::begun(events, delays, options), signals).0;
            let said = answers(player::begun(events, delays, options), signals);
            &&& said.len() == signals.len()
            &&& player::sound(v)
            &&& keeps(v, events, delays, options)
            &&& on_schedule(events, delays, options, signals, said, r.0, r.1)
            &&& stands(v, options, signals, r.0, r.1)
        }),
    decreases signals.len(),
{
    let start = player::begun(events, delays, options);
    lemma_answers_len(start, signals);
    if signals.len() == 0 {
        lemma_count_on(0, usize::MAX as int);
        (Seq::empty(), 0)
    } else {
        let rest = signals.drop_last();
        let next = signals.last();
        let (loops, end) = lemma_on_schedule(events, delays, options, rest);
        let v = player::trace(start, rest).0;
        let said = answers(start, rest);
        player::law_held_is_what_was_pressed(events, delays, options, rest);
        lemma_sent_in_is_sent(start, rest);
        lemma_answers_of_prefix(start, rest, next);
        assert(rest.push(next) =~= signals);
        player::lemma_step_stays_sound(v, next);
        lemma_step_on_schedule(events, delays, options, rest, said, v, next, loops, end)
    }
}

// ---------------------------------------------------------------------------
// Laws
// ---------------------------------------------------------------------------

/// Playback keeps to its schedule, whatever it is told and whenever it is asked. Loop after
/// loop is reported under its number, none while a pause or a stop is wanted. Every event is
/// played in order, each no sooner than its delay after the one before. Between the last event
/// of a loop and the report of the next one the interval passes, be there an end or not. Times
/// of pauses do not count. Nothing else is sent until the end, and then what is still pressed
/// is let go; whether everything was played is told at last.
pub proof fn law_playback_keeps_to_its_schedule(
    events: Seq<MacroEvent>,
    delays: Seq<i64>,
    options: PlaybackOptions,
    signals: Seq<Signals>,
)
    requires
        delays.len() == events.len() <= usize::MAX,
    ensures
        exists|loops: Seq<LoopTrace>, end: int| #[trigger]
            on_schedule(
                events,
                delays,
                options,
                signals,
                answers(player::begun(events, delays, options), signals),
                loops,
                end,
            ),
{
    let (loops, end) = lemma_on_schedule(events, delays, options, signals);
    assert(on_schedule(
        events,
        delays,
        options,
        signals,
        answers(player::begun(events, delays, options), signals),
        loops,
        end,
    ));
}

/// Whether the wait for what comes next is not over yet at a request: for the next event of
/// the last loop or, after its last event, for the interval before another loop.
pub open spec fn has_to_wait(
    events: Seq<MacroEvent>,
    delays: Seq<i64>,
    options: PlaybackOptions,
    signals: Seq<Signals>,
    loops: Seq<LoopTrace>,
    j: int,
) -> bool {
    let l = loops.last();
    let k = l.played.len() as int;
    &&& loops.len() > 0
    &&& if k < events.len() {
        unpaused(signals, before_event(l, k) + 1, j) < delays[k] * 1_000_000
    } else {
        &&& loops_wanted(options) != Some(loops.len() as int)
        &&& unpaused(signals, l.played.last() + 1, j) < options.interval_ms * 1_000_000
    }
}

/// Playback does not dawdle: it sleeps only while a pause is wanted, or while the delay of the
/// next event or the interval before the next loop has not passed. After the last of its loops
/// it does not wait at all.
pub proof fn law_playback_does_not_dawdle(
    events: Seq<MacroEvent>,
    delays: Seq<i64>,
    options: PlaybackOptions,
    signals: Seq<Signals>,
    next: Signals,
)
    requires
        delays.len() == events.len() <= usize::MAX,
        in_order(signals.push(next)),
        !next.pause,
        answers(player::begun(events, delays, options), signals.push(next)).last().action is Sleep,
    ensures
        exists|loops: Seq<LoopTrace>, end: int|
            {
                &&& #[trigger] on_schedule(
                    events,
                    delays,
                    options,
                    signals,
                    answers(player::begun(events, delays, options), signals),
                    loops,
                    end,
                )
                &&& end == signals.len()
                &&& has_to_wait(
                    events,
                    delays,
                    options,
                    signals.push(next),
                    loops,
                    signals.len() as int,
                )
            },
{
    let start = player::begun(events, delays, options);
    let (loops, end) = lemma_on_schedule(events, delays, options, signals);
    lemma_answers_of_prefix(start, signals, next);
    let v = player::trace(start, signals).0;
    let said = answers(start, signals);
    lemma_placed(events, delays, options, signals, said, loops, end);
    if let Phase::Waiting { wait, then } = v.phase {
        let from = match then {
            AfterWait::Play { event } => wait_base(loops, event as int) + 1,
            AfterWait::NextLoop => loops.last().played.last() + 1,
        };
        lemma_running(signals, next, wait, from);
    }
    assert(has_to_wait(
        events,
        delays,
        options,
        signals.push(next),
        loops,
        signals.len() as int,
    ));
}

/// How many requests a playback may answer with nothing to do.
spec fn patience(v: PlayerView) -> int {
    let n = v.events.len();
    match v.phase {
        Phase::EventTop { event } => 3 * (n - event) + 5,
        Phase::Waiting { then: AfterWait::Play { event }, .. } => 3 * (n - event) + 4,
        Phase::EventSend { event } => 3 * (n - event) + 3,
        Phase::LoopEnd => 5,
        Phase::Waiting { then: AfterWait::NextLoop, .. } => 4,
        Phase::LoopTop => 3,
        Phase::Gate => 2,
        Phase::Releasing { .. } => 0,
    }
}

proof fn lemma_patience(v: PlayerView, at: Signals)
    requires
        player::sound(v),
    ensures
        player::step(v, at.stop, at.pause, at.now).0.events == v.events,
        0 <= patience(v) <= 3 * v.events.len() + 5,
        player::step(v, at.stop, at.pause, at.now).1.action is Continue ==> patience(
            player::step(v, at.stop, at.pause, at.now).0,
        ) < patience(v),
{
}

/// Playback never turns in circles: asked often enough, it sends an input, reports a loop,
/// sleeps or says that nothing is left to do.
pub proof fn law_playback_gets_on(
    events: Seq<MacroEvent>,
    delays: Seq<i64>,
    options: PlaybackOptions,
    signals: Seq<Signals>,
    from: int,
)
    requires
        delays.len() == events.len() <= usize::MAX,
        0 <= from,
        from + 3 * events.len() + 6 <= signals.len(),
    ensures
        exists|j: int|
            from <= j < signals.len() && !((#[trigger] answers(
                player::begun(events, delays, options),
                signals,
            )[j]).action is Continue),
{
    let start = player::begun(events, delays, options);
    let said = answers(start, signals);
    lemma_answers_len(start, signals);
    if forall|j: int| from <= j < signals.len() ==> (#[trigger] said[j]).action is Continue {
        lemma_patience_runs_out(events, delays, options, signals, from, signals.len() as int);
    }
}

proof fn lemma_patience_runs_out(
    events: Seq<MacroEvent>,
    delays: Seq<i64>,
    options: PlaybackOptions,
    signals: Seq<Signals>,
    from: int,
    to: int,
)
    requires
        delays.len() == events.len() <= usize::MAX,
        0 <= from <= to <= signals.len(),
        forall|j: int|
            from <= j < signals.len() ==> (#[trigger] answers(
                player::begun(events, delays, options),
                signals,
            )[j]).action is Continue,
    ensures
        ({
            let v = player::trace(player::begun(events, delays, options), signals.take(to)).0;
            &&& player::sound(v)
            &&& v.events == events
            &&& 0 <= patience(v) <= 3 * events.len() + 5 - (to - from)
        }),
    decreases to - from,
{
    let start = player::begun(events, delays, options);
    if to == from {
        lemma_on_schedule(events, delays, options, signals.take(to));
        let v = player::trace(start, signals.take(to)).0;
        lemma_patience(v, Signals { stop: false, pause: false, now: 0 });
    } else {
        lemma_patience_runs_out(events, delays, options, signals, from, to - 1);
        let rest = signals.take(to - 1);
        let next = signals[to - 1];
        assert(rest.push(next) =~= signals.take(to));
        let v = player::trace(start, rest).0;
        lemma_answers_of_prefix(start, rest, next);
        lemma_answers_len(start, rest);
        lemma_answers_of_take(start, signals, to);
        lemma_answers_len(start, signals);
        assert(answers(start, signals).take(to)[to - 1] == answers(start, signals)[to - 1]);
        player::lemma_step_stays_sound(v, next);
        lemma_patience(v, next);
        lemma_patience(player::step(v, next.stop, next.pause, next.now).0, next);
    }
}

proof fn lemma_answers_of_take(v: PlayerView, signals: Seq<Signals>, to: int)
    requires
        0 <= to <= signals.len(),
    ensures
        answers(v, signals).take(to) == answers(v, signals.take(to)),
    decreases signals.len(),
{
    lemma_answers_len(v, signals);
    if to == signals.len() {
        assert(signals.take(to) =~= signals);
        assert(answers(v, signals).take(to) =~= answers(v, signals));
    } else {
        let rest = signals.drop_last();
        lemma_answers_of_take(v, rest, to);
        lemma_answers_len(v, rest);
        assert(rest.take(to) =~= signals.take(to));
        assert(answers(v, signals).take(to) =~= answers(v, rest).take(to));
    }
}

/// A pause that begins or ends between two requests, of which the first was answered with a
/// sleep, is told by the second, unless that one brings a stop. Nothing else is told.
pub proof fn law_pauses_are_told(v: PlayerView, first: Signals, second: Signals)
    requires
        player::step(v, first.stop, first.pause, first.now).1.action is Sleep,
        !second.stop,
    ensures
        ({
            let after = player::step(v, first.stop, first.pause, first.now).0;
            let told = player::step(after, second.stop, second.pause, second.now).1.pause_changed;
            if first.pause == second.pause {
                told is None
            } else {
                told == Some(second.pause)
            }
        }),
{
}

/// What is told of a pause is what is wanted.
pub proof fn law_told_pause_is_wanted(v: PlayerView, at: Signals)
    ensures
        player::step(v, at.stop, at.pause, at.now).1.pause_changed matches Some(told) ==> told
            == at.pause,
{
}

} // verus!
