use clickei::hooks::SafeHwnd;
use clickei::keys::VK_ESCAPE;
use clickei::model::{ClickType, CursorMode, MouseButton, SequenceTarget};
use clickei::static_clicker::run::{
    emergency_key, ClickAction, ClickSignals, ClickerError, ClickerRun,
};
use clickei::static_clicker::tick::{
    background_fallback, background_first, background_inner, background_point, background_second,
    background_second_inner, foreground_click, tick_target, wants_focus, Surroundings, TickAction,
    TickError,
};
use clickei::static_clicker::{ClickMode, RepeatMode, StaticClickerConfig};

const MS: u64 = 1_000_000;

fn config(repeat: RepeatMode, cursor: CursorMode, mode: ClickMode) -> StaticClickerConfig {
    StaticClickerConfig {
        interval_ms: 10,
        button: MouseButton::Left,
        click_type: ClickType::Single,
        repeat,
        cursor,
        mode,
        sequence_targets: vec![
            SequenceTarget { x: 1, y: 2, clicks: 2, interval_ms: 3 },
            SequenceTarget { x: 5, y: 6, clicks: 0, interval_ms: 0 },
        ],
        sequence_enabled: true,
        interval_jitter_ms: 0,
        position_jitter_px: 0,
    }
}

fn calm(now: u64) -> ClickSignals {
    ClickSignals {
        stop: false,
        escape: false,
        now,
        over_app: false,
        window_alive: true,
        user_busy: false,
        tick_error: None,
    }
}

type Outcome = (Vec<(u64, i32, i32)>, Vec<u32>, bool, Option<ClickerError>);

/// Runs a clicker to its end, with signals that depend on the time.
fn drive(run: &mut ClickerRun, signals: &dyn Fn(u64) -> ClickSignals) -> Outcome {
    let mut clicks = Vec::new();
    let mut counts = Vec::new();
    let mut now = 0;
    loop {
        match run.step_with(signals(now), 0).action {
            ClickAction::Continue => {}
            ClickAction::Sleep => now += MS,
            ClickAction::Click => clicks.push((now / MS, -1, -1)),
            ClickAction::ClickTarget { x, y, .. } => clicks.push((now / MS, x, y)),
            ClickAction::Report { count, .. } => counts.push(count),
            ClickAction::Finished { completed, error } => return (clicks, counts, completed, error),
        }
    }
}

#[test]
fn clicks_come_at_their_interval() {
    let mut run = ClickerRun::new(&config(RepeatMode::Count(3), CursorMode::Current, ClickMode::Foreground));
    let (clicks, counts, completed, error) = drive(&mut run, &calm);
    assert_eq!(clicks, vec![(0, -1, -1), (10, -1, -1), (20, -1, -1)]);
    assert_eq!(counts, vec![1, 2, 3]);
    assert!(completed);
    assert_eq!(error, None);
}

#[test]
fn no_clicks_are_asked_for_none() {
    let mut run = ClickerRun::new(&config(RepeatMode::Count(0), CursorMode::Current, ClickMode::Foreground));
    assert_eq!(drive(&mut run, &calm), (vec![], vec![], true, None));
}

#[test]
fn clicks_wait_for_the_user() {
    let busy = |now: u64| ClickSignals { user_busy: now < 25 * MS, ..calm(now) };
    let mut run = ClickerRun::new(&config(RepeatMode::Count(1), CursorMode::Current, ClickMode::Foreground));
    assert_eq!(drive(&mut run, &busy).0, vec![(30, -1, -1)]);
    let mode = ClickMode::Background(SafeHwnd(9));
    let mut run = ClickerRun::new(&config(RepeatMode::Count(1), CursorMode::Current, mode));
    assert_eq!(drive(&mut run, &busy).0, vec![(0, -1, -1)]);
    let hover = |now: u64| ClickSignals { over_app: now < 5 * MS, ..calm(now) };
    let mut run = ClickerRun::new(&config(RepeatMode::Count(1), CursorMode::Current, mode));
    assert_eq!(drive(&mut run, &hover).0, vec![(10, -1, -1)]);
}

#[test]
fn a_stop_ends_the_run() {
    let stop = |now: u64| ClickSignals { stop: now >= 15 * MS, ..calm(now) };
    let mut run = ClickerRun::new(&config(RepeatMode::Infinite, CursorMode::Current, ClickMode::Foreground));
    let (clicks, _, completed, error) = drive(&mut run, &stop);
    assert_eq!(clicks.len(), 2);
    assert!(!completed);
    assert_eq!(error, None);
}

#[test]
fn escape_asks_everyone_for_a_stop() {
    let mut run = ClickerRun::new(&config(RepeatMode::Infinite, CursorMode::Current, ClickMode::Foreground));
    let s = run.step_with(ClickSignals { escape: true, ..calm(0) }, 0);
    assert!(s.raise_stop);
    assert_eq!(
        run.step_with(calm(0), 0).action,
        ClickAction::Finished { completed: false, error: None }
    );
    assert_eq!((emergency_key().modifiers, emergency_key().key), (0, VK_ESCAPE));
}

#[test]
fn a_closed_window_ends_the_run() {
    let gone = |now: u64| ClickSignals { window_alive: now < 5 * MS, ..calm(now) };
    let mode = ClickMode::Background(SafeHwnd(9));
    let mut run = ClickerRun::new(&config(RepeatMode::Infinite, CursorMode::Current, mode));
    let (clicks, _, completed, error) = drive(&mut run, &gone);
    assert_eq!(clicks.len(), 1);
    assert!(!completed);
    assert_eq!(error, Some(ClickerError::WindowClosed));
    assert_eq!(error.unwrap().text(), "Target window closed — clicker stopped.");
}

#[test]
fn a_failed_click_ends_the_run() {
    let fail = |now: u64| ClickSignals { tick_error: Some(TickError::NoCursor), ..calm(now) };
    let mut run = ClickerRun::new(&config(RepeatMode::Infinite, CursorMode::Current, ClickMode::Foreground));
    let (_, counts, completed, error) = drive(&mut run, &fail);
    assert!(counts.is_empty() && !completed);
    assert_eq!(error.unwrap().text(), "GetCursorPos failed");
}

#[test]
fn targets_are_clicked_in_order() {
    let mut run = ClickerRun::new(&config(RepeatMode::Count(2), CursorMode::MultiTarget, ClickMode::Foreground));
    let (clicks, counts, completed, _) = drive(&mut run, &calm);
    assert_eq!(
        clicks,
        vec![(0, 1, 2), (3, 1, 2), (6, 5, 6), (7, 1, 2), (10, 1, 2), (13, 5, 6)]
    );
    assert_eq!(counts, vec![1, 2, 3, 4, 5, 6]);
    assert!(completed);
    assert_eq!(run.active(), Some(1));
}

#[test]
fn targets_that_are_off_give_way_to_the_mouse() {
    let mut c = config(RepeatMode::Count(2), CursorMode::MultiTarget, ClickMode::Foreground);
    c.sequence_enabled = false;
    let mut run = ClickerRun::new(&c);
    assert_eq!(run.settings().cursor, CursorMode::Current);
    assert_eq!(drive(&mut run, &calm).0, vec![(0, -1, -1), (10, -1, -1)]);
}

#[test]
fn no_targets_are_an_error() {
    let mut c = config(RepeatMode::Count(2), CursorMode::MultiTarget, ClickMode::Foreground);
    c.sequence_targets.clear();
    let mut run = ClickerRun::new(&c);
    let (_, _, completed, error) = drive(&mut run, &calm);
    assert!(!completed);
    assert_eq!(error.unwrap().text(), "Add at least 1 target first");
}

#[test]
fn intervals_deviate_as_drawn() {
    let mut c = config(RepeatMode::Count(2), CursorMode::Current, ClickMode::Foreground);
    c.interval_jitter_ms = 5;
    let mut run = ClickerRun::new(&c);
    let mut now = 0;
    let mut clicks = Vec::new();
    loop {
        match run.step_with(calm(now), -4).action {
            ClickAction::Sleep => now += MS,
            ClickAction::Click => clicks.push(now / MS),
            ClickAction::Finished { .. } => break,
            _ => {}
        }
    }
    assert_eq!(clicks, vec![0, 6]);
    let mut run = ClickerRun::new(&c);
    assert!(run.can_go_on());
    assert_eq!(run.step(calm(0)).action, ClickAction::Click);
}

#[test]
fn clicks_restore_mouse_and_window() {
    let s = Surroundings {
        saved_pos: Some((1, 1)),
        foreground: Some(SafeHwnd(7)),
        target_root: Some(SafeHwnd(8)),
        over_app: false,
    };
    assert_eq!(
        foreground_click(MouseButton::Left, ClickType::Double, true, 3, 4, s),
        vec![
            TickAction::Focus { window: SafeHwnd(8) },
            TickAction::Sleep { ms: 15 },
            TickAction::InjectionBegins,
            TickAction::Click { button: MouseButton::Left, double: true, x: 3, y: 4 },
            TickAction::MoveTo { x: 1, y: 1 },
            TickAction::Sleep { ms: 2 },
            TickAction::InjectionEnds,
            TickAction::Focus { window: SafeHwnd(7) },
        ]
    );
    let plain = vec![
        TickAction::InjectionBegins,
        TickAction::Click { button: MouseButton::Left, double: false, x: 1, y: 1 },
        TickAction::InjectionEnds,
    ];
    for (focus, t) in [
        (false, s),
        (true, Surroundings { over_app: true, ..s }),
        (true, Surroundings { foreground: Some(SafeHwnd(8)), ..s }),
        (true, Surroundings { target_root: None, ..s }),
        (true, Surroundings { foreground: None, saved_pos: None, ..s }),
    ] {
        assert_eq!(foreground_click(MouseButton::Left, ClickType::Single, focus, 1, 1, t), plain);
    }
}

#[test]
fn clicks_know_where_to_go() {
    assert_eq!(tick_target(CursorMode::Fixed { x: 1, y: 2 }, None), Ok((1, 2)));
    assert_eq!(tick_target(CursorMode::Current, Some((3, 4))), Ok((3, 4)));
    assert_eq!(tick_target(CursorMode::MultiTarget, None), Err(TickError::NoCursor));
    assert!(wants_focus(CursorMode::Fixed { x: 0, y: 0 }, false));
    assert!(wants_focus(CursorMode::MultiTarget, true));
    assert!(!wants_focus(CursorMode::Current, false));
    assert_eq!(background_point(true, Some((1, 2))), Ok((1, 2)));
    assert_eq!(background_point(false, Some((1, 2))), Err(TickError::WindowGone));
    assert_eq!(background_point(true, None), Err(TickError::NoClientPoint));
    assert_eq!(TickError::WindowGone.text(), "Target window is no longer valid");
    assert_eq!(
        TickError::NoClientPoint.text(),
        "ScreenToClient failed — window may be minimized"
    );
}

#[test]
fn windows_are_told_of_clicks() {
    let w = SafeHwnd(1);
    let child = SafeHwnd(2);
    let posted = |window, x, ms| {
        vec![
            TickAction::Post { window, x, y: 0, down: true },
            TickAction::Sleep { ms },
            TickAction::Post { window, x, y: 0, down: false },
        ]
    };
    assert_eq!(background_first(w, (5, 0)), posted(w, 5, 5));
    assert!(background_fallback(w, (5, 0), true, true).is_empty());
    assert_eq!(
        background_fallback(w, (5, 0), true, false),
        vec![
            TickAction::Send { window: w, x: 5, y: 0, down: true },
            TickAction::Sleep { ms: 5 },
            TickAction::Send { window: w, x: 5, y: 0, down: false },
        ]
    );
    assert_eq!(background_inner(w, Some(child), true, Some((6, 0))), posted(child, 6, 5));
    assert!(background_inner(w, Some(w), true, Some((6, 0))).is_empty());
    assert!(background_inner(w, Some(child), false, Some((6, 0))).is_empty());
    assert!(background_inner(w, Some(child), true, None).is_empty());
    assert!(background_inner(w, None, true, Some((6, 0))).is_empty());
    assert!(background_second(w, ClickType::Single, (5, 0)).is_empty());
    assert_eq!(background_second(w, ClickType::Double, (5, 0))[0], TickAction::Sleep { ms: 50 });
    assert_eq!(background_second(w, ClickType::Double, (5, 0))[1..], posted(w, 5, 10)[..]);
    assert!(background_second_inner(w, ClickType::Single, Some(child), Some((6, 0))).is_empty());
    let second = background_second_inner(w, ClickType::Double, Some(child), Some((6, 0)));
    assert_eq!(second[0], TickAction::Sleep { ms: 5 });
    assert_eq!(second[1..], posted(child, 6, 10)[..]);
}

#[test]
fn counters_have_room_to_the_end() {
    for repeat in [RepeatMode::Infinite, RepeatMode::Count(u32::MAX), RepeatMode::Count(1)] {
        for cursor in [CursorMode::Current, CursorMode::MultiTarget] {
            let mut run = ClickerRun::new(&config(repeat, cursor, ClickMode::Foreground));
            let mut now = 0;
            for _ in 0..100 {
                assert!(run.can_go_on());
                run.step(calm(now));
                now += MS;
            }
        }
    }
}
