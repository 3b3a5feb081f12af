use clickei::double::Double;
use clickei::hooks::{MouseInput, VirtualScreen};
use clickei::model::{MacroData, MacroEvent, MacroEventType, MouseButton};
use clickei::player::{
    is_on_screen, system_input, MacroPlayer, PlayInput, PlaybackOptions, PlayerAction, PlayerRun,
    SystemInput, Wait,
};

const MS: u64 = 1_000_000;

fn event(event_type: MacroEventType, key_code: i32, button: MouseButton) -> MacroEvent {
    MacroEvent {
        event_type,
        x: 1,
        y: 2,
        button,
        key_code,
        scan_code: 0,
        wheel_delta: 120,
        delay_ms: 0,
    }
}

fn key_down(vk: i32) -> MacroEvent {
    event(MacroEventType::KeyDown, vk, MouseButton::NoButton)
}

fn key_up(vk: i32) -> MacroEvent {
    event(MacroEventType::KeyUp, vk, MouseButton::NoButton)
}

fn options(loop_count: i32, infinite: bool, interval_ms: i32) -> PlaybackOptions {
    PlaybackOptions { speed: Double::one(), loop_count, infinite, interval_ms }
}

/// Runs a playback to its end, a millisecond at a time, and collects what it sends.
fn play(run: &mut PlayerRun, stop_at: u64) -> (Vec<PlayInput>, Vec<usize>, bool, u64) {
    let mut sent = Vec::new();
    let mut loops = Vec::new();
    let mut now = 0;
    loop {
        let s = run.step(now >= stop_at, false, now);
        match s.action {
            PlayerAction::Continue => {}
            PlayerAction::Sleep => now += MS,
            PlayerAction::LoopStarted { number, .. } => loops.push(number),
            PlayerAction::Send { input } => sent.push(input),
            PlayerAction::Finished { completed } => return (sent, loops, completed, now / MS),
        }
    }
}

#[test]
fn options_come_from_the_macro() {
    let d = MacroData { loop_count: 7, infinite_loop: true, interval_ms: 9, ..MacroData::default() };
    let o = PlaybackOptions::from(&d);
    assert_eq!(o, options(7, true, 9));
    assert_eq!(o.effective_iterations(), usize::MAX);
    assert_eq!(options(7, false, 0).effective_iterations(), 7);
    assert_eq!(options(0, false, 0).effective_iterations(), 1);
    assert_eq!(options(-3, false, 0).effective_iterations(), 1);
}

#[test]
fn switches_of_the_player() {
    let mut p = MacroPlayer::new();
    p.pause();
    assert!(!p.is_paused());
    assert!(p.start());
    assert!(!p.start());
    p.toggle_pause();
    assert!(p.is_paused());
    p.toggle_pause();
    assert!(!p.is_paused());
    p.pause();
    p.stop();
    assert!(p.stop_flag && !p.is_paused() && p.is_running());
    p.finished();
    assert!(!p.is_running());
    p.resume();
    assert_eq!(MacroPlayer::default(), MacroPlayer::new());
}

#[test]
fn every_event_of_every_loop_is_played() {
    let events = vec![key_down(1), key_up(1)];
    let mut run = PlayerRun::new(events, vec![3, 0], options(3, false, 5));
    let (sent, loops, completed, ms) = play(&mut run, u64::MAX);
    let one = [PlayInput::Key { vk: 1, down: true }, PlayInput::Key { vk: 1, down: false }];
    let all: Vec<PlayInput> = one.iter().chain(one.iter()).chain(one.iter()).copied().collect();
    assert_eq!(sent, all);
    assert_eq!(loops, vec![1, 2, 3]);
    assert!(completed);
    assert_eq!(ms, 3 * 3 + 2 * 5);
}

#[test]
fn nothing_to_play_is_completed() {
    let mut run = PlayerRun::new(Vec::new(), Vec::new(), options(1, true, 0));
    assert_eq!(play(&mut run, 0), (vec![], vec![], true, 0));
}

#[test]
fn a_stop_lets_everything_go() {
    let events = vec![
        key_down(1),
        key_down(2),
        event(MacroEventType::MouseDown, 0, MouseButton::Left),
        key_up(1),
    ];
    let mut run = PlayerRun::new(events, vec![0, 0, 0, 50], options(1, true, 0));
    let (sent, loops, completed, ms) = play(&mut run, 10 * MS);
    assert_eq!(
        sent[3..],
        [
            PlayInput::Key { vk: 1, down: false },
            PlayInput::Key { vk: 2, down: false },
            PlayInput::ReleaseButton { button: MouseButton::Left },
        ]
    );
    assert_eq!(loops, vec![1]);
    assert!(!completed);
    assert_eq!(ms, 10);
}

#[test]
fn held_keys_are_not_pressed_again() {
    let events = vec![key_down(1), key_down(1), key_up(2)];
    let mut run = PlayerRun::new(events, vec![0, 0, -5], options(1, false, 0));
    let (sent, _, completed, _) = play(&mut run, u64::MAX);
    assert_eq!(
        sent,
        vec![
            PlayInput::Key { vk: 1, down: true },
            PlayInput::Key { vk: 2, down: false },
            PlayInput::Key { vk: 1, down: false },
        ]
    );
    assert!(completed);
}

#[test]
fn every_kind_of_event_is_played() {
    let events = vec![
        event(MacroEventType::MouseMove, 0, MouseButton::NoButton),
        event(MacroEventType::MouseDown, 0, MouseButton::X1),
        event(MacroEventType::MouseUp, 0, MouseButton::X1),
        event(MacroEventType::MouseWheel, 0, MouseButton::NoButton),
    ];
    let mut run = PlayerRun::new(events, vec![0; 4], options(1, false, 0));
    assert_eq!(
        play(&mut run, u64::MAX).0,
        vec![
            PlayInput::Move { x: 1, y: 2 },
            PlayInput::Button { button: MouseButton::X1, down: true, x: 1, y: 2 },
            PlayInput::Button { button: MouseButton::X1, down: false, x: 1, y: 2 },
            PlayInput::Wheel { delta: 120 },
        ]
    );
}

#[test]
fn a_pause_is_reported_and_freezes_the_wait() {
    let mut run = PlayerRun::new(vec![key_down(1)], vec![10], options(1, false, 0));
    let mut reports = Vec::new();
    let mut now = 0;
    let mut sent_at = None;
    loop {
        let pause = (5 * MS..500 * MS).contains(&now);
        let s = run.step(false, pause, now);
        if let Some(p) = s.pause_changed {
            reports.push((p, now / MS));
        }
        match s.action {
            PlayerAction::Sleep => now += MS,
            PlayerAction::Send { .. } => {
                sent_at.get_or_insert(now / MS);
            }
            PlayerAction::Finished { .. } => break,
            _ => {}
        }
    }
    assert_eq!(reports, vec![(true, 5), (false, 500)]);
    assert_eq!(sent_at, Some(505));
}

#[test]
fn a_loop_does_not_begin_while_paused() {
    let mut run = PlayerRun::new(vec![key_down(1)], vec![0], options(1, false, 0));
    assert_eq!(run.step(false, true, 0).action, PlayerAction::Continue);
    let s = run.step(false, true, 0);
    assert_eq!((s.pause_changed, s.action), (Some(true), PlayerAction::Sleep));
    let s = run.step(false, true, 0);
    assert_eq!((s.pause_changed, s.action), (None, PlayerAction::Sleep));
    let s = run.step(false, false, 0);
    assert_eq!(s.pause_changed, Some(false));
    assert_eq!(s.action, PlayerAction::LoopStarted { number: 1, total: Some(1) });
}

#[test]
fn waits_take_their_time() {
    let mut w = Wait::begin(2, false, 100);
    assert!(!w.poll(false, 100 + 2 * MS - 1));
    assert!(w.poll(false, 100 + 2 * MS));
}

#[test]
fn inputs_as_the_system_takes_them() {
    let screen = VirtualScreen { left: 0, top: 0, width: 11, height: 11 };
    let mouse = |dx, dy, mouse_data, flags| {
        Some(SystemInput::Mouse { input: MouseInput { dx, dy, mouse_data, flags } })
    };
    assert_eq!(
        system_input(PlayInput::Move { x: 10, y: 0 }, screen),
        mouse(65535, 0, 0, 0xC001)
    );
    assert_eq!(
        system_input(
            PlayInput::Button { button: MouseButton::X2, down: false, x: 0, y: 10 },
            screen
        ),
        mouse(0, 65535, 2, 0xC100)
    );
    assert_eq!(
        system_input(
            PlayInput::Button { button: MouseButton::NoButton, down: true, x: 0, y: 0 },
            screen
        ),
        mouse(0, 0, 0, 0xC001)
    );
    assert_eq!(system_input(PlayInput::Wheel { delta: -120 }, screen), mouse(0, 0, 0xFFFF_FF88, 0x0800));
    assert_eq!(
        system_input(PlayInput::ReleaseButton { button: MouseButton::Middle }, screen),
        mouse(0, 0, 0, 0x0040)
    );
    assert_eq!(system_input(PlayInput::ReleaseButton { button: MouseButton::NoButton }, screen), None);
    assert_eq!(
        system_input(PlayInput::Key { vk: 0x1_0041, down: true }, screen),
        Some(SystemInput::Key { vk: 0x41, up: false })
    );
    assert_eq!(
        system_input(PlayInput::Key { vk: -1, down: false }, screen),
        Some(SystemInput::Key { vk: 0xFFFF, up: true })
    );
    let far = VirtualScreen { left: -1, ..screen };
    assert!(!is_on_screen(PlayInput::Move { x: i32::MAX, y: 0 }, far));
    assert!(is_on_screen(PlayInput::Key { vk: 1, down: true }, far));
}
