use std::collections::HashSet;

use clickei::config::HotkeyCombo;
use clickei::hooks::{
    absolute_coords, check_panic_triple_tap, click_inputs, click_message, find_window_by_title,
    hook_error, hook_outcome, is_hotkey_pressed, is_point_in_app_window,
    is_point_in_sequence_window, is_point_in_tinytask, is_real_button_down, keyboard_event,
    may_install_hooks, mouse_event, mouse_move_input, note_own_injection, panic_hook_error,
    panic_key_message, panic_test_clear, panic_test_push_and_check, real_input_recently,
    take_panic_triggered, trigger_panic, CapturedEvent, HookOutcome, InjectionWindow, MouseInput,
    PanicState, SafeHwnd, ScreenRect, VirtualScreen,
};
use clickei::model::MouseButton;

const SCREEN: VirtualScreen = VirtualScreen { left: 0, top: 0, width: 1920, height: 1080 };

#[test]
fn triple_tap_within_window_triggers() {
    let mut s = PanicState::new();
    panic_test_clear(&mut s);
    assert!(!panic_test_push_and_check(&mut s, 1000));
    assert!(!panic_test_push_and_check(&mut s, 1200));
    assert!(panic_test_push_and_check(&mut s, 1300));
    assert!(!panic_test_push_and_check(&mut s, 1350));
    panic_test_clear(&mut s);
}

#[test]
fn slow_taps_do_not_trigger() {
    let mut s = PanicState::new();
    panic_test_clear(&mut s);
    assert!(!panic_test_push_and_check(&mut s, 0));
    assert!(!panic_test_push_and_check(&mut s, 700));
    assert!(!panic_test_push_and_check(&mut s, 1400));
    assert!(!panic_test_push_and_check(&mut s, 2000));
    panic_test_clear(&mut s);
}

#[test]
fn wrapping_tick_count() {
    let mut s = PanicState::new();
    panic_test_clear(&mut s);
    let near_max = u32::MAX - 200;
    assert!(!panic_test_push_and_check(&mut s, near_max));
    assert!(!panic_test_push_and_check(&mut s, near_max.wrapping_add(200)));
    assert!(panic_test_push_and_check(&mut s, near_max.wrapping_add(400)));
    panic_test_clear(&mut s);
}

#[test]
fn take_panic_triggered_drains() {
    let mut s = PanicState::new();
    trigger_panic(&mut s);
    assert!(take_panic_triggered(&mut s));
    assert!(!take_panic_triggered(&mut s));
    panic_test_clear(&mut s);
}

#[test]
fn taps_at_the_edge_of_the_window_count() {
    let mut s = PanicState::new();
    assert!(!check_panic_triple_tap(&mut s, 0));
    assert!(!check_panic_triple_tap(&mut s, 300));
    assert!(check_panic_triple_tap(&mut s, 600));
    assert!(s.press_times.is_empty());
    assert!(!check_panic_triple_tap(&mut s, 1000));
    assert!(!check_panic_triple_tap(&mut s, 1300));
    assert!(!check_panic_triple_tap(&mut s, 1601));
    assert_eq!(s.press_times, vec![1300, 1601]);
}

#[test]
fn only_escape_presses_count() {
    let mut s = PanicState::new();
    for now in [10, 20, 30, 40] {
        panic_key_message(&mut s, 0, 0x0101, 0x1B, now);
        panic_key_message(&mut s, 0, 0x0100, 0x41, now);
        panic_key_message(&mut s, -1, 0x0100, 0x1B, now);
    }
    assert!(s.press_times.is_empty());
    panic_key_message(&mut s, 0, 0x0100, 0x1B, 50);
    panic_key_message(&mut s, 0, 0x0104, 0x1B, 60);
    assert!(!s.triggered);
    panic_key_message(&mut s, 0, 0x0100, 0x1B, 70);
    assert!(take_panic_triggered(&mut s));
}

#[test]
fn keyboard_messages_are_decoded() {
    assert_eq!(
        keyboard_event(0, 0x0100, 0x41, 30),
        Some(CapturedEvent::KeyDown { vk: 0x41, scan_code: 30 })
    );
    assert_eq!(
        keyboard_event(0, 0x0105, 0x12, 56),
        Some(CapturedEvent::KeyUp { vk: 0x12, scan_code: 56 })
    );
    assert_eq!(keyboard_event(0, 0x0102, 0x41, 30), None);
    assert_eq!(keyboard_event(1, 0x0100, 0x41, 30), None);
    assert_eq!(
        keyboard_event(0, 0x0100, u32::MAX, 0),
        Some(CapturedEvent::KeyDown { vk: -1, scan_code: 0 })
    );
}

#[test]
fn mouse_messages_are_decoded() {
    assert_eq!(mouse_event(0, 0x0200, 3, 4, 0), Some(CapturedEvent::MouseMove { x: 3, y: 4 }));
    assert_eq!(
        mouse_event(0, 0x0201, 3, 4, 0),
        Some(CapturedEvent::MouseDown { button: MouseButton::Left, x: 3, y: 4 })
    );
    assert_eq!(
        mouse_event(0, 0x0208, 3, 4, 0),
        Some(CapturedEvent::MouseUp { button: MouseButton::Middle, x: 3, y: 4 })
    );
    assert_eq!(
        mouse_event(0, 0x020B, 3, 4, 0x0002_0000),
        Some(CapturedEvent::MouseDown { button: MouseButton::X2, x: 3, y: 4 })
    );
    assert_eq!(
        mouse_event(0, 0x020C, 3, 4, 0x0001_0007),
        Some(CapturedEvent::MouseUp { button: MouseButton::X1, x: 3, y: 4 })
    );
    assert_eq!(mouse_event(0, 0x020B, 3, 4, 0x0003_0000), None);
    assert_eq!(
        mouse_event(0, 0x020A, 3, 4, 0x0078_0000),
        Some(CapturedEvent::MouseWheel { delta: 120 })
    );
    assert_eq!(
        mouse_event(0, 0x020A, 3, 4, 0xFF88_0000),
        Some(CapturedEvent::MouseWheel { delta: -120 })
    );
    assert_eq!(mouse_event(0, 0x0203, 3, 4, 0), None);
    assert_eq!(mouse_event(3, 0x0200, 3, 4, 0), None);
}

#[test]
fn absolute_coordinates_span_the_screen() {
    assert_eq!(absolute_coords(0, 0, SCREEN), (0, 0));
    assert_eq!(absolute_coords(1919, 1079, SCREEN), (65535, 65535));
    assert_eq!(absolute_coords(960, 540, SCREEN), (32784, 32797));
    assert_eq!(absolute_coords(-50, 5000, SCREEN), (0, 65535));
    let left = VirtualScreen { left: -1920, top: 0, width: 3840, height: 1080 };
    assert_eq!(absolute_coords(-1920, 0, left), (0, 0));
    assert_eq!(absolute_coords(1919, 0, left), (65535, 0));
    let dot = VirtualScreen { left: 5, top: 5, width: 1, height: 0 };
    assert_eq!(absolute_coords(100, 100, dot), (0, 0));
}

#[test]
fn far_points_do_not_fit() {
    let far = VirtualScreen { left: -10, top: 0, width: 10, height: 10 };
    assert!(far.fits(i32::MAX - 10, 0));
    assert!(!far.fits(i32::MAX, 0));
    assert!(!VirtualScreen { left: 0, top: 1, width: 1, height: 1 }.fits(0, i32::MIN));
}

#[test]
fn clicks_are_sent_as_one_list() {
    let at = |mouse_data, flags| MouseInput { dx: 0, dy: 0, mouse_data, flags };
    assert_eq!(
        click_inputs(MouseButton::Left, false, 0, 0, SCREEN),
        vec![at(0, 0xC001), at(0, 0xC002), at(0, 0xC004)]
    );
    assert_eq!(
        click_inputs(MouseButton::X2, true, 0, 0, SCREEN),
        vec![at(0, 0xC001), at(2, 0xC080), at(2, 0xC100), at(2, 0xC080), at(2, 0xC100)]
    );
    assert_eq!(
        click_inputs(MouseButton::Right, false, 0, 0, SCREEN)[1..],
        [at(0, 0xC008), at(0, 0xC010)]
    );
    assert_eq!(
        click_inputs(MouseButton::Middle, false, 0, 0, SCREEN)[1..],
        [at(0, 0xC020), at(0, 0xC040)]
    );
    assert!(click_inputs(MouseButton::NoButton, true, 0, 0, SCREEN).is_empty());
    assert_eq!(mouse_move_input(0, 0, SCREEN), at(0, 0xC001));
}

#[test]
fn click_messages_pack_the_point() {
    let m = click_message(MouseButton::Left, 3, 2, true).unwrap();
    assert_eq!((m.msg, m.wparam, m.lparam), (0x0201, 1, 0x0002_0003));
    let m = click_message(MouseButton::Middle, -1, -2, true).unwrap();
    assert_eq!((m.msg, m.wparam, m.lparam), (0x0207, 0x10, 0xFFFE_FFFF));
    let m = click_message(MouseButton::Right, 0, 0, false).unwrap();
    assert_eq!((m.msg, m.wparam, m.lparam), (0x0205, 0, 0));
    assert_eq!(click_message(MouseButton::X1, 0, 0, true), None);
    assert_eq!(click_message(MouseButton::NoButton, 0, 0, false), None);
}

#[test]
fn hotkeys_need_just_their_modifiers() {
    let combo = HotkeyCombo::new(2, 0x52);
    let down: HashSet<i32> = [0xA2, 0x52].into_iter().collect();
    assert!(is_hotkey_pressed(&combo, &down));
    let more: HashSet<i32> = [0xA2, 0x52, 0xA0].into_iter().collect();
    assert!(!is_hotkey_pressed(&combo, &more));
    let less: HashSet<i32> = [0x52].into_iter().collect();
    assert!(!is_hotkey_pressed(&combo, &less));
    let none: HashSet<i32> = [0].into_iter().collect();
    assert!(!is_hotkey_pressed(&HotkeyCombo::none(), &none));
}

#[test]
fn buttons_have_their_keys() {
    let down: HashSet<i32> = [2, 6].into_iter().collect();
    assert!(!is_real_button_down(MouseButton::Left, &down));
    assert!(is_real_button_down(MouseButton::Right, &down));
    assert!(is_real_button_down(MouseButton::X2, &down));
    assert!(!is_real_button_down(MouseButton::NoButton, &down));
}

#[test]
fn windows_are_named_by_title_or_handle() {
    assert_eq!(SafeHwnd(0xABC).title(""), "HWND 0xABC");
    assert_eq!(SafeHwnd(0xABC).title("Notes"), "Notes");
    assert_eq!(find_window_by_title("", 7), None);
    assert_eq!(find_window_by_title("Notes", 0), None);
    assert_eq!(find_window_by_title("Notes", 7), Some(SafeHwnd(7)));
    assert_eq!(SafeHwnd::from_handle(0), None);
}

#[test]
fn points_lie_in_windows_with_their_edges() {
    let r = ScreenRect { left: 10, top: 20, right: 30, bottom: 40 };
    assert!(is_point_in_tinytask(10, 40, Some(r)));
    assert!(!is_point_in_tinytask(31, 40, Some(r)));
    assert!(!is_point_in_tinytask(10, 40, None));
    assert!(is_point_in_sequence_window(30, 20, Some(r)));
    assert!(!is_point_in_sequence_window(30, 19, Some(r)));
    assert!(is_point_in_app_window(15, 25, None, Some(r)));
    assert!(!is_point_in_app_window(0, 0, Some(r), Some(r)));
}

#[test]
fn own_input_is_not_the_users() {
    let mut own = InjectionWindow::new();
    assert!(real_input_recently(50, Some(990), 1000, &own));
    assert!(!real_input_recently(50, Some(950), 1000, &own));
    assert!(!real_input_recently(50, None, 1000, &own));
    note_own_injection(&mut own, 980, 990);
    assert!(!real_input_recently(50, Some(985), 1000, &own));
    assert!(!real_input_recently(50, Some(995), 1000, &own));
    assert!(real_input_recently(50, Some(996), 1000, &own));
    assert!(real_input_recently(50, Some(979), 1000, &own));
}

#[test]
fn ticks_wrap_around() {
    let own = InjectionWindow::new();
    assert!(real_input_recently(50, Some(u32::MAX - 10), 20, &own));
    assert!(!real_input_recently(50, Some(u32::MAX - 40), 20, &own));
}

#[test]
fn hooks_are_installed_once_and_together() {
    assert_eq!(may_install_hooks(false), Ok(()));
    assert_eq!(
        may_install_hooks(true),
        Err("hooks already installed — drop previous HookHandles first".to_string())
    );
    assert_eq!(hook_outcome(true, true), HookOutcome::Installed);
    assert_eq!(
        hook_outcome(true, false),
        HookOutcome::Failed { unhook_mouse: true, unhook_keyboard: false }
    );
    assert_eq!(hook_error("x"), "SetWindowsHookEx failed: x");
    assert_eq!(panic_hook_error("x"), "panic hook SetWindowsHookEx failed: x");
}
