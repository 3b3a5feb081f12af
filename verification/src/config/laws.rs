//! What is stored and shown of the hotkeys and settings.

use vstd::prelude::*;

use crate::config;
use crate::config::{
    AppConfig, ConfigFile, ConfigPath, ConfigService, HotkeyCombo, SettingsBindings, StaticState,
};
use crate::double::Double;
use crate::keys;
use crate::model::{ClickType, CursorMode, MouseButton};
use crate::text;

verus! {

/// The flags of a combination are its modifiers and the bit that keeps a held hotkey from firing
/// again.
pub proof fn lemma_modifier_flags(c: HotkeyCombo)
    requires
        0 <= c.modifiers < 16,
    ensures
        c.spec_modifier_flags(0x4000) == 0x4000 + c.modifiers,
{
    let m = c.modifiers;
    assert(0 <= m < 16 ==> (0x4000u32 | (if m & 2 != 0 {
        2u32
    } else {
        0u32
    }) | (if m & 4 != 0 {
        4u32
    } else {
        0u32
    }) | (if m & 1 != 0 {
        1u32
    } else {
        0u32
    }) | (if m & 8 != 0 {
        8u32
    } else {
        0u32
    })) == 0x4000 + m) by (bit_vector);
}

/// The modifiers are handed to the system with the bit that keeps a held hotkey from firing
/// again and again, and nothing else.
pub proof fn law_modifiers_are_handed_over(c: &HotkeyCombo, r: u32)
    requires
        0 <= c.modifiers < 16,
        call_ensures(HotkeyCombo::to_modifier_flags, (c, 0x4000u32), r),
    ensures
        r == 0x4000 + c.modifiers,
{
    lemma_modifier_flags(*c);
}

/// Whether a key goes by the same name in the user interface and where hotkeys are shown.
pub open spec fn has_common_name(k: i32) -> bool {
    ||| 65 <= k <= 90
    ||| 48 <= k <= 57
    ||| k == 0x20
    ||| k == 0x0D
    ||| k == 0x09
    ||| k == 0x08
    ||| k == 0x24
    ||| k == 0x23
    ||| 0x25 <= k <= 0x28
}

/// A letter, a digit and the keys that go by one name are shown under the name by which the
/// user interface knows them.
pub proof fn law_shown_name_is_the_keys(c: HotkeyCombo)
    requires
        has_common_name(c.key),
    ensures
        keys::spec_vk_of_name(c.spec_key_name()) == Some(c.key),
{
    lemma_names();
}

/// A function key is shown with its number.
pub proof fn law_function_keys_are_numbered(c: HotkeyCombo)
    requires
        0x70 <= c.key <= 0x87,
    ensures
        c.spec_key_name().len() >= 2,
        c.spec_key_name()[0] == 'F',
        text::dec_value(c.spec_key_name().skip(1)) == c.key - 0x6F,
{
    reveal_strlit("F");
    let n = (c.key - 0x6F) as nat;
    text::law_dec_reads_back(n);
    assert(c.spec_key_name().skip(1) =~= text::dec_nat(n));
    text::lemma_dec_nat_nonempty(n);
}

proof fn lemma_names()
    ensures
        "F1"@.len() == 2 && "F2"@.len() == 2 && "F3"@.len() == 2 && "F4"@.len() == 2 && "F5"@.len()
            == 2 && "F6"@.len() == 2 && "F7"@.len() == 2 && "F8"@.len() == 2 && "F9"@.len() == 2,
        "F10"@.len() == 3 && "F11"@.len() == 3 && "F12"@.len() == 3,
        "F1"@[0] == 'F' && "F2"@[0] == 'F' && "F3"@[0] == 'F' && "F4"@[0] == 'F' && "F5"@[0] == 'F'
            && "F6"@[0] == 'F' && "F7"@[0] == 'F' && "F8"@[0] == 'F' && "F9"@[0] == 'F',
        "F10"@[0] == 'F' && "F11"@[0] == 'F' && "F12"@[0] == 'F',
        "Escape"@.len() == 6 && "Escape"@[1] == 's',
        "Space"@.len() == 5 && "Space"@[0] == 'S',
        "Enter"@.len() == 5 && "Enter"@[0] == 'E',
        "Tab"@.len() == 3 && "Tab"@[0] == 'T',
        "Backspace"@.len() == 9,
        "Delete"@.len() == 6 && "Delete"@[0] == 'D',
        "Insert"@.len() == 6 && "Insert"@[0] == 'I',
        "Home"@.len() == 4 && "Home"@[0] == 'H',
        "End"@.len() == 3 && "End"@[0] == 'E',
        "PageUp"@.len() == 6 && "PageUp"@[0] == 'P',
        "PageDown"@.len() == 8,
        "Left"@.len() == 4 && "Left"@[0] == 'L',
        "Right"@.len() == 5 && "Right"@[0] == 'R',
        "Up"@.len() == 2 && "Up"@[0] == 'U',
        "Down"@.len() == 4 && "Down"@[0] == 'D',
{
    reveal_strlit("F1");
    reveal_strlit("F2");
    reveal_strlit("F3");
    reveal_strlit("F4");
    reveal_strlit("F5");
    reveal_strlit("F6");
    reveal_strlit("F7");
    reveal_strlit("F8");
    reveal_strlit("F9");
    reveal_strlit("F10");
    reveal_strlit("F11");
    reveal_strlit("F12");
    reveal_strlit("Escape");
    reveal_strlit("Space");
    reveal_strlit("Enter");
    reveal_strlit("Tab");
    reveal_strlit("Backspace");
    reveal_strlit("Delete");
    reveal_strlit("Insert");
    reveal_strlit("Home");
    reveal_strlit("End");
    reveal_strlit("PageUp");
    reveal_strlit("PageDown");
    reveal_strlit("Left");
    reveal_strlit("Right");
    reveal_strlit("Up");
    reveal_strlit("Down");
}

/// A number for each flag that is set.
pub open spec fn one_if(set: bool) -> int {
    if set {
        1
    } else {
        0
    }
}

/// A hotkey is shown whole: a word for each of its modifiers, in the order Ctrl, Alt, Shift,
/// Win, and then its key. One without both is shown as none.
pub proof fn law_hotkey_is_shown_whole(c: HotkeyCombo)
    ensures
        ({
            let parts = c.spec_parts();
            let ctrl = one_if(c.modifiers & 2 != 0);
            let alt = one_if(c.modifiers & 1 != 0);
            let shift = one_if(c.modifiers & 4 != 0);
            let win = one_if(c.modifiers & 8 != 0);
            &&& parts.len() == ctrl + alt + shift + win + one_if(c.key != 0)
            &&& ctrl == 1 ==> parts[0] == "Ctrl"@
            &&& alt == 1 ==> parts[ctrl] == "Alt"@
            &&& shift == 1 ==> parts[ctrl + alt] == "Shift"@
            &&& win == 1 ==> parts[ctrl + alt + shift] == "Win"@
            &&& c.key != 0 ==> parts.last() == c.spec_key_name()
            &&& parts.len() == 0 ==> c.spec_display() == "(none)"@
            &&& parts.len() == 1 ==> c.spec_display() == parts[0]
            &&& parts.len() == 2 ==> c.spec_display() == parts[0] + "+"@ + parts[1]
            &&& parts.len() > 1 ==> exists|front: Seq<char>|
                c.spec_display() == #[trigger] (front + "+"@) + parts.last()
        }),
{
    let parts = c.spec_parts();
    if parts.len() == 2 {
        assert(parts.drop_last()[0] == parts[0]);
        assert(parts.last() == parts[1]);
    }
    if parts.len() > 1 {
        let front = text::join(parts.drop_last(), "+"@);
        assert(c.spec_display() == (front + "+"@) + parts.last());
    }
}

/// No two default hotkeys are the same, and each has a key. Where nothing is stored the
/// defaults hold.
pub proof fn law_defaults_hold_and_differ(b: SettingsBindings)
    requires
        b == config::bindings_of(Map::<Seq<char>, HotkeyCombo>::empty()),
    ensures
        b == config::default_bindings(),
        b.record.key == 'R' && b.play.key == 'P' && b.stop.key == 'S',
        b.record.modifiers == 7 && b.play.modifiers == 7 && b.stop.modifiers == 7,
        b.static_clicker == (HotkeyCombo { modifiers: 0, key: 0x75 }),
{
}

/// Storing one binding changes that one and no other.
pub proof fn law_bindings_are_stored_apart(
    stored: Map<Seq<char>, HotkeyCombo>,
    combo: HotkeyCombo,
)
    ensures
        ({
            let b = config::bindings_of(stored);
            &&& config::bindings_of(stored.insert("Record"@, combo)) == (SettingsBindings {
                record: combo,
                ..b
            })
            &&& config::bindings_of(stored.insert("Play"@, combo)) == (SettingsBindings {
                play: combo,
                ..b
            })
            &&& config::bindings_of(stored.insert("Stop"@, combo)) == (SettingsBindings {
                stop: combo,
                ..b
            })
            &&& config::bindings_of(stored.insert("StaticClicker"@, combo)) == (SettingsBindings {
                static_clicker: combo,
                ..b
            })
        }),
{
    reveal_strlit("Record");
    reveal_strlit("Play");
    reveal_strlit("Stop");
    reveal_strlit("StaticClicker");
    assert("Play"@[0] != "Stop"@[0]);
    assert("Record"@.len() == 6);
    assert("Play"@.len() == 4);
    assert("Stop"@.len() == 4);
    assert("StaticClicker"@.len() == 13);
}

/// What is stored of one thing stays when others are stored after it: the settings of the
/// clicker when the panel, the last file, whether the window stays on top and the settings of
/// the recording window follow, and those when the settings of the clicker do.
pub proof fn law_settings_are_stored_apart(
    a: &mut AppConfig,
    s: StaticState,
    b: &mut AppConfig,
    collapsed: bool,
    width: Double,
    popped_out: bool,
    c: &mut AppConfig,
    path: String,
    d: &mut AppConfig,
    on: bool,
)
    requires
        call_ensures(AppConfig::store_static, (a, s), ()),
        *old(b) == *final(a),
        call_ensures(AppConfig::store_panel, (b, collapsed, width, popped_out), ()),
        *old(c) == *final(b),
        call_ensures(AppConfig::store_last_file, (c, path), ()),
        *old(d) == *final(c),
        call_ensures(AppConfig::store_always_on_top, (d, on), ()),
    ensures
        final(d).static_clicker_interval_ms == s.interval_ms,
        final(d).static_clicker_button == s.button,
        final(d).static_clicker_click_type == s.click_type,
        final(d).static_clicker_repeat_until_stopped == s.repeat_until_stopped,
        final(d).static_clicker_repeat_count == s.repeat_count,
        final(d).static_clicker_cursor_mode == s.cursor_mode,
        final(d).static_clicker_foreground == s.foreground,
        final(d).static_clicker_bg_title == s.bg_title,
        final(d).static_clicker_sequence_targets == s.sequence_targets,
        final(d).static_clicker_sequence_enabled == s.sequence_enabled,
        final(d).static_clicker_interval_jitter_ms == s.interval_jitter_ms,
        final(d).static_clicker_position_jitter_px == s.position_jitter_px,
        final(d).sequence_panel_collapsed == collapsed,
        final(d).sequence_panel_width == width,
        final(d).sequence_panel_popped_out == popped_out,
        final(d).last_file_path == Some(path),
        final(d).always_on_top == on,
        final(d).hotkeys == old(a).hotkeys,
        final(d).default_speed == old(a).default_speed,
        final(d).loop_count == old(a).loop_count,
        final(d).infinite_loop == old(a).infinite_loop,
        final(d).interval_ms == old(a).interval_ms,
        final(d).static_clicker_presets == old(a).static_clicker_presets,
{
}

/// The settings of the recording window are stored each in its place, and read back as they
/// were; the settings of the clicker stay.
pub proof fn law_playback_is_stored_in_its_place(
    a: &mut AppConfig,
    speed: Double,
    loop_count: i32,
    infinite: bool,
    interval_ms: i32,
    on: bool,
    bindings: &SettingsBindings,
)
    requires
        call_ensures(
            AppConfig::store_playback,
            (a, speed, loop_count, infinite, interval_ms, on, bindings),
            (),
        ),
    ensures
        final(a).default_speed == speed,
        final(a).loop_count == loop_count,
        final(a).infinite_loop == infinite,
        final(a).interval_ms == interval_ms,
        final(a).always_on_top == on,
        config::bindings_of(final(a).hotkeys@) == *bindings,
        final(a).last_file_path == old(a).last_file_path,
        final(a).static_clicker_presets == old(a).static_clicker_presets,
        final(a).static_clicker_interval_ms == old(a).static_clicker_interval_ms,
        final(a).static_clicker_sequence_targets == old(a).static_clicker_sequence_targets,
        final(a).static_clicker_bg_title == old(a).static_clicker_bg_title,
        final(a).sequence_panel_width == old(a).sequence_panel_width,
{
    config::law_bindings_survive_storing(*bindings);
}

/// A configuration that could be read is taken as it is. Else the program starts with its
/// defaults: it plays a macro once at its own speed, and clicks the left button where the mouse
/// is, every 100 milliseconds until stopped.
pub proof fn law_program_always_starts(file: ConfigFile, r: AppConfig)
    requires
        call_ensures(ConfigService::load_from, (file,), r),
    ensures
        file matches ConfigFile::Parsed(c) ==> r == c,
        !(file is Parsed) ==> {
            &&& r.default_speed.value() == vstd::arithmetic::power2::pow2(1074)
            &&& r.loop_count == 1 && !r.infinite_loop && r.interval_ms == 0
            &&& !r.always_on_top && r.last_file_path is None
            &&& r.static_clicker_interval_ms == 100
            &&& r.static_clicker_button == MouseButton::Left
            &&& r.static_clicker_click_type == ClickType::Single
            &&& r.static_clicker_repeat_until_stopped
            &&& r.static_clicker_cursor_mode == CursorMode::Current
            &&& r.static_clicker_foreground
            &&& r.static_clicker_interval_jitter_ms == 0 && r.static_clicker_position_jitter_px == 0
            &&& r.static_clicker_sequence_targets@.len() == 0 && r.static_clicker_presets@.len() == 0
            &&& config::bindings_of(r.hotkeys@) == config::default_bindings()
            &&& !r.sequence_panel_collapsed && !r.sequence_panel_popped_out
            &&& r.sequence_panel_width.value() == 380 * vstd::arithmetic::power2::pow2(1074)
        },
{
    crate::double::law_named_doubles();
}

/// The configuration file lies in the directory that is made for it, under the user's
/// configuration directory where there is one, else beside the program, else where it runs.
pub proof fn law_configuration_lies_in_its_directory(
    has_config_dir: bool,
    has_program_dir: bool,
    path: ConfigPath,
    dir: ConfigPath,
)
    requires
        call_ensures(ConfigService::config_path, (has_config_dir, has_program_dir), path),
        call_ensures(ConfigService::app_data_dir, (has_config_dir, has_program_dir), dir),
    ensures
        path.base == dir.base,
        path@.parts == dir@.parts.push("config.json"@),
        path.base is ConfigDir <==> has_config_dir,
        path.base is ProgramDir <==> !has_config_dir && has_program_dir,
        has_config_dir ==> dir@.parts == seq!["Clickei"@],
        !has_config_dir ==> dir@.parts.len() == 0,
{
    let p = config::config_path_in("Clickei"@, has_config_dir, has_program_dir);
    assert(p.parts.drop_last().push("config.json"@) =~= p.parts);
    if has_config_dir {
        assert(p.parts.drop_last() =~= seq!["Clickei"@]);
    }
}

/// An old configuration is taken over once: where it exists and no new one does.
pub proof fn law_old_configuration_is_taken_over_once(
    has_config_dir: bool,
    has_program_dir: bool,
    new_exists: bool,
    old_exists: bool,
    r: bool,
)
    requires
        call_ensures(
            ConfigService::migrate_old_config_if_needed,
            (has_config_dir, has_program_dir, new_exists, old_exists),
            r,
        ),
    ensures
        r <==> has_config_dir && old_exists && !new_exists,
{
    config::law_old_and_new_paths_differ(has_config_dir, has_program_dir);
}

} // verus!
