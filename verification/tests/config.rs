use clickei::config::presets::{find_preset, preset_exists, preset_names, preset_position};
use clickei::config::{
    mod_flag, AppConfig, ConfigFile, ConfigService, HotkeyCombo, HotkeyMap, PathBase,
    SettingsBindings,
};
use clickei::model::{ClickType, CursorMode, MouseButton, SequenceTarget, StaticClickerPreset};

fn preset(name: &str, interval_ms: u32) -> StaticClickerPreset {
    StaticClickerPreset {
        name: name.to_string(),
        interval_ms,
        interval_jitter_ms: 200,
        position_jitter_px: 5,
        button: MouseButton::Left,
        click_type: ClickType::Double,
        repeat_until_stopped: false,
        repeat_count: 10,
        cursor_mode: CursorMode::Fixed { x: 123, y: 456 },
        foreground: false,
        bg_title: "MyGame".to_string(),
        sequence_targets: vec![SequenceTarget { x: 10, y: 20, clicks: 2, interval_ms: 300 }],
        sequence_enabled: true,
    }
}

#[test]
fn combos_are_shown() {
    for (modifiers, key, shown) in [
        (0, 0, "(none)"),
        (2, 0, "Ctrl"),
        (7, 0x52, "Ctrl+Alt+Shift+R"),
        (15, 0x75, "Ctrl+Alt+Shift+Win+F6"),
        (0, 0x87, "F24"),
        (0, 0x60, "Num0"),
        (0, 0x69, "Num9"),
        (0, 0x1B, "Esc"),
        (0, 0x20, "Space"),
        (0, 0x0D, "Enter"),
        (0, 0x09, "Tab"),
        (0, 0x08, "Backspace"),
        (0, 0x2E, "Del"),
        (0, 0x2D, "Ins"),
        (0, 0x24, "Home"),
        (0, 0x23, "End"),
        (0, 0x21, "PgUp"),
        (0, 0x22, "PgDn"),
        (0, 0x25, "Left"),
        (0, 0x27, "Right"),
        (0, 0x26, "Up"),
        (0, 0x28, "Down"),
        (0, 0x39, "9"),
        (0, 0x05, "0x05"),
        (0, 0xBA, "0xBA"),
        (0, -1, "0xFFFFFFFF"),
    ] {
        let c = HotkeyCombo::new(modifiers, key);
        assert_eq!(c.display_owned(), shown);
        assert_eq!(c.display(), shown);
        assert_eq!(c.has_modifiers(), modifiers != 0);
    }
    assert_eq!(HotkeyCombo::none().key_name(), "");
    assert_eq!(HotkeyCombo::new(7, 0x41).key_name(), "A");
}

#[test]
fn modifiers_are_the_systems() {
    for m in 0..16 {
        assert_eq!(HotkeyCombo::new(m, 1).to_modifier_flags(0), m as u32);
        assert_eq!(HotkeyCombo::new(m, 1).to_modifier_flags(0x4000), m as u32 | 0x4000);
    }
    assert_eq!(mod_flag::ALT | mod_flag::CONTROL | mod_flag::SHIFT | mod_flag::WIN, 15);
}

#[test]
fn bindings_survive_storing() {
    let d = SettingsBindings::default();
    assert_eq!(d.record, HotkeyCombo::new(7, 0x52));
    assert_eq!(d.play, HotkeyCombo::new(7, 0x50));
    assert_eq!(d.stop, HotkeyCombo::new(7, 0x53));
    assert_eq!(d.static_clicker, HotkeyCombo::new(0, 0x75));
    let b = SettingsBindings {
        record: HotkeyCombo::new(1, 2),
        play: HotkeyCombo::new(3, 4),
        stop: HotkeyCombo::none(),
        static_clicker: HotkeyCombo::new(5, 6),
    };
    let m = b.to_map();
    assert_eq!(m.len(), 4);
    assert_eq!(SettingsBindings::from_map(Some(&m)), b);
    assert_eq!(SettingsBindings::from_map(None), d);
    assert_eq!(SettingsBindings::from_map(Some(&HotkeyMap::new())), d);
}

#[test]
fn some_bindings_may_be_missing() {
    let mut m = HotkeyMap::new();
    m.insert("Play".to_string(), HotkeyCombo::new(0, 9));
    m.insert("Other".to_string(), HotkeyCombo::new(0, 8));
    m.insert("Play".to_string(), HotkeyCombo::new(0, 7));
    assert_eq!(m.len(), 2);
    assert_eq!(m.get("Play"), Some(HotkeyCombo::new(0, 7)));
    assert_eq!(m.get("Stop"), None);
    let b = SettingsBindings::from_map(Some(&m));
    assert_eq!(b.play, HotkeyCombo::new(0, 7));
    assert_eq!(b.record, SettingsBindings::default().record);
    let copy = m.copy();
    assert_eq!(copy.get("Other"), Some(HotkeyCombo::new(0, 8)));
    assert_eq!(copy.entry(0), ("Play".to_string(), HotkeyCombo::new(0, 7)));
    assert_eq!(copy.entry(1), ("Other".to_string(), HotkeyCombo::new(0, 8)));
}

#[test]
fn configuration_has_defaults() {
    let c = AppConfig::default();
    assert_eq!(c.hotkeys.len(), 0);
    assert_eq!(f64::from_bits(c.default_speed.bits), 1.0);
    assert_eq!((c.loop_count, c.infinite_loop, c.interval_ms), (1, false, 0));
    assert_eq!(c.last_file_path, None);
    assert_eq!(f64::from_bits(c.sequence_panel_width.bits), 380.0);
    assert_eq!(c.static_clicker_interval_ms, 100);
    assert_eq!(c.static_clicker_button, MouseButton::Left);
    assert_eq!(c.static_clicker_cursor_mode, CursorMode::Current);
    assert!(c.static_clicker_repeat_until_stopped);
    assert!(c.static_clicker_foreground);
    assert!(c.static_clicker_sequence_enabled);
    assert_eq!(c.static_clicker_sequence_targets.len(), 0);
    assert_eq!(c.static_clicker_presets.len(), 0);
}

#[test]
fn presets_are_found_under_their_names() {
    let mut c = AppConfig::default();
    c.store_preset(preset("BossFarm", 1500));
    c.store_preset(preset("Other", 20));
    c.store_preset(preset("BossFarm", 99));
    assert_eq!(preset_names(&c.static_clicker_presets), vec!["BossFarm", "Other"]);
    assert_eq!(find_preset(&c.static_clicker_presets, "BossFarm"), Some(preset("BossFarm", 99)));
    assert_eq!(find_preset(&c.static_clicker_presets, "Other"), Some(preset("Other", 20)));
    assert_eq!(find_preset(&c.static_clicker_presets, "bossfarm"), None);
    assert_eq!(preset_position(&c.static_clicker_presets, "Other"), Some(1));
    c.delete_preset("BossFarm");
    assert!(!preset_exists(&c.static_clicker_presets, "BossFarm"));
    assert!(preset_exists(&c.static_clicker_presets, "Other"));
    c.delete_preset("Nothing");
    assert_eq!(c.static_clicker_presets.len(), 1);
}

#[test]
fn static_hotkey_is_stored_alone() {
    let mut c = AppConfig::default();
    c.hotkeys.insert("Record".to_string(), HotkeyCombo::new(1, 1));
    c.store_static_hotkey(HotkeyCombo::new(0, 0x76));
    let b = SettingsBindings::from_map(Some(&c.hotkeys));
    assert_eq!(b.record, HotkeyCombo::new(1, 1));
    assert_eq!(b.static_clicker, HotkeyCombo::new(0, 0x76));
    assert_eq!(b.play, SettingsBindings::default().play);
}

#[test]
fn configuration_paths() {
    let p = ConfigService::config_path(true, true);
    assert_eq!((p.base, p.parts), (PathBase::ConfigDir, vec!["Clickei".to_string(), "config.json".to_string()]));
    let p = ConfigService::old_config_path_raw(true, false);
    assert_eq!(p.parts[0], "TinyTaskEnhanced");
    let p = ConfigService::config_path(false, true);
    assert_eq!((p.base, p.parts), (PathBase::ProgramDir, vec!["config.json".to_string()]));
    assert_eq!(ConfigService::new_config_path_raw(false, false).base, PathBase::WorkingDir);
    assert_eq!(ConfigService::app_data_dir(true, true).parts, vec!["Clickei".to_string()]);
    assert_eq!(ConfigService::app_data_dir(false, true).parts.len(), 0);
}

#[test]
fn old_configuration_is_migrated_once() {
    assert!(ConfigService::migrate_old_config_if_needed(true, true, false, true));
    assert!(!ConfigService::migrate_old_config_if_needed(true, true, true, true));
    assert!(!ConfigService::migrate_old_config_if_needed(true, true, false, false));
    assert!(!ConfigService::migrate_old_config_if_needed(false, true, false, true));
}

#[test]
fn unusable_files_give_defaults() {
    for f in [ConfigFile::Missing, ConfigFile::Unreadable, ConfigFile::Corrupt] {
        assert_eq!(ConfigService::load_from(f).loop_count, 1);
    }
    let mut c = AppConfig::default();
    c.loop_count = 5;
    c.store_last_file("a.ttx".to_string());
    c.store_always_on_top(true);
    let back = ConfigService::load_from(ConfigFile::Parsed(c));
    assert_eq!(back.loop_count, 5);
    assert_eq!(back.last_file_path, Some("a.ttx".to_string()));
    assert!(back.always_on_top);
    assert_eq!(ConfigService::mkdir_error("p", "e"), "mkdir p: e");
    assert_eq!(ConfigService::write_error("p", "e"), "write p: e");
}
