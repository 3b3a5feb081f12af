//! The window of the auto clicker: its settings, presets, picking, and start and stop.
//!
//! What the window has the system do, it returns. What came of it, it is told.

pub mod laws;

use std::collections::HashSet;

use vstd::arithmetic::div_mod::lemma_fundamental_div_mod_converse;
use vstd::prelude::*;

use crate::config;
use crate::config::{presets, AppConfig, HotkeyCombo, SettingsBindings, StaticState};
use crate::double::{Double, W280_BITS, W500_BITS};
use crate::hooks;
use crate::hooks::{find_window_by_title, is_hotkey_pressed, signed_of, SafeHwnd};
use crate::keys;
use crate::model;
use crate::model::{
    clamp_i32, copy_targets, ClickType, CursorMode, MouseButton, SequenceTarget,
    StaticClickerPreset,
};
use crate::static_clicker::{ClickMode, RepeatMode, StaticClickerConfig};
use crate::text;
use crate::text::{push_dec, push_dec_nat, same_text, starts_with, trim_text};
use crate::ui::sequence_window;
use crate::ui::sequence_window::{change_switches, change_targets, PanelAction};

verus! {

// ---------------------------------------------------------------------------
// State
// ---------------------------------------------------------------------------

/// The settings of the clicker that are numbers and choices.
#[derive(Debug, Clone, Copy, PartialEq, Eq, Structural)]
pub struct Fields {
    pub hours: i32,
    pub mins: i32,
    pub secs: i32,
    pub millis: i32,
    pub interval_jitter_ms: i32,
    pub position_jitter_px: i32,
    pub button: MouseButton,
    pub click_type: ClickType,
    pub repeat_until_stopped: bool,
    pub repeat_count: i32,
    pub cursor_mode: CursorMode,
    pub fixed_x: i32,
    pub fixed_y: i32,
    pub sequence_enabled: bool,
    pub foreground: bool,
}

/// What is being picked on the screen. A pick is armed once the mouse button was seen up.
#[derive(Debug, Clone, Copy, PartialEq, Eq, Structural)]
pub struct Picking {
    pub location: bool,
    pub location_armed: bool,
    pub window: bool,
    pub window_armed: bool,
    pub sequence: bool,
    pub sequence_armed: bool,
}

/// How the list of targets is shown.
#[derive(Debug, Clone, Copy, PartialEq, Eq, Structural)]
pub struct Panel {
    pub collapsed: bool,
    pub width: Double,
    pub popped_out: bool,
    pub expanded_row: Option<usize>,
}

/// Which dialogs are open.
#[derive(Debug, Clone, Copy, PartialEq, Eq, Structural)]
pub struct Dialogs {
    pub hotkey: bool,
    pub capturing: bool,
    pub overwrite: bool,
    pub delete: bool,
}

/// The hotkey of the clicker, and those that it must not be the same as.
#[derive(Debug, Clone, Copy, PartialEq, Eq, Structural)]
pub struct Hotkeys {
    pub own: HotkeyCombo,
    pub record: HotkeyCombo,
    pub play: HotkeyCombo,
    pub stop: HotkeyCombo,
    /// Whether the hotkey has been held since it was last heeded.
    pub was_down: bool,
}

/// The window of the clicker.
#[derive(Debug)]
pub struct StaticClickerWindow {
    pub fields: Fields,
    pub picking: Picking,
    pub panel: Panel,
    pub dialogs: Dialogs,
    pub hotkeys: Hotkeys,
    pub sequence_targets: Vec<SequenceTarget>,
    pub bg_hwnd: Option<SafeHwnd>,
    pub bg_title: String,
    pub status: String,
    pub is_warning: bool,
    pub clicks_done: u32,
    pub always_on_top: bool,
    pub top_initialized: bool,
    pub preset_selected: String,
    pub preset_input: String,
    pub pending_overwrite_name: String,
    pub pending_delete_name: String,
}

/// What the window of the clicker holds.
#[verifier::ext_equal]
pub struct ClickerView {
    pub fields: Fields,
    pub picking: Picking,
    pub panel: Panel,
    pub dialogs: Dialogs,
    pub hotkeys: Hotkeys,
    pub targets: Seq<SequenceTarget>,
    pub window: Option<SafeHwnd>,
    pub title: Seq<char>,
    pub status: Seq<char>,
    pub warning: bool,
    pub clicks_done: u32,
    pub always_on_top: bool,
    pub top_initialized: bool,
    pub preset_selected: Seq<char>,
    pub preset_input: Seq<char>,
    pub pending_overwrite: Seq<char>,
    pub pending_delete: Seq<char>,
}

impl View for StaticClickerWindow {
    type V = ClickerView;

    open spec fn view(&self) -> ClickerView {
        ClickerView {
            fields: self.fields,
            picking: self.picking,
            panel: self.panel,
            dialogs: self.dialogs,
            hotkeys: self.hotkeys,
            targets: self.sequence_targets@,
            window: self.bg_hwnd,
            title: self.bg_title@,
            status: self.status@,
            warning: self.is_warning,
            clicks_done: self.clicks_done,
            always_on_top: self.always_on_top,
            top_initialized: self.top_initialized,
            preset_selected: self.preset_selected@,
            preset_input: self.preset_input@,
            pending_overwrite: self.pending_overwrite_name@,
            pending_delete: self.pending_delete_name@,
        }
    }
}

/// A window with another status line.
pub open spec fn told(v: ClickerView, status: Seq<char>, warning: bool) -> ClickerView {
    ClickerView { status, warning, ..v }
}

// ---------------------------------------------------------------------------
// The interval
// ---------------------------------------------------------------------------

/// A number that is not negative.
pub open spec fn not_negative(n: i32) -> int {
    if n < 0 {
        0
    } else {
        n as int
    }
}

/// The interval that the fields say, at least a millisecond.
pub open spec fn interval_of(f: Fields) -> int {
    let sum = not_negative(f.hours) * 3_600_000 + not_negative(f.mins) * 60_000 + not_negative(
        f.secs,
    ) * 1000 + not_negative(f.millis);
    if sum < 1 {
        1
    } else {
        sum
    }
}

/// A number as a field holds it: its lower 32 bits.
pub open spec fn field_of(n: int) -> i32 {
    hooks::signed((n % 0x1_0000_0000) as u32)
}

/// Fields that say an interval.
pub open spec fn with_interval(f: Fields, ms: int) -> Fields {
    Fields {
        hours: field_of(ms / 3_600_000),
        mins: field_of(ms % 3_600_000 / 60_000),
        secs: field_of(ms % 60_000 / 1000),
        millis: field_of(ms % 1000),
        ..f
    }
}

fn field(n: u64) -> (r: i32)
    ensures
        r == field_of(n as int),
{
    signed_of((n % 0x1_0000_0000) as u32)
}

#[verifier::spinoff_prover]
fn put_interval(f: &mut Fields, ms: u64)
    ensures
        *final(f) == with_interval(*old(f), ms as int),
{
    let rem: u64 = ms % 3_600_000;
    let rem2: u64 = rem % 60_000;
    proof {
        assert(rem2 == ms % 60_000);
        assert(rem2 % 1000 == ms % 1000);
    }
    f.hours = field(ms / 3_600_000);
    f.mins = field(rem / 60_000);
    f.secs = field(rem2 / 1000);
    f.millis = field(rem2 % 1000);
}

fn positive_part(n: i32) -> (r: u64)
    ensures
        r == not_negative(n),
{
    if n < 0 {
        0
    } else {
        n as u64
    }
}

impl Fields {
    /// The interval that the fields say, at least a millisecond.
    pub fn total_ms(&self) -> (r: u64)
        ensures
            r == interval_of(*self),
    {
        let sum: u64 = positive_part(self.hours) * 3_600_000 + positive_part(self.mins) * 60_000
            + positive_part(self.secs) * 1000 + positive_part(self.millis);
        if sum < 1 {
            1
        } else {
            sum
        }
    }
}

/// An interval that was put into the fields is read out of them again.
#[verifier::spinoff_prover]
pub proof fn law_interval_reads_back(f: Fields, ms: int)
    requires
        1 <= ms <= i32::MAX * 3_600_000,
    ensures
        interval_of(with_interval(f, ms)) == ms,
{
    assert(ms / 3_600_000 <= i32::MAX);
    assert(ms == ms / 3_600_000 * 3_600_000 + ms % 3_600_000);
    assert(ms % 3_600_000 == ms % 3_600_000 / 60_000 * 60_000 + ms % 60_000);
    assert(ms % 60_000 == ms % 60_000 / 1000 * 1000 + ms % 1000);
}

// ---------------------------------------------------------------------------
// Opening and storing
// ---------------------------------------------------------------------------

/// The most milliseconds by which the interval may deviate.
pub const MOST_INTERVAL_JITTER: i32 = 9999;

/// The most pixels by which a point may deviate.
pub const MOST_POSITION_JITTER: i32 = 20;

/// A stored jitter, brought into bounds.
pub open spec fn jitter_from(stored: u32, most: i32) -> i32 {
    model::clamp(hooks::signed(stored) as int, 0, most as int) as i32
}

/// A jitter as it is stored, brought into bounds.
pub open spec fn jitter_to(n: i32, most: i32) -> u32 {
    model::clamp(n as int, 0, most as int) as u32
}

fn take_jitter(stored: u32, most: i32) -> (r: i32)
    requires
        most >= 0,
    ensures
        r == jitter_from(stored, most),
{
    clamp_i32(signed_of(stored), 0, most)
}

fn put_jitter(n: i32, most: i32) -> (r: u32)
    requires
        most >= 0,
    ensures
        r == jitter_to(n, most),
{
    clamp_i32(n, 0, most) as u32
}

/// The fixed point of a cursor mode, if it has one.
pub open spec fn fixed_point(c: CursorMode, otherwise: (i32, i32)) -> (i32, i32) {
    match c {
        CursorMode::Fixed { x, y } => (x, y),
        _ => otherwise,
    }
}

/// The window of a title, where a window is told of clicks and the search found one.
pub open spec fn window_for(foreground: bool, title: Seq<char>, found: usize) -> Option<SafeHwnd> {
    if foreground || title.len() == 0 || found == 0 {
        None
    } else {
        Some(SafeHwnd(found))
    }
}

/// The fields as they are stored.
pub open spec fn fields_from(c: AppConfig) -> Fields {
    let point = fixed_point(c.static_clicker_cursor_mode, (0i32, 0i32));
    with_interval(
        Fields {
            hours: 0,
            mins: 0,
            secs: 0,
            millis: 0,
            interval_jitter_ms: jitter_from(
                c.static_clicker_interval_jitter_ms,
                MOST_INTERVAL_JITTER,
            ),
            position_jitter_px: jitter_from(
                c.static_clicker_position_jitter_px,
                MOST_POSITION_JITTER,
            ),
            button: c.static_clicker_button,
            click_type: c.static_clicker_click_type,
            repeat_until_stopped: c.static_clicker_repeat_until_stopped,
            repeat_count: c.static_clicker_repeat_count,
            cursor_mode: c.static_clicker_cursor_mode,
            fixed_x: point.0,
            fixed_y: point.1,
            sequence_enabled: c.static_clicker_sequence_enabled,
            foreground: c.static_clicker_foreground,
        },
        if c.static_clicker_interval_ms < 1 {
            1
        } else {
            c.static_clicker_interval_ms as int
        },
    )
}

/// Nothing is being picked.
pub open spec fn no_picking() -> Picking {
    Picking {
        location: false,
        location_armed: false,
        window: false,
        window_armed: false,
        sequence: false,
        sequence_armed: false,
    }
}

/// The width of the list of targets, brought into bounds.
pub open spec fn panel_width(stored: Double) -> Double {
    if stored.nan() {
        Double { bits: W280_BITS }
    } else {
        stored.spec_clamp(Double { bits: W280_BITS }, Double { bits: W500_BITS })
    }
}

/// A window as it opens.
pub open spec fn opened_with(c: AppConfig, found: usize) -> ClickerView {
    let b = config::bindings_of(c.hotkeys@);
    ClickerView {
        fields: fields_from(c),
        picking: no_picking(),
        panel: Panel {
            collapsed: c.sequence_panel_collapsed,
            width: panel_width(c.sequence_panel_width),
            popped_out: c.sequence_panel_popped_out,
            expanded_row: None,
        },
        dialogs: Dialogs { hotkey: false, capturing: false, overwrite: false, delete: false },
        hotkeys: Hotkeys {
            own: b.static_clicker,
            record: b.record,
            play: b.play,
            stop: b.stop,
            was_down: false,
        },
        targets: c.static_clicker_sequence_targets@,
        window: window_for(
            c.static_clicker_foreground,
            c.static_clicker_bg_title@,
            found,
        ),
        title: c.static_clicker_bg_title@,
        status: "Ready. Set interval and press Start ("@ + b.static_clicker.spec_display() + ")"@,
        warning: false,
        clicks_done: 0,
        always_on_top: c.always_on_top,
        top_initialized: false,
        preset_selected: Seq::empty(),
        preset_input: Seq::empty(),
        pending_overwrite: Seq::empty(),
        pending_delete: Seq::empty(),
    }
}

/// Whether a configuration is another one with the settings of the clicker stored in it.
pub open spec fn stores(v: ClickerView, before: AppConfig, after: AppConfig) -> bool {
    &&& after == (AppConfig {
        static_clicker_interval_ms: interval_of(v.fields) as u64,
        static_clicker_button: v.fields.button,
        static_clicker_click_type: v.fields.click_type,
        static_clicker_repeat_until_stopped: v.fields.repeat_until_stopped,
        static_clicker_repeat_count: v.fields.repeat_count,
        static_clicker_cursor_mode: v.fields.cursor_mode,
        static_clicker_foreground: v.fields.foreground,
        static_clicker_bg_title: after.static_clicker_bg_title,
        static_clicker_sequence_targets: after.static_clicker_sequence_targets,
        static_clicker_sequence_enabled: v.fields.sequence_enabled,
        static_clicker_interval_jitter_ms: jitter_to(
            v.fields.interval_jitter_ms,
            MOST_INTERVAL_JITTER,
        ),
        static_clicker_position_jitter_px: jitter_to(
            v.fields.position_jitter_px,
            MOST_POSITION_JITTER,
        ),
        ..before
    })
    &&& after.static_clicker_bg_title@ == v.title
    &&& after.static_clicker_sequence_targets@ == v.targets
}

fn empty_text() -> (r: String)
    ensures
        r@ == Seq::<char>::empty(),
{
    let s: String = "".to_owned();
    proof {
        reveal_strlit("");
        assert(s@ =~= Seq::<char>::empty());
    }
    s
}

fn find_window(foreground: bool, title: &str, found: usize) -> (r: Option<SafeHwnd>)
    ensures
        r == window_for(foreground, title@, found),
{
    if foreground {
        None
    } else {
        find_window_by_title(title, found)
    }
}

proof fn lemma_width_bounds()
    ensures
        !(Double { bits: W280_BITS }).nan(),
        !(Double { bits: W500_BITS }).nan(),
        (Double { bits: W280_BITS }).value() <= (Double { bits: W500_BITS }).value(),
{
    crate::double::law_named_doubles();
}

impl StaticClickerWindow {
    /// The window as it opens, with the stored settings. `found` is the handle that a search
    /// for the stored window title found, or 0.
    pub fn new(c: &AppConfig, found: usize) -> (r: Self)
        ensures
            r@ == opened_with(*c, found),
    {
        let b: SettingsBindings = SettingsBindings::from_map(Some(&c.hotkeys));
        let mut status: String = "Ready. Set interval and press Start (".to_owned();
        status.append(b.static_clicker.display_owned().as_str());
        status.append(")");
        let (fixed_x, fixed_y): (i32, i32) = match c.static_clicker_cursor_mode {
            CursorMode::Fixed { x, y } => (x, y),
            _ => (0, 0),
        };
        let mut fields: Fields = Fields {
            hours: 0,
            mins: 0,
            secs: 0,
            millis: 0,
            interval_jitter_ms: take_jitter(
                c.static_clicker_interval_jitter_ms,
                MOST_INTERVAL_JITTER,
            ),
            position_jitter_px: take_jitter(
                c.static_clicker_position_jitter_px,
                MOST_POSITION_JITTER,
            ),
            button: c.static_clicker_button,
            click_type: c.static_clicker_click_type,
            repeat_until_stopped: c.static_clicker_repeat_until_stopped,
            repeat_count: c.static_clicker_repeat_count,
            cursor_mode: c.static_clicker_cursor_mode,
            fixed_x,
            fixed_y,
            sequence_enabled: c.static_clicker_sequence_enabled,
            foreground: c.static_clicker_foreground,
        };
        let ms: u64 = if c.static_clicker_interval_ms < 1 {
            1
        } else {
            c.static_clicker_interval_ms
        };
        put_interval(&mut fields, ms);
        proof {
            lemma_width_bounds();
        }
        let width: Double = c.sequence_panel_width.clamp_or_low(
            Double { bits: W280_BITS },
            Double { bits: W500_BITS },
        );
        StaticClickerWindow {
            fields,
            picking: Picking {
                location: false,
                location_armed: false,
                window: false,
                window_armed: false,
                sequence: false,
                sequence_armed: false,
            },
            panel: Panel {
                collapsed: c.sequence_panel_collapsed,
                width,
                popped_out: c.sequence_panel_popped_out,
                expanded_row: None,
            },
            dialogs: Dialogs { hotkey: false, capturing: false, overwrite: false, delete: false },
            hotkeys: Hotkeys {
                own: b.static_clicker,
                record: b.record,
                play: b.play,
                stop: b.stop,
                was_down: false,
            },
            sequence_targets: copy_targets(&c.static_clicker_sequence_targets),
            bg_hwnd: find_window(
                c.static_clicker_foreground,
                c.static_clicker_bg_title.as_str(),
                found,
            ),
            bg_title: c.static_clicker_bg_title.clone(),
            status,
            is_warning: false,
            clicks_done: 0,
            always_on_top: c.always_on_top,
            top_initialized: false,
            preset_selected: empty_text(),
            preset_input: empty_text(),
            pending_overwrite_name: empty_text(),
            pending_delete_name: empty_text(),
        }
    }

    /// Stores how the list of targets is shown.
    pub fn persist_panel_state(&self, c: &mut AppConfig)
        ensures
            *final(c) == (AppConfig {
                sequence_panel_collapsed: self@.panel.collapsed,
                sequence_panel_width: self@.panel.width,
                sequence_panel_popped_out: self@.panel.popped_out,
                ..*old(c)
            }),
    {
        c.store_panel(self.panel.collapsed, self.panel.width, self.panel.popped_out);
    }

    /// Stores the settings of the clicker.
    pub fn persist_static_state(&self, c: &mut AppConfig)
        ensures
            stores(self@, *old(c), *final(c)),
    {
        let s: StaticState = StaticState {
            interval_ms: self.fields.total_ms(),
            button: self.fields.button,
            click_type: self.fields.click_type,
            repeat_until_stopped: self.fields.repeat_until_stopped,
            repeat_count: self.fields.repeat_count,
            cursor_mode: self.fields.cursor_mode,
            foreground: self.fields.foreground,
            bg_title: self.bg_title.clone(),
            sequence_targets: copy_targets(&self.sequence_targets),
            sequence_enabled: self.fields.sequence_enabled,
            interval_jitter_ms: put_jitter(self.fields.interval_jitter_ms, MOST_INTERVAL_JITTER),
            position_jitter_px: put_jitter(self.fields.position_jitter_px, MOST_POSITION_JITTER),
        };
        c.store_static(s);
    }

    fn tell(&mut self, status: String, warning: bool)
        ensures
            final(self)@ == told(old(self)@, status@, warning),
    {
        self.status = status;
        self.is_warning = warning;
    }
}

/// Settings whose numbers are within their bounds.
pub open spec fn in_bounds(f: Fields) -> bool {
    &&& 0 <= f.hours <= 9999
    &&& 0 <= f.mins < 60
    &&& 0 <= f.secs < 60
    &&& 0 <= f.millis < 1000
    &&& f.hours + f.mins + f.secs + f.millis > 0
    &&& 0 <= f.interval_jitter_ms <= MOST_INTERVAL_JITTER
    &&& 0 <= f.position_jitter_px <= MOST_POSITION_JITTER
    &&& (f.fixed_x, f.fixed_y) == fixed_point(f.cursor_mode, (0i32, 0i32))
}

/// What is stored opens again as it was: fields within their bounds come back unchanged, as do
/// the targets and the title of the window that gets the clicks.
pub proof fn law_stored_settings_open_again(v: ClickerView, before: AppConfig, after: AppConfig)
    requires
        in_bounds(v.fields),
        stores(v, before, after),
    ensures
        fields_from(after) == v.fields,
        after.static_clicker_sequence_targets@ == v.targets,
        after.static_clicker_bg_title@ == v.title,
{
    lemma_interval_splits(v.fields);
}

proof fn lemma_parts_of_a_time(h: int, m: int, s: int, ms: int)
    requires
        0 <= h,
        0 <= m < 60,
        0 <= s < 60,
        0 <= ms < 1000,
    ensures
        ({
            let t = h * 3_600_000 + m * 60_000 + s * 1000 + ms;
            &&& t / 3_600_000 == h
            &&& t % 3_600_000 / 60_000 == m
            &&& t % 60_000 / 1000 == s
            &&& t % 1000 == ms
        }),
{
    let t = h * 3_600_000 + m * 60_000 + s * 1000 + ms;
    lemma_fundamental_div_mod_converse(t, 3_600_000, h, m * 60_000 + s * 1000 + ms);
    lemma_fundamental_div_mod_converse(t % 3_600_000, 60_000, m, s * 1000 + ms);
    lemma_fundamental_div_mod_converse(t, 60_000, h * 60 + m, s * 1000 + ms);
    lemma_fundamental_div_mod_converse(t % 60_000, 1000, s, ms);
    lemma_fundamental_div_mod_converse(t, 1000, h * 3600 + m * 60 + s, ms);
}

proof fn lemma_interval_splits(f: Fields)
    requires
        in_bounds(f),
    ensures
        with_interval(f, interval_of(f)) == f,
{
    lemma_parts_of_a_time(f.hours as int, f.mins as int, f.secs as int, f.millis as int);
}

// ---------------------------------------------------------------------------
// Presets
// ---------------------------------------------------------------------------

/// The preset of what the window is set to.
pub open spec fn preset_of(v: ClickerView, name: Seq<char>) -> model::PresetView {
    model::PresetView {
        name,
        settings: model::PresetSettings {
            interval_ms: if interval_of(v.fields) > u32::MAX {
                u32::MAX
            } else {
                interval_of(v.fields) as u32
            },
            interval_jitter_ms: jitter_to(v.fields.interval_jitter_ms, MOST_INTERVAL_JITTER),
            position_jitter_px: jitter_to(v.fields.position_jitter_px, MOST_POSITION_JITTER),
            button: v.fields.button,
            click_type: v.fields.click_type,
            repeat_until_stopped: v.fields.repeat_until_stopped,
            repeat_count: if v.fields.repeat_count < 1 {
                1
            } else {
                v.fields.repeat_count as u32
            },
            cursor_mode: v.fields.cursor_mode,
            foreground: v.fields.foreground,
            bg_title: v.title,
            sequence_targets: v.targets,
            sequence_enabled: v.fields.sequence_enabled,
        },
    }
}

/// Fields that a preset has set.
pub open spec fn preset_fields(f: Fields, p: model::PresetSettings) -> Fields {
    let point = fixed_point(p.cursor_mode, (f.fixed_x, f.fixed_y));
    with_interval(
        Fields {
            interval_jitter_ms: jitter_from(p.interval_jitter_ms, MOST_INTERVAL_JITTER),
            position_jitter_px: jitter_from(p.position_jitter_px, MOST_POSITION_JITTER),
            button: p.button,
            click_type: p.click_type,
            repeat_until_stopped: p.repeat_until_stopped,
            repeat_count: model::clamp(hooks::signed(p.repeat_count) as int, 1, 999999) as i32,
            cursor_mode: p.cursor_mode,
            fixed_x: point.0,
            fixed_y: point.1,
            sequence_enabled: p.sequence_enabled,
            foreground: p.foreground,
            ..f
        },
        p.interval_ms as int,
    )
}

/// A window that a preset has set.
pub open spec fn preset_applied(
    v: ClickerView,
    p: model::PresetSettings,
    found: usize,
) -> ClickerView {
    ClickerView {
        fields: preset_fields(v.fields, p),
        title: p.bg_title,
        window: window_for(p.foreground, p.bg_title, found),
        targets: p.sequence_targets,
        ..v
    }
}

/// A window that has saved a preset.
pub open spec fn preset_saved(v: ClickerView, name: Seq<char>) -> ClickerView {
    told(ClickerView { preset_selected: name, ..v }, "Preset '"@ + name + "' saved"@, false)
}

/// The preset that is meant: the selected one, else the one whose name was typed.
pub open spec fn meant(v: ClickerView) -> Seq<char> {
    if v.preset_selected.len() > 0 {
        v.preset_selected
    } else {
        text::trimmed(v.preset_input)
    }
}

/// A window that has deleted a preset.
pub open spec fn preset_deleted(v: ClickerView, name: Seq<char>) -> ClickerView {
    told(
        ClickerView {
            preset_selected: if v.preset_selected == name {
                Seq::empty()
            } else {
                v.preset_selected
            },
            preset_input: if v.preset_input == name {
                Seq::empty()
            } else {
                v.preset_input
            },
            dialogs: Dialogs { delete: false, ..v.dialogs },
            ..v
        },
        "Preset '"@ + name + "' deleted"@,
        false,
    )
}

fn about_preset(name: &str, after: &str) -> (r: String)
    ensures
        r@ == "Preset '"@ + name@ + after@,
{
    let mut s: String = "Preset '".to_owned();
    s.append(name);
    s.append(after);
    s
}

impl StaticClickerWindow {
    /// The preset of what the window is set to.
    pub fn build_preset(&self, name: String) -> (r: StaticClickerPreset)
        ensures
            r@ == preset_of(self@, name@),
    {
        let total: u64 = self.fields.total_ms();
        let interval_ms: u32 = if total > 0xffff_ffff {
            u32::MAX
        } else {
            total as u32
        };
        let repeat_count: u32 = if self.fields.repeat_count < 1 {
            1
        } else {
            self.fields.repeat_count as u32
        };
        StaticClickerPreset {
            name,
            interval_ms,
            interval_jitter_ms: put_jitter(self.fields.interval_jitter_ms, MOST_INTERVAL_JITTER),
            position_jitter_px: put_jitter(self.fields.position_jitter_px, MOST_POSITION_JITTER),
            button: self.fields.button,
            click_type: self.fields.click_type,
            repeat_until_stopped: self.fields.repeat_until_stopped,
            repeat_count,
            cursor_mode: self.fields.cursor_mode,
            foreground: self.fields.foreground,
            bg_title: self.bg_title.clone(),
            sequence_targets: copy_targets(&self.sequence_targets),
            sequence_enabled: self.fields.sequence_enabled,
        }
    }

    fn do_save_preset(&mut self, name: String, c: &mut AppConfig)
        ensures
            final(self)@ == preset_saved(old(self)@, name@),
            *final(c) == (AppConfig {
                static_clicker_presets: final(c).static_clicker_presets,
                ..*old(c)
            }),
            final(c).presets() == presets::with_preset(
                old(c).presets(),
                preset_of(old(self)@, name@),
            ),
    {
        let preset: StaticClickerPreset = self.build_preset(name.clone());
        c.store_preset(preset);
        let status: String = about_preset(name.as_str(), "' saved");
        self.preset_selected = name;
        self.tell(status, false);
        proof {
            assert("Preset '"@ + name@ + "' saved"@ == self.status@);
        }
    }

    /// Saves what the window is set to under the name that was typed. Without a name it says
    /// so; where the name is taken, it asks first. Returns whether it saved.
    pub fn handle_preset_save(&mut self, c: &mut AppConfig) -> (r: bool)
        ensures
            ({
                let v = old(self)@;
                let name = text::trimmed(v.preset_input);
                if name.len() == 0 {
                    &&& !r
                    &&& *final(c) == *old(c)
                    &&& final(self)@ == told(
                        v,
                        "Preset name cannot be empty — enter a name first"@,
                        true,
                    )
                } else if presets::found(old(c).presets(), name) is Some {
                    &&& !r
                    &&& *final(c) == *old(c)
                    &&& final(self)@ == (ClickerView {
                        pending_overwrite: name,
                        dialogs: Dialogs { overwrite: true, ..v.dialogs },
                        ..v
                    })
                } else {
                    &&& r
                    &&& final(self)@ == preset_saved(v, name)
                    &&& *final(c) == (AppConfig {
                        static_clicker_presets: final(c).static_clicker_presets,
                        ..*old(c)
                    })
                    &&& final(c).presets() == presets::with_preset(
                        old(c).presets(),
                        preset_of(v, name),
                    )
                }
            }),
    {
        let name: String = trim_text(self.preset_input.as_str());
        if name.as_str().unicode_len() == 0 {
            self.tell("Preset name cannot be empty — enter a name first".to_owned(), true);
            return false;
        }
        if presets::preset_exists(&c.static_clicker_presets, name.as_str()) {
            self.pending_overwrite_name = name;
            self.dialogs.overwrite = true;
            return false;
        }
        self.do_save_preset(name, c);
        true
    }

    /// Answers the question whether a preset is to be overwritten. Returns whether it saved.
    pub fn answer_overwrite(&mut self, yes: bool, c: &mut AppConfig) -> (r: bool)
        ensures
            ({
                let v = old(self)@;
                let name = v.pending_overwrite;
                let closed = Dialogs { overwrite: false, ..v.dialogs };
                if yes {
                    &&& r
                    &&& final(self)@ == (ClickerView { dialogs: closed, ..preset_saved(v, name) })
                    &&& *final(c) == (AppConfig {
                        static_clicker_presets: final(c).static_clicker_presets,
                        ..*old(c)
                    })
                    &&& final(c).presets() == presets::with_preset(
                        old(c).presets(),
                        preset_of(v, name),
                    )
                } else {
                    &&& !r
                    &&& *final(c) == *old(c)
                    &&& final(self)@ == (ClickerView { dialogs: closed, ..v })
                }
            }),
    {
        if yes {
            let name: String = self.pending_overwrite_name.clone();
            self.do_save_preset(name, c);
        }
        self.dialogs.overwrite = false;
        yes
    }

    fn meant_name(&self) -> (r: String)
        ensures
            r@ == meant(self@),
    {
        if self.preset_selected.as_str().unicode_len() > 0 {
            self.preset_selected.clone()
        } else {
            trim_text(self.preset_input.as_str())
        }
    }

    /// The preset that is to be loaded. None while the clicker runs, where none is meant, and
    /// where there is none of that name; the status line says which.
    pub fn handle_preset_load(&mut self, running: bool, c: &AppConfig) -> (r: Option<
        StaticClickerPreset,
    >)
        ensures
            ({
                let v = old(self)@;
                let name = meant(v);
                if running {
                    r is None && final(self)@ == told(
                        v,
                        "Stop the clicker before loading a preset"@,
                        true,
                    )
                } else if name.len() == 0 {
                    r is None && final(self)@ == told(v, "Select a preset first"@, true)
                } else {
                    match presets::found(c.presets(), name) {
                        None => r is None && final(self)@ == told(
                            v,
                            "Preset '"@ + name + "' not found"@,
                            true,
                        ),
                        Some(p) => r is Some && r->Some_0@ == p && final(self)@ == v,
                    }
                }
            }),
    {
        if running {
            self.tell("Stop the clicker before loading a preset".to_owned(), true);
            return None;
        }
        let name: String = self.meant_name();
        if name.as_str().unicode_len() == 0 {
            self.tell("Select a preset first".to_owned(), true);
            return None;
        }
        match presets::find_preset(&c.static_clicker_presets, name.as_str()) {
            Some(preset) => Some(preset),
            None => {
                self.tell(about_preset(name.as_str(), "' not found"), true);
                None
            },
        }
    }

    fn apply_preset(&mut self, preset: &StaticClickerPreset, found: usize)
        ensures
            final(self)@ == preset_applied(old(self)@, preset@.settings, found),
    {
        put_interval(&mut self.fields, preset.interval_ms as u64);
        self.fields.interval_jitter_ms = take_jitter(
            preset.interval_jitter_ms,
            MOST_INTERVAL_JITTER,
        );
        self.fields.position_jitter_px = take_jitter(
            preset.position_jitter_px,
            MOST_POSITION_JITTER,
        );
        self.fields.button = preset.button;
        self.fields.click_type = preset.click_type;
        self.fields.repeat_until_stopped = preset.repeat_until_stopped;
        self.fields.repeat_count = clamp_i32(signed_of(preset.repeat_count), 1, 999999);
        self.fields.cursor_mode = preset.cursor_mode;
        if let CursorMode::Fixed { x, y } = preset.cursor_mode {
            self.fields.fixed_x = x;
            self.fields.fixed_y = y;
        }
        self.fields.foreground = preset.foreground;
        self.bg_title = preset.bg_title.clone();
        self.bg_hwnd = find_window(preset.foreground, preset.bg_title.as_str(), found);
        self.sequence_targets = copy_targets(&preset.sequence_targets);
        self.fields.sequence_enabled = preset.sequence_enabled;
    }

    /// Loads a preset and stores its settings. `found` is the handle that a search for its
    /// window title found, or 0.
    pub fn load_preset(&mut self, preset: &StaticClickerPreset, found: usize, c: &mut AppConfig)
        ensures
            stores(final(self)@, *old(c), *final(c)),
            final(self)@ == told(
                ClickerView {
                    preset_selected: preset@.name,
                    preset_input: preset@.name,
                    ..preset_applied(old(self)@, preset@.settings, found)
                },
                "Preset '"@ + preset@.name + "' loaded"@,
                false,
            ),
    {
        self.apply_preset(preset, found);
        self.persist_static_state(c);
        self.preset_selected = preset.name.clone();
        self.preset_input = preset.name.clone();
        let status: String = about_preset(preset.name.as_str(), "' loaded");
        self.tell(status, false);
    }

    /// Asks whether the preset that is meant is to be deleted. Where none is meant or there is
    /// none of that name, the status line says so.
    pub fn handle_preset_delete(&mut self, c: &AppConfig)
        ensures
            ({
                let v = old(self)@;
                let name = meant(v);
                final(self)@ == (if name.len() == 0 {
                    told(v, "Select a preset first"@, true)
                } else if presets::found(c.presets(), name) is None {
                    told(v, "Preset '"@ + name + "' not found"@, true)
                } else {
                    ClickerView {
                        pending_delete: name,
                        dialogs: Dialogs { delete: true, ..v.dialogs },
                        ..v
                    }
                })
            }),
    {
        let name: String = self.meant_name();
        if name.as_str().unicode_len() == 0 {
            self.tell("Select a preset first".to_owned(), true);
            return;
        }
        if !presets::preset_exists(&c.static_clicker_presets, name.as_str()) {
            self.tell(about_preset(name.as_str(), "' not found"), true);
            return;
        }
        self.pending_delete_name = name;
        self.dialogs.delete = true;
    }

    fn forget_name(&mut self, name: &str)
        ensures
            final(self)@ == (ClickerView {
                preset_selected: if old(self)@.preset_selected == name@ {
                    Seq::empty()
                } else {
                    old(self)@.preset_selected
                },
                preset_input: if old(self)@.preset_input == name@ {
                    Seq::empty()
                } else {
                    old(self)@.preset_input
                },
                ..old(self)@
            }),
    {
        if same_text(self.preset_selected.as_str(), name) {
            self.preset_selected = empty_text();
        }
        if same_text(self.preset_input.as_str(), name) {
            self.preset_input = empty_text();
        }
    }

    /// Answers the question whether a preset is to be deleted. Returns whether it was.
    pub fn answer_delete(&mut self, yes: bool, c: &mut AppConfig) -> (r: bool)
        ensures
            r == yes,
            ({
                let v = old(self)@;
                let name = v.pending_delete;
                if yes {
                    &&& final(self)@ == preset_deleted(v, name)
                    &&& *final(c) == (AppConfig {
                        static_clicker_presets: final(c).static_clicker_presets,
                        ..*old(c)
                    })
                    &&& final(c).presets() == presets::without_preset(old(c).presets(), name)
                } else {
                    &&& *final(c) == *old(c)
                    &&& final(self)@ == (ClickerView {
                        dialogs: Dialogs { delete: false, ..v.dialogs },
                        ..v
                    })
                }
            }),
    {
        if yes {
            let name: String = self.pending_delete_name.clone();
            c.delete_preset(name.as_str());
            self.forget_name(name.as_str());
            let status: String = about_preset(name.as_str(), "' deleted");
            self.tell(status, false);
        }
        self.dialogs.delete = false;
        yes
    }

    /// What the list of presets shows as selected.
    pub fn preset_label(&self) -> (r: String)
        ensures
            r@ == (if self@.preset_selected.len() == 0 {
                "— New Preset —"@
            } else {
                self@.preset_selected
            }),
    {
        if self.preset_selected.as_str().unicode_len() == 0 {
            "— New Preset —".to_owned()
        } else {
            self.preset_selected.clone()
        }
    }

    /// Whether a preset can be deleted: where one is meant and there are any.
    pub fn can_delete_preset(&self, c: &AppConfig) -> (r: bool)
        ensures
            r == (meant(self@).len() > 0 && c.presets().len() > 0),
    {
        let name: String = self.meant_name();
        name.as_str().unicode_len() > 0 && c.static_clicker_presets.len() > 0
    }

    /// Selects a preset, whose name is then also the one that is typed.
    pub fn select_preset(&mut self, name: String)
        ensures
            final(self)@ == (ClickerView {
                preset_selected: name@,
                preset_input: name@,
                ..old(self)@
            }),
    {
        self.preset_input = name.clone();
        self.preset_selected = name;
    }

    /// Selects no preset. What was typed stays.
    pub fn select_new_preset(&mut self)
        ensures
            final(self)@ == (ClickerView { preset_selected: Seq::empty(), ..old(self)@ }),
    {
        self.preset_selected = empty_text();
    }
}

/// Loading what was saved brings the settings back: whatever the window was set to in the
/// meantime, fields within their bounds, the targets and the title come back as they were.
pub proof fn law_preset_brings_settings_back(
    v: ClickerView,
    other: ClickerView,
    name: Seq<char>,
    found: usize,
)
    requires
        in_bounds(v.fields),
        interval_of(v.fields) <= u32::MAX,
        1 <= v.fields.repeat_count <= 999999,
    ensures
        ({
            let loaded = preset_applied(other, preset_of(v, name).settings, found);
            &&& loaded.targets == v.targets
            &&& loaded.title == v.title
            &&& v.fields.cursor_mode is Fixed ==> loaded.fields == v.fields
            &&& loaded.fields == (Fields {
                fixed_x: loaded.fields.fixed_x,
                fixed_y: loaded.fields.fixed_y,
                ..v.fields
            })
        }),
{
    lemma_interval_splits(v.fields);
    let p = preset_of(v, name).settings;
    let loaded = preset_applied(other, p, found);
    assert(with_interval(v.fields, p.interval_ms as int) == v.fields);
    assert(loaded.fields.hours == v.fields.hours);
    assert(loaded.fields.mins == v.fields.mins);
    assert(loaded.fields.secs == v.fields.secs);
    assert(loaded.fields.millis == v.fields.millis);
}

/// A preset that was saved through the window is there to be loaded.
pub proof fn law_saved_preset_can_be_loaded(
    v: ClickerView,
    list: Seq<model::PresetView>,
    name: Seq<char>,
)
    requires
        name.len() > 0,
    ensures
        meant(preset_saved(v, name)) == name,
        presets::found(presets::with_preset(list, preset_of(v, name)), name) == Some(
            preset_of(v, name),
        ),
{
    presets::law_saved_preset_is_found(list, preset_of(v, name));
}

// ---------------------------------------------------------------------------
// Start and stop
// ---------------------------------------------------------------------------

/// Why the clicker cannot start, if it cannot.
pub open spec fn refusal(v: ClickerView, window_alive: bool) -> Option<Seq<char>> {
    if v.fields.cursor_mode == CursorMode::MultiTarget && v.fields.sequence_enabled
        && v.targets.len() == 0 {
        Some("Add at least 1 target first"@)
    } else if !v.fields.foreground && v.window is None {
        Some("Background mode: pick a window first"@)
    } else if !v.fields.foreground && !window_alive {
        Some("Selected window is no longer valid — pick again"@)
    } else {
        None
    }
}

/// The cursor mode with the fixed point that the fields say.
pub open spec fn synced_cursor(f: Fields) -> CursorMode {
    match f.cursor_mode {
        CursorMode::Fixed { .. } => CursorMode::Fixed { x: f.fixed_x, y: f.fixed_y },
        other => other,
    }
}

/// A window whose clicker starts.
pub open spec fn started(v: ClickerView) -> ClickerView {
    let cursor = synced_cursor(v.fields);
    told(
        ClickerView {
            fields: Fields { cursor_mode: cursor, ..v.fields },
            clicks_done: 0,
            ..v
        },
        if cursor == CursorMode::MultiTarget && v.fields.sequence_enabled {
            "Running sequence… "@ + text::dec_nat(v.targets.len()) + " target(s)"@
        } else {
            "Running… interval "@ + text::dec_nat(interval_of(v.fields) as nat) + " ms"@
        },
        false,
    )
}

/// Whether a configuration is what the window is set to.
pub open spec fn is_config_of(c: StaticClickerConfig, v: ClickerView) -> bool {
    &&& c.interval_ms == interval_of(v.fields)
    &&& c.button == v.fields.button
    &&& c.click_type == v.fields.click_type
    &&& c.repeat == (if v.fields.repeat_until_stopped {
        RepeatMode::Infinite
    } else if v.fields.repeat_count < 1 {
        RepeatMode::Count(1)
    } else {
        RepeatMode::Count(v.fields.repeat_count as u32)
    })
    &&& c.cursor == synced_cursor(v.fields)
    &&& c.mode == (match v.window {
        Some(window) => if v.fields.foreground {
            ClickMode::Foreground
        } else {
            ClickMode::Background(window)
        },
        None => ClickMode::Foreground,
    })
    &&& c.sequence_targets@ == v.targets
    &&& c.sequence_enabled == v.fields.sequence_enabled
    &&& c.interval_jitter_ms == jitter_to(v.fields.interval_jitter_ms, MOST_INTERVAL_JITTER)
    &&& c.position_jitter_px == jitter_to(v.fields.position_jitter_px, MOST_POSITION_JITTER)
}

/// What the window has its clicker do.
#[derive(Debug)]
pub enum ClickerCommand {
    Nothing,
    /// Stop the clicker, wait for its end, and report how many clicks it made.
    StopAndWait,
    Start { config: StaticClickerConfig },
}

/// Whether something is being picked.
pub open spec fn is_picking(p: Picking) -> bool {
    p.location || p.window || p.sequence
}

/// Whether the hotkey is heeded: not while something is picked or the hotkey is being set,
/// nor while it has been held since it was last heeded.
pub open spec fn heeds_hotkey(v: ClickerView) -> bool {
    !is_picking(v.picking) && !v.dialogs.hotkey && !v.hotkeys.was_down
}

/// The status line of a number of clicks.
pub open spec fn clicks_told(word: Seq<char>, clicks: u32) -> Seq<char> {
    word + " — "@ + text::dec_nat(clicks as nat) + " clicks"@
}

fn clicks_text(word: &str, clicks: u32) -> (r: String)
    ensures
        r@ == clicks_told(word@, clicks),
{
    let mut s: String = word.to_owned();
    s.append(" — ");
    push_dec_nat(&mut s, clicks as u64);
    s.append(" clicks");
    s
}

impl StaticClickerWindow {
    fn config(&self, mode: ClickMode) -> (r: StaticClickerConfig)
        requires
            match mode {
                ClickMode::Foreground => self@.fields.foreground,
                ClickMode::Background(window) => !self@.fields.foreground && self@.window == Some(
                    window,
                ),
            },
        ensures
            is_config_of(r, self@),
    {
        let repeat: RepeatMode = if self.fields.repeat_until_stopped {
            RepeatMode::Infinite
        } else if self.fields.repeat_count < 1 {
            RepeatMode::Count(1)
        } else {
            RepeatMode::Count(self.fields.repeat_count as u32)
        };
        let cursor: CursorMode = match self.fields.cursor_mode {
            CursorMode::Fixed { .. } => CursorMode::Fixed {
                x: self.fields.fixed_x,
                y: self.fields.fixed_y,
            },
            other => other,
        };
        StaticClickerConfig {
            interval_ms: self.fields.total_ms(),
            button: self.fields.button,
            click_type: self.fields.click_type,
            repeat,
            cursor,
            mode,
            sequence_targets: copy_targets(&self.sequence_targets),
            sequence_enabled: self.fields.sequence_enabled,
            interval_jitter_ms: put_jitter(self.fields.interval_jitter_ms, MOST_INTERVAL_JITTER),
            position_jitter_px: put_jitter(self.fields.position_jitter_px, MOST_POSITION_JITTER),
        }
    }

    fn mark_started(&mut self)
        ensures
            final(self)@ == started(old(self)@),
    {
        let interval: u64 = self.fields.total_ms();
        if let CursorMode::Fixed { .. } = self.fields.cursor_mode {
            self.fields.cursor_mode = CursorMode::Fixed {
                x: self.fields.fixed_x,
                y: self.fields.fixed_y,
            };
        }
        self.clicks_done = 0;
        let mut s: String;
        if self.fields.cursor_mode == CursorMode::MultiTarget && self.fields.sequence_enabled {
            s = "Running sequence… ".to_owned();
            push_dec_nat(&mut s, self.sequence_targets.len() as u64);
            s.append(" target(s)");
        } else {
            s = "Running… interval ".to_owned();
            push_dec_nat(&mut s, interval);
            s.append(" ms");
        }
        self.tell(s, false);
    }

    /// Starts the clicker, unless it runs or cannot. `window_alive` says whether the window
    /// that is to be told of clicks is still there.
    pub fn start_clicker(&mut self, running: bool, window_alive: bool) -> (r: Option<
        StaticClickerConfig,
    >)
        ensures
            if running {
                r is None && final(self)@ == old(self)@
            } else {
                match refusal(old(self)@, window_alive) {
                    Some(why) => r is None && final(self)@ == told(old(self)@, why, true),
                    None => r is Some && is_config_of(r->Some_0, old(self)@) && final(self)@
                        == started(old(self)@),
                }
            },
    {
        if running {
            return None;
        }
        let multi: bool = self.fields.cursor_mode == CursorMode::MultiTarget
            && self.fields.sequence_enabled;
        if multi && self.sequence_targets.len() == 0 {
            self.tell("Add at least 1 target first".to_owned(), true);
            return None;
        }
        let mode: ClickMode = if self.fields.foreground {
            ClickMode::Foreground
        } else {
            match self.bg_hwnd {
                None => {
                    self.tell("Background mode: pick a window first".to_owned(), true);
                    return None;
                },
                Some(window) => {
                    if !window_alive {
                        self.tell(
                            "Selected window is no longer valid — pick again".to_owned(),
                            true,
                        );
                        return None;
                    }
                    ClickMode::Background(window)
                },
            }
        };
        let config: StaticClickerConfig = self.config(mode);
        self.mark_started();
        Some(config)
    }

    /// Notes that the clicker was asked to stop.
    pub fn stop_clicker(&mut self)
        ensures
            final(self)@ == told(old(self)@, "Stopping…"@, false),
    {
        self.tell("Stopping…".to_owned(), false);
    }

    /// Whether the hotkey is held, given the keys that are down.
    pub fn is_hotkey_down(&self, down: &HashSet<i32>) -> (r: bool)
        ensures
            r == keys::pressed(self@.hotkeys.own, down@),
    {
        is_hotkey_pressed(&self.hotkeys.own, down)
    }

    /// Handles the global hotkey: stops the clicker or starts it.
    pub fn handle_hotkey(&mut self, running: bool, window_alive: bool, down: &HashSet<i32>) -> (r:
        ClickerCommand)
        ensures
            ({
                let v = old(self)@;
                let latched = ClickerView {
                    hotkeys: Hotkeys {
                        was_down: keys::pressed(v.hotkeys.own, down@),
                        ..v.hotkeys
                    },
                    ..v
                };
                if !heeds_hotkey(v) {
                    r is Nothing && final(self)@ == v
                } else if running {
                    r is StopAndWait && final(self)@ == latched
                } else {
                    match refusal(v, window_alive) {
                        Some(why) => r is Nothing && final(self)@ == told(latched, why, true),
                        None => final(self)@ == started(latched) && (r matches ClickerCommand::Start {
                            config,
                        } && is_config_of(config, v)),
                    }
                }
            }),
    {
        if self.picking.location || self.picking.window || self.picking.sequence
            || self.dialogs.hotkey {
            return ClickerCommand::Nothing;
        }
        if self.hotkeys.was_down {
            return ClickerCommand::Nothing;
        }
        self.hotkeys.was_down = self.is_hotkey_down(down);
        if running {
            return ClickerCommand::StopAndWait;
        }
        match self.start_clicker(false, window_alive) {
            Some(config) => ClickerCommand::Start { config },
            None => ClickerCommand::Nothing,
        }
    }

    /// Notes that the clicker has stopped, and how many clicks it made.
    pub fn stopped(&mut self, clicks: u32)
        ensures
            final(self)@ == told(
                ClickerView { clicks_done: clicks, ..old(self)@ },
                clicks_told("Stopped"@, clicks),
                false,
            ),
    {
        self.clicks_done = clicks;
        self.tell(clicks_text("Stopped", clicks), false);
    }
}

/// The hotkey toggles: with the clicker stopped and nothing in the way, it starts it, and
/// while the hotkey is held, it does nothing more.
pub proof fn law_held_hotkey_acts_once(v: ClickerView, down: Set<i32>)
    requires
        heeds_hotkey(v),
        keys::pressed(v.hotkeys.own, down),
    ensures
        !heeds_hotkey(
            started(
                ClickerView {
                    hotkeys: Hotkeys {
                        was_down: keys::pressed(v.hotkeys.own, down),
                        ..v.hotkeys
                    },
                    ..v
                },
            ),
        ),
{
}

/// A clicker that starts has what it needs: targets where it runs through them, a window where
/// one is told of clicks; and its jitter keeps to the bounds.
pub proof fn law_started_clicker_is_complete(
    v: ClickerView,
    window_alive: bool,
    c: StaticClickerConfig,
)
    requires
        refusal(v, window_alive) is None,
        is_config_of(c, v),
    ensures
        c.interval_ms >= 1,
        c.cursor == CursorMode::MultiTarget && c.sequence_enabled ==> c.sequence_targets@.len() > 0,
        c.mode is Background <==> !v.fields.foreground,
        c.mode is Background ==> window_alive,
        c.interval_jitter_ms <= MOST_INTERVAL_JITTER,
        c.position_jitter_px <= MOST_POSITION_JITTER,
{
}

// ---------------------------------------------------------------------------
// Picking
// ---------------------------------------------------------------------------

/// What picking needs to know of the system.
#[derive(Debug, Clone, Copy, PartialEq, Eq)]
pub struct PickInput {
    pub escape: bool,
    pub left_down: bool,
    pub cursor: Option<(i32, i32)>,
    /// Whether the mouse is over a window of this program.
    pub over_app: bool,
    /// The top window under the mouse.
    pub window: Option<SafeHwnd>,
}

/// A window in which Escape has cancelled what was being picked.
pub open spec fn cancelled(v: ClickerView, escape: bool) -> ClickerView {
    let p = v.picking;
    if !escape {
        v
    } else {
        ClickerView {
            picking: Picking {
                location: false,
                location_armed: p.location_armed && !p.location,
                window: false,
                window_armed: p.window_armed && !p.window,
                sequence: false,
                sequence_armed: p.sequence_armed && !p.sequence,
            },
            status: if p.sequence {
                "Sequence picking cancelled"@
            } else if p.window {
                "Pick window cancelled"@
            } else if p.location {
                "Pick location cancelled"@
            } else {
                v.status
            },
            ..v
        }
    }
}

/// Whether a press of the left button picks: it must have been seen up before.
pub open spec fn picks(picking: bool, armed: bool, left_down: bool) -> bool {
    picking && armed && left_down
}

/// Whether a pick is armed after a look at the left button that did not pick.
pub open spec fn armed_after(picking: bool, armed: bool, left_down: bool) -> bool {
    armed || (picking && !left_down)
}

/// A window after a look whether the fixed point was picked.
pub open spec fn location_picked(v: ClickerView, i: PickInput) -> ClickerView {
    let p = v.picking;
    if picks(p.location, p.location_armed, i.left_down) {
        let done = Picking { location: false, location_armed: false, ..p };
        match i.cursor {
            Some((x, y)) => told(
                ClickerView {
                    fields: Fields {
                        fixed_x: x,
                        fixed_y: y,
                        cursor_mode: CursorMode::Fixed { x, y },
                        ..v.fields
                    },
                    picking: done,
                    ..v
                },
                "Location picked: "@ + text::dec(x as int) + " , "@ + text::dec(y as int),
                false,
            ),
            None => ClickerView { picking: done, ..v },
        }
    } else {
        ClickerView {
            picking: Picking {
                location_armed: armed_after(p.location, p.location_armed, i.left_down),
                ..p
            },
            ..v
        }
    }
}

/// The target that a pick adds.
pub open spec fn picked_target(x: i32, y: i32) -> SequenceTarget {
    SequenceTarget { x, y, clicks: 1, interval_ms: 500 }
}

/// A window after a look whether a target was picked. Clicks on this program's windows do not
/// count, and each press counts once.
pub open spec fn target_picked(v: ClickerView, i: PickInput) -> ClickerView {
    let p = v.picking;
    if p.sequence && v.fields.cursor_mode != CursorMode::MultiTarget {
        ClickerView { picking: Picking { sequence: false, sequence_armed: false, ..p }, ..v }
    } else if picks(p.sequence, p.sequence_armed, i.left_down) {
        let waiting = Picking { sequence_armed: false, ..p };
        match i.cursor {
            Some((x, y)) => if i.over_app {
                ClickerView { picking: waiting, ..v }
            } else {
                told(
                    ClickerView {
                        targets: v.targets.push(picked_target(x, y)),
                        picking: waiting,
                        ..v
                    },
                    "Target added: "@ + text::dec(x as int) + " , "@ + text::dec(y as int) + " ("@
                        + text::dec_nat(v.targets.len() + 1) + " total)"@,
                    false,
                )
            },
            None => ClickerView { picking: waiting, ..v },
        }
    } else {
        ClickerView {
            picking: Picking {
                sequence_armed: armed_after(p.sequence, p.sequence_armed, i.left_down),
                ..p
            },
            ..v
        }
    }
}

/// A window after a look whether a window was picked.
pub open spec fn window_picked(v: ClickerView, i: PickInput, title: Seq<char>) -> ClickerView {
    let p = v.picking;
    if picks(p.window, p.window_armed, i.left_down) {
        let done = ClickerView {
            picking: Picking { window: false, window_armed: false, ..p },
            ..v
        };
        if i.cursor is None {
            done
        } else {
            match i.window {
                None => told(done, "No window at cursor"@, true),
                Some(root) => told(
                    ClickerView { window: Some(root), title, ..done },
                    "Window picked: "@ + title,
                    false,
                ),
            }
        }
    } else {
        ClickerView {
            picking: Picking {
                window_armed: armed_after(p.window, p.window_armed, i.left_down),
                ..p
            },
            ..v
        }
    }
}

/// A window after a look at what is being picked.
pub open spec fn picking_polled(v: ClickerView, i: PickInput, title: Seq<char>) -> ClickerView {
    window_picked(target_picked(location_picked(cancelled(v, i.escape), i), i), i, title)
}

/// Whether a look at what is being picked changed something that is stored.
pub open spec fn picked_something(v: ClickerView, i: PickInput) -> bool {
    let a = cancelled(v, i.escape);
    let b = location_picked(a, i);
    let c = target_picked(b, i);
    ||| picks(a.picking.location, a.picking.location_armed, i.left_down) && i.cursor is Some
    ||| c.targets != b.targets
    ||| picks(c.picking.window, c.picking.window_armed, i.left_down) && i.cursor is Some
        && i.window is Some
}

impl StaticClickerWindow {
    fn cancel_picking(&mut self, escape: bool)
        ensures
            final(self)@ == cancelled(old(self)@, escape),
    {
        if escape {
            if self.picking.location {
                self.picking.location = false;
                self.picking.location_armed = false;
                self.status = "Pick location cancelled".to_owned();
            }
            if self.picking.window {
                self.picking.window = false;
                self.picking.window_armed = false;
                self.status = "Pick window cancelled".to_owned();
            }
            if self.picking.sequence {
                self.picking.sequence = false;
                self.picking.sequence_armed = false;
                self.status = "Sequence picking cancelled".to_owned();
            }
        }
    }

    fn pick_location(&mut self, i: &PickInput) -> (r: bool)
        ensures
            final(self)@ == location_picked(old(self)@, *i),
            r == (picks(
                old(self)@.picking.location,
                old(self)@.picking.location_armed,
                i.left_down,
            ) && i.cursor is Some),
    {
        if !self.picking.location {
            return false;
        }
        if !self.picking.location_armed {
            if !i.left_down {
                self.picking.location_armed = true;
            }
            return false;
        }
        if !i.left_down {
            return false;
        }
        let mut picked: bool = false;
        if let Some((x, y)) = i.cursor {
            self.fields.fixed_x = x;
            self.fields.fixed_y = y;
            self.fields.cursor_mode = CursorMode::Fixed { x, y };
            let mut s: String = "Location picked: ".to_owned();
            push_dec(&mut s, x as i64);
            s.append(" , ");
            push_dec(&mut s, y as i64);
            self.tell(s, false);
            picked = true;
        }
        self.picking.location = false;
        self.picking.location_armed = false;
        picked
    }

    fn pick_target(&mut self, i: &PickInput) -> (r: bool)
        ensures
            final(self)@ == target_picked(old(self)@, *i),
            r == (final(self)@.targets != old(self)@.targets),
    {
        if !self.picking.sequence {
            return false;
        }
        if self.fields.cursor_mode != CursorMode::MultiTarget {
            self.picking.sequence = false;
            self.picking.sequence_armed = false;
            return false;
        }
        if !self.picking.sequence_armed {
            if !i.left_down {
                self.picking.sequence_armed = true;
            }
            return false;
        }
        if !i.left_down {
            return false;
        }
        self.picking.sequence_armed = false;
        if let Some((x, y)) = i.cursor {
            if !i.over_app {
                self.sequence_targets.push(SequenceTarget { x, y, clicks: 1, interval_ms: 500 });
                let mut s: String = "Target added: ".to_owned();
                push_dec(&mut s, x as i64);
                s.append(" , ");
                push_dec(&mut s, y as i64);
                s.append(" (");
                push_dec_nat(&mut s, self.sequence_targets.len() as u64);
                s.append(" total)");
                self.tell(s, false);
                proof {
                    assert(self@.targets.len() != old(self)@.targets.len());
                }
                return true;
            }
        }
        false
    }

    fn pick_window(&mut self, i: &PickInput, title: &str) -> (r: bool)
        ensures
            final(self)@ == window_picked(old(self)@, *i, title@),
            r == (picks(
                old(self)@.picking.window,
                old(self)@.picking.window_armed,
                i.left_down,
            ) && i.cursor is Some && i.window is Some),
    {
        if !self.picking.window {
            return false;
        }
        if !self.picking.window_armed {
            if !i.left_down {
                self.picking.window_armed = true;
            }
            return false;
        }
        if !i.left_down {
            return false;
        }
        self.picking.window = false;
        self.picking.window_armed = false;
        if i.cursor.is_some() {
            match i.window {
                None => {
                    self.tell("No window at cursor".to_owned(), true);
                },
                Some(root) => {
                    self.bg_hwnd = Some(root);
                    self.bg_title = title.to_owned();
                    let mut s: String = "Window picked: ".to_owned();
                    s.append(title);
                    self.tell(s, false);
                    return true;
                },
            }
        }
        false
    }

    /// Looks at what is being picked. `title` is the title of the window under the mouse.
    /// Returns whether something that is stored has changed.
    pub fn poll_picking(&mut self, i: PickInput, title: &str) -> (r: bool)
        ensures
            final(self)@ == picking_polled(old(self)@, i, title@),
            r == picked_something(old(self)@, i),
    {
        self.cancel_picking(i.escape);
        let location: bool = self.pick_location(&i);
        let target: bool = self.pick_target(&i);
        let window: bool = self.pick_window(&i, title);
        location || target || window
    }

    /// Begins or ends picking the fixed point.
    pub fn toggle_pick_location(&mut self)
        ensures
            final(self)@ == (ClickerView {
                picking: Picking {
                    location: !old(self)@.picking.location,
                    location_armed: false,
                    ..old(self)@.picking
                },
                ..old(self)@
            }),
    {
        self.picking.location = !self.picking.location;
        self.picking.location_armed = false;
    }

    /// Begins or ends picking a window.
    pub fn toggle_pick_window(&mut self)
        ensures
            final(self)@ == (ClickerView {
                picking: Picking {
                    window: !old(self)@.picking.window,
                    window_armed: false,
                    ..old(self)@.picking
                },
                ..old(self)@
            }),
    {
        self.picking.window = !self.picking.window;
        self.picking.window_armed = false;
    }
}

/// A press that was already there when picking began picks nothing: the button has to be seen
/// up first.
pub proof fn law_pick_needs_a_fresh_press(v: ClickerView, i: PickInput, title: Seq<char>)
    requires
        !v.picking.location_armed,
        !v.picking.sequence_armed,
        !v.picking.window_armed,
    ensures
        !picked_something(v, i),
        picking_polled(v, i, title).fields == v.fields,
        picking_polled(v, i, title).targets == v.targets,
        picking_polled(v, i, title).window == v.window,
{
}

/// One press adds at most one target: holding the button adds no more.
pub proof fn law_one_press_adds_one_target(v: ClickerView, i: PickInput, again: PickInput)
    requires
        i.left_down,
        again.left_down,
    ensures
        target_picked(v, i).targets.len() <= v.targets.len() + 1,
        target_picked(target_picked(v, i), again).targets == target_picked(v, i).targets,
{
}

/// A click on one of this program's windows adds no target.
pub proof fn law_own_windows_are_no_targets(v: ClickerView, i: PickInput)
    requires
        i.over_app,
    ensures
        target_picked(v, i).targets == v.targets,
{
}

/// Escape ends all picking.
pub proof fn law_escape_ends_picking(v: ClickerView, i: PickInput, title: Seq<char>)
    requires
        i.escape,
    ensures
        !is_picking(picking_polled(v, i, title).picking),
        !picked_something(v, i),
{
}

// ---------------------------------------------------------------------------
// Following the clicker
// ---------------------------------------------------------------------------

/// How the end of the clicker is noted: as completed, as stopped, or with an error.
pub fn finish_note(completed: bool, error: Option<&str>) -> (r: String)
    ensures
        r@ == (match error {
            Some(e) => e@,
            None => if completed {
                "Completed"@
            } else {
                "Stopped"@
            },
        }),
{
    match error {
        Some(e) => e.to_owned(),
        None => if completed {
            "Completed".to_owned()
        } else {
            "Stopped".to_owned()
        },
    }
}

/// Whether the status line still says that the clicker runs or is stopping.
pub open spec fn says_running(status: Seq<char>) -> bool {
    text::begins_with(status, "Running"@) || text::begins_with(status, "Stopping"@)
}

/// A window after a look at its clicker: how many clicks it has made, whether the hotkey is
/// still held, and how it ended, if it did.
pub open spec fn clicker_polled(
    v: ClickerView,
    live: u32,
    running: bool,
    down: Set<i32>,
    note: Option<Seq<char>>,
) -> ClickerView {
    let w = ClickerView {
        clicks_done: live,
        hotkeys: Hotkeys {
            was_down: v.hotkeys.was_down && keys::pressed(v.hotkeys.own, down),
            ..v.hotkeys
        },
        ..v
    };
    if !running && says_running(v.status) {
        match note {
            Some(n) => if n == "Completed"@ {
                told(w, clicks_told("Completed"@, live), false)
            } else if n == "Stopped"@ {
                told(w, clicks_told("Stopped"@, live), false)
            } else {
                told(w, n, true)
            },
            None => told(w, clicks_told("Stopped"@, live), false),
        }
    } else {
        w
    }
}

impl StaticClickerWindow {
    /// Looks at the clicker. `note` says how it ended, and is taken once it has been told.
    pub fn poll_f6_hotkey(
        &mut self,
        live: u32,
        running: bool,
        down: &HashSet<i32>,
        note: &mut Option<String>,
    )
        ensures
            final(self)@ == clicker_polled(
                old(self)@,
                live,
                running,
                down@,
                model::opt_text(*old(note)),
            ),
            *final(note) == (if !running && says_running(old(self)@.status) {
                None
            } else {
                *old(note)
            }),
    {
        self.clicks_done = live;
        if !self.is_hotkey_down(down) {
            self.hotkeys.was_down = false;
        }
        let says: bool = starts_with(self.status.as_str(), "Running") || starts_with(
            self.status.as_str(),
            "Stopping",
        );
        if !running && says {
            match note.take() {
                Some(n) => {
                    if same_text(n.as_str(), "Completed") {
                        self.tell(clicks_text("Completed", live), false);
                    } else if same_text(n.as_str(), "Stopped") {
                        self.tell(clicks_text("Stopped", live), false);
                    } else {
                        self.tell(n, true);
                    }
                },
                None => {
                    self.tell(clicks_text("Stopped", live), false);
                },
            }
        }
    }

    /// Leaves the window for another: nothing is picked, and the hotkey is not being set.
    pub fn on_leave(&mut self)
        ensures
            final(self)@ == (ClickerView {
                picking: no_picking(),
                dialogs: Dialogs { hotkey: false, capturing: false, ..old(self)@.dialogs },
                ..old(self)@
            }),
    {
        self.clear_picking();
        self.dialogs.hotkey = false;
        self.dialogs.capturing = false;
    }

    fn clear_picking(&mut self)
        ensures
            final(self)@ == (ClickerView { picking: no_picking(), ..old(self)@ }),
    {
        self.picking = Picking {
            location: false,
            location_armed: false,
            window: false,
            window_armed: false,
            sequence: false,
            sequence_armed: false,
        };
    }

    /// Stops all picking at once. The clicker is stopped as well.
    pub fn emergency_stop(&mut self)
        ensures
            final(self)@ == told(
                ClickerView { picking: no_picking(), ..old(self)@ },
                "⚠ Emergency stop triggered"@,
                true,
            ),
    {
        self.clear_picking();
        self.tell("⚠ Emergency stop triggered".to_owned(), true);
    }

    /// What the status line shows.
    pub fn status_line(&self, running: bool) -> (r: String)
        ensures
            r@ == (if running {
                "Running… "@ + text::dec_nat(self@.clicks_done as nat) + " clicks"@
            } else {
                self@.status
            }),
    {
        if running {
            let mut s: String = "Running… ".to_owned();
            push_dec_nat(&mut s, self.clicks_done as u64);
            s.append(" clicks");
            s
        } else {
            self.status.clone()
        }
    }

    /// Explains the two ways of clicking.
    pub fn help(&mut self)
        ensures
            final(self)@ == told(
                old(self)@,
                "Foreground = moves cursor (works everywhere). Background = PostMessage (no cursor move, fails on some games)"@,
                false,
            ),
    {
        self.tell(
            "Foreground = moves cursor (works everywhere). Background = PostMessage (no cursor move, fails on some games)".to_owned(),
            false,
        );
    }
}

/// A started clicker that has ended is told of: the status line no longer says that it runs.
pub proof fn law_end_is_told(
    v: ClickerView,
    live: u32,
    down: Set<i32>,
    completed: bool,
)
    requires
        says_running(v.status),
    ensures
        ({
            let note = if completed {
                "Completed"@
            } else {
                "Stopped"@
            };
            let after = clicker_polled(v, live, false, down, Some(note));
            &&& after.status == clicks_told(note, live)
            &&& !after.warning
        }),
{
    reveal_strlit("Completed");
    reveal_strlit("Stopped");
    assert("Completed"@.len() != "Stopped"@.len());
}

// ---------------------------------------------------------------------------
// The hotkey
// ---------------------------------------------------------------------------

/// The recording hotkeys that the clicker's hotkey is the same as.
pub open spec fn conflicts_of(h: Hotkeys) -> Seq<Seq<char>> {
    if h.own.key == 0 {
        Seq::empty()
    } else {
        (if h.own == h.record {
            seq!["Record"@]
        } else {
            Seq::empty()
        }) + (if h.own == h.play {
            seq!["Play"@]
        } else {
            Seq::empty()
        }) + (if h.own == h.stop {
            seq!["Stop"@]
        } else {
            Seq::empty()
        })
    }
}

impl StaticClickerWindow {
    /// Whether the hotkey is being set. Global hotkeys are suspended meanwhile.
    pub fn hotkey_dialog_open(&self) -> (r: bool)
        ensures
            r == self@.dialogs.hotkey,
    {
        self.dialogs.hotkey
    }

    /// Opens the dialog in which the hotkey is set.
    pub fn open_hotkey_dialog(&mut self, c: &AppConfig)
        ensures
            ({
                let b = config::bindings_of(c.hotkeys@);
                final(self)@ == (ClickerView {
                    hotkeys: Hotkeys {
                        record: b.record,
                        play: b.play,
                        stop: b.stop,
                        ..old(self)@.hotkeys
                    },
                    dialogs: Dialogs { hotkey: true, capturing: false, ..old(self)@.dialogs },
                    ..old(self)@
                })
            }),
    {
        let b: SettingsBindings = SettingsBindings::from_map(Some(&c.hotkeys));
        self.hotkeys.record = b.record;
        self.hotkeys.play = b.play;
        self.hotkeys.stop = b.stop;
        self.dialogs.capturing = false;
        self.dialogs.hotkey = true;
    }

    /// Begins to catch the hotkey.
    pub fn begin_capture(&mut self)
        ensures
            final(self)@ == (ClickerView {
                dialogs: Dialogs { capturing: true, ..old(self)@.dialogs },
                ..old(self)@
            }),
    {
        self.dialogs.capturing = true;
    }

    /// Takes the combination that was caught, if one is being caught and was.
    pub fn captured(&mut self, combo: Option<HotkeyCombo>)
        ensures
            final(self)@ == (match combo {
                Some(own) => if old(self)@.dialogs.capturing {
                    ClickerView {
                        hotkeys: Hotkeys { own, ..old(self)@.hotkeys },
                        dialogs: Dialogs { capturing: false, ..old(self)@.dialogs },
                        ..old(self)@
                    }
                } else {
                    old(self)@
                },
                None => old(self)@,
            }),
    {
        if let Some(own) = combo {
            if self.dialogs.capturing {
                self.hotkeys.own = own;
                self.dialogs.capturing = false;
            }
        }
    }

    /// Takes the hotkey away.
    pub fn clear_hotkey(&mut self)
        ensures
            final(self)@ == (ClickerView {
                hotkeys: Hotkeys {
                    own: HotkeyCombo { modifiers: 0, key: 0 },
                    ..old(self)@.hotkeys
                },
                ..old(self)@
            }),
    {
        self.hotkeys.own = HotkeyCombo::none();
    }

    /// The recording hotkeys that the hotkey is the same as. While there are any, it cannot be
    /// taken over.
    pub fn hotkey_conflicts(&self) -> (r: Vec<String>)
        ensures
            text::views(r@) == conflicts_of(self@.hotkeys),
    {
        let h: Hotkeys = self.hotkeys;
        let mut list: Vec<String> = Vec::new();
        if h.own.key != 0 {
            if h.own == h.record {
                list.push("Record".to_owned());
            }
            if h.own == h.play {
                list.push("Play".to_owned());
            }
            if h.own == h.stop {
                list.push("Stop".to_owned());
            }
        }
        proof {
            assert(text::views(list@) =~= conflicts_of(self@.hotkeys));
        }
        list
    }

    /// Takes the hotkey over and stores it.
    pub fn confirm_hotkey(&mut self, c: &mut AppConfig)
        ensures
            final(self)@ == told(
                ClickerView {
                    dialogs: Dialogs { hotkey: false, ..old(self)@.dialogs },
                    ..old(self)@
                },
                "Hotkey set: "@ + old(self)@.hotkeys.own.spec_display() + " — press to Start/Stop"@,
                false,
            ),
            *final(c) == (AppConfig { hotkeys: final(c).hotkeys, ..*old(c) }),
            final(c).hotkeys@ == config::map_of(
                SettingsBindings {
                    static_clicker: old(self)@.hotkeys.own,
                    ..config::bindings_of(old(c).hotkeys@)
                },
            ),
    {
        c.store_static_hotkey(self.hotkeys.own);
        self.dialogs.hotkey = false;
        let mut s: String = "Hotkey set: ".to_owned();
        s.append(self.hotkeys.own.display_owned().as_str());
        s.append(" — press to Start/Stop");
        self.tell(s, false);
    }

    /// Closes the dialog and takes the stored hotkey again.
    pub fn cancel_hotkey(&mut self, c: &AppConfig)
        ensures
            final(self)@ == (ClickerView {
                hotkeys: Hotkeys {
                    own: config::bindings_of(c.hotkeys@).static_clicker,
                    ..old(self)@.hotkeys
                },
                dialogs: Dialogs { hotkey: false, ..old(self)@.dialogs },
                ..old(self)@
            }),
    {
        let b: SettingsBindings = SettingsBindings::from_map(Some(&c.hotkeys));
        self.hotkeys.own = b.static_clicker;
        self.dialogs.hotkey = false;
    }

    /// Closes the dialog. The hotkey stays as it was set there.
    pub fn close_hotkey_dialog(&mut self)
        ensures
            final(self)@ == (ClickerView {
                dialogs: Dialogs { hotkey: false, capturing: false, ..old(self)@.dialogs },
                ..old(self)@
            }),
    {
        self.dialogs.hotkey = false;
        self.dialogs.capturing = false;
    }

    /// What the button of the hotkey shows.
    pub fn hotkey_button(&self) -> (r: String)
        ensures
            r@ == (if self@.dialogs.capturing {
                "⌨ Press hotkey… (Esc = clear)"@
            } else {
                self@.hotkeys.own.spec_display()
            }),
    {
        if self.dialogs.capturing {
            "⌨ Press hotkey… (Esc = clear)".to_owned()
        } else {
            self.hotkeys.own.display_owned()
        }
    }
}

/// The warning that the hotkey is the same as a recording hotkey.
pub fn conflict_text(name: &str) -> (r: String)
    ensures
        r@ == "Conflicts with Recording hotkey: "@ + name@,
{
    let mut s: String = "Conflicts with Recording hotkey: ".to_owned();
    s.append(name);
    s
}

// ---------------------------------------------------------------------------
// What is shown
// ---------------------------------------------------------------------------

/// How much room the list of targets takes beside the settings.
#[derive(Debug, Clone, Copy, PartialEq, Eq, Structural)]
pub enum SideRoom {
    Nothing,
    /// A narrow strip.
    Strip,
    /// The width of the list.
    Full,
}

/// Whether the list of targets stands in this window.
pub open spec fn docked(v: ClickerView) -> bool {
    v.fields.cursor_mode == CursorMode::MultiTarget && !v.panel.popped_out
}

/// Whether each target has its own interval, so that the common one does not count.
pub open spec fn own_intervals(v: ClickerView) -> bool {
    v.fields.cursor_mode == CursorMode::MultiTarget && v.fields.sequence_enabled
}

impl StaticClickerWindow {
    /// Whether the list of targets stands in this window.
    pub fn is_docked_panel_active(&self) -> (r: bool)
        ensures
            r == docked(self@),
    {
        self.fields.cursor_mode == CursorMode::MultiTarget && !self.panel.popped_out
    }

    /// Whether the list of targets stands in a window of its own.
    pub fn is_popped_out(&self) -> (r: bool)
        ensures
            r == (self@.fields.cursor_mode == CursorMode::MultiTarget && self@.panel.popped_out),
    {
        self.fields.cursor_mode == CursorMode::MultiTarget && self.panel.popped_out
    }

    /// How much room the list of targets takes beside the settings.
    pub fn side_room(&self) -> (r: SideRoom)
        ensures
            r == (if !docked(self@) {
                SideRoom::Nothing
            } else if self@.panel.collapsed {
                SideRoom::Strip
            } else {
                SideRoom::Full
            }),
    {
        if !self.is_docked_panel_active() {
            SideRoom::Nothing
        } else if self.panel.collapsed {
            SideRoom::Strip
        } else {
            SideRoom::Full
        }
    }

    /// Whether each target has its own interval, so that the common one does not count.
    pub fn interval_overridden(&self) -> (r: bool)
        ensures
            r == own_intervals(self@),
    {
        self.fields.cursor_mode == CursorMode::MultiTarget && self.fields.sequence_enabled
    }

    /// The interval in words.
    pub fn interval_text(&self) -> (r: String)
        ensures
            r@ == "= "@ + text::dec_nat(interval_of(self@.fields) as nat) + " ms total"@ + (
            if own_intervals(self@) {
                " — overridden (Multi Target active)"@
            } else {
                Seq::empty()
            }),
    {
        let mut s: String = "= ".to_owned();
        push_dec_nat(&mut s, self.fields.total_ms());
        s.append(" ms total");
        if self.interval_overridden() {
            s.append(" — overridden (Multi Target active)");
        } else {
            proof {
                assert(s@ + Seq::<char>::empty() =~= s@);
            }
        }
        s
    }

    /// Whether the window warns that there are no targets.
    pub fn lacks_targets(&self) -> (r: bool)
        ensures
            r == (own_intervals(self@) && self@.targets.len() == 0),
    {
        self.interval_overridden() && self.sequence_targets.len() == 0
    }

    /// The number of targets, followed by a word.
    pub fn targets_text(&self, word: &str) -> (r: String)
        ensures
            r@ == text::dec_nat(self@.targets.len()) + word@,
    {
        let mut s: String = empty_text();
        push_dec_nat(&mut s, self.sequence_targets.len() as u64);
        proof {
            assert(s@ =~= text::dec_nat(self@.targets.len()));
        }
        s.append(word);
        s
    }

    /// The title of the window that is told of clicks.
    pub fn window_text(&self) -> (r: String)
        ensures
            r@ == (if self@.title.len() == 0 {
                "(no window selected)"@
            } else {
                self@.title
            }),
    {
        if self.bg_title.as_str().unicode_len() == 0 {
            "(no window selected)".to_owned()
        } else {
            self.bg_title.clone()
        }
    }

    /// What the button that picks the fixed point shows.
    pub fn pick_location_label(&self) -> (r: &'static str)
        ensures
            r@ == (if self@.picking.location {
                "Click anywhere… (Esc to cancel)"@
            } else {
                "Pick location"@
            }),
    {
        if self.picking.location {
            "Click anywhere… (Esc to cancel)"
        } else {
            "Pick location"
        }
    }

    /// What the button that picks a window shows.
    pub fn pick_window_label(&self) -> (r: &'static str)
        ensures
            r@ == (if self@.picking.window {
                "Click target window… (Esc to cancel)"@
            } else {
                "Pick window"@
            }),
    {
        if self.picking.window {
            "Click target window… (Esc to cancel)"
        } else {
            "Pick window"
        }
    }

    /// A word and the hotkey.
    pub fn with_hotkey(&self, word: &str) -> (r: String)
        ensures
            r@ == word@ + " ("@ + self@.hotkeys.own.spec_display() + ")"@,
    {
        let mut s: String = word.to_owned();
        s.append(" (");
        s.append(self.hotkeys.own.display_owned().as_str());
        s.append(")");
        s
    }

    /// Chooses the fixed point.
    pub fn choose_fixed(&mut self)
        ensures
            final(self)@ == (ClickerView {
                fields: Fields {
                    cursor_mode: CursorMode::Fixed {
                        x: old(self)@.fields.fixed_x,
                        y: old(self)@.fields.fixed_y,
                    },
                    ..old(self)@.fields
                },
                ..old(self)@
            }),
    {
        self.fields.cursor_mode = CursorMode::Fixed {
            x: self.fields.fixed_x,
            y: self.fields.fixed_y,
        };
    }

    /// Brings the fixed point that is chosen in line with the fields.
    pub fn sync_fixed(&mut self)
        ensures
            final(self)@ == (ClickerView {
                fields: Fields {
                    cursor_mode: synced_cursor(old(self)@.fields),
                    ..old(self)@.fields
                },
                ..old(self)@
            }),
    {
        if let CursorMode::Fixed { .. } = self.fields.cursor_mode {
            self.fields.cursor_mode = CursorMode::Fixed {
                x: self.fields.fixed_x,
                y: self.fields.fixed_y,
            };
        }
    }

    /// Whether the window is to be put on top now: once, as it opens.
    pub fn take_top_request(&mut self) -> (r: bool)
        ensures
            r == (!old(self)@.top_initialized && old(self)@.always_on_top),
            final(self)@ == (ClickerView { top_initialized: true, ..old(self)@ }),
    {
        if self.top_initialized {
            return false;
        }
        self.top_initialized = true;
        self.always_on_top
    }
}

// ---------------------------------------------------------------------------
// What is done in the list of targets
// ---------------------------------------------------------------------------

/// A window after something was done in the list of targets.
pub open spec fn after_panel_action(v: ClickerView, action: PanelAction) -> ClickerView {
    ClickerView {
        fields: Fields {
            sequence_enabled: sequence_window::enabled_after(v.fields.sequence_enabled, action),
            ..v.fields
        },
        picking: Picking {
            sequence: sequence_window::picking_after(v.picking.sequence, action),
            ..v.picking
        },
        panel: Panel {
            popped_out: sequence_window::popped_out_after(v.panel.popped_out, action),
            expanded_row: sequence_window::open_after(v.panel.expanded_row, action),
            ..v.panel
        },
        targets: sequence_window::targets_after(v.targets, action),
        ..v
    }
}

/// Whether what is stored of how the list of targets is shown differs: the row that is open is
/// not stored.
pub open spec fn panel_differs(a: Panel, b: Panel) -> bool {
    a.collapsed != b.collapsed || a.width != b.width || a.popped_out != b.popped_out
}

impl StaticClickerWindow {
    /// Does something in the list of targets. Returns whether the settings of the clicker are
    /// to be stored.
    pub fn panel_action(&mut self, action: PanelAction) -> (store: bool)
        requires
            action.is_within(old(self)@.targets.len()),
        ensures
            final(self)@ == after_panel_action(old(self)@, action),
            store == action.is_stored(),
    {
        let open: Option<usize> = change_targets(
            &mut self.sequence_targets,
            self.panel.expanded_row,
            action,
        );
        let (enabled, picking, popped_out) = change_switches(
            self.fields.sequence_enabled,
            self.picking.sequence,
            self.panel.popped_out,
            action,
        );
        self.fields = Fields { sequence_enabled: enabled, ..self.fields };
        self.picking = Picking { sequence: picking, ..self.picking };
        self.panel = Panel { popped_out, expanded_row: open, ..self.panel };
        action.stores()
    }

    /// Folds the list of targets into a strip, or unfolds it.
    pub fn set_collapsed(&mut self, collapsed: bool)
        ensures
            final(self)@ == (ClickerView {
                panel: Panel { collapsed, ..old(self)@.panel },
                ..old(self)@
            }),
    {
        self.panel.collapsed = collapsed;
    }

    /// Moves the list of targets back because its window was closed.
    pub fn close_popped_out(&mut self)
        ensures
            final(self)@ == (ClickerView {
                panel: Panel { popped_out: false, ..old(self)@.panel },
                ..old(self)@
            }),
    {
        self.panel.popped_out = false;
    }

    /// Forgets, where no targets are picked, that the mouse button was seen up.
    pub fn settle_picking(&mut self)
        ensures
            final(self)@ == (ClickerView {
                picking: Picking {
                    sequence_armed: old(self)@.picking.sequence_armed
                        && old(self)@.picking.sequence,
                    ..old(self)@.picking
                },
                ..old(self)@
            }),
    {
        if !self.picking.sequence {
            self.picking.sequence_armed = false;
        }
    }

    /// Whether how the list of targets is shown is to be stored, given how it was shown
    /// before.
    pub fn panel_changed(&self, before: Panel) -> (r: bool)
        ensures
            r == panel_differs(before, self@.panel),
    {
        before.collapsed != self.panel.collapsed || before.width != self.panel.width
            || before.popped_out != self.panel.popped_out
    }
}

/// What is done in the list and not stored changes nothing that is stored: neither the
/// settings of the clicker nor how the list is shown. Left out are values on the way.
pub proof fn law_unstored_action_changes_nothing_stored(
    v: ClickerView,
    action: PanelAction,
    before: AppConfig,
    after: AppConfig,
)
    requires
        action is TogglePicking || action is ToggleRow,
    ensures
        !action.is_stored(),
        stores(after_panel_action(v, action), before, after) == stores(v, before, after),
        !panel_differs(v.panel, after_panel_action(v, action).panel),
{
}

/// Only moving the list into a window of its own or back changes how it is shown, as far as
/// that is stored.
pub proof fn law_only_popping_out_stores_the_panel(v: ClickerView, action: PanelAction)
    ensures
        panel_differs(v.panel, after_panel_action(v, action).panel) == (action is PopOut),
{
}

/// A value on the way is stored in the end: the same edit, done, leaves the same window and is
/// stored.
pub proof fn law_done_edit_is_stored(v: ClickerView, row: usize, x: i32, y: i32, n: i32)
    ensures
        after_panel_action(v, (PanelAction::EditPoint { row, x, y, done: true }))
            == after_panel_action(v, (PanelAction::EditPoint { row, x, y, done: false })),
        after_panel_action(v, (PanelAction::EditClicks { row, clicks: n, done: true }))
            == after_panel_action(v, (PanelAction::EditClicks { row, clicks: n, done: false })),
        after_panel_action(v, (PanelAction::EditInterval { row, interval_ms: n, done: true }))
            == after_panel_action(
            v,
            (PanelAction::EditInterval { row, interval_ms: n, done: false }),
        ),
        (PanelAction::EditPoint { row, x, y, done: true }).is_stored(),
        (PanelAction::EditClicks { row, clicks: n, done: true }).is_stored(),
        (PanelAction::EditInterval { row, interval_ms: n, done: true }).is_stored(),
{
}

// ---------------------------------------------------------------------------
// What can be changed
// ---------------------------------------------------------------------------

/// What the window offers for a change.
#[derive(Debug, Clone, Copy, PartialEq, Eq, Structural)]
pub struct ClickerOffers {
    pub start: bool,
    pub stop: bool,
    /// The interval that all clicks have in common.
    pub interval: bool,
    /// The jitters, the repetition, the position and how clicks are made.
    pub settings: bool,
    pub repeat_count: bool,
    pub pick_location: bool,
    /// The coordinates of the fixed point.
    pub point: bool,
}

/// What a window offers for a change while the clicker runs or not.
pub open spec fn clicker_offers(v: ClickerView, running: bool) -> ClickerOffers {
    ClickerOffers {
        start: !running,
        stop: running,
        interval: !running && !own_intervals(v),
        settings: !running,
        repeat_count: !running && !v.fields.repeat_until_stopped,
        pick_location: !running && v.fields.cursor_mode != CursorMode::MultiTarget,
        point: !running && v.fields.cursor_mode is Fixed,
    }
}

impl StaticClickerWindow {
    /// What the window offers for a change.
    pub fn offers(&self, running: bool) -> (r: ClickerOffers)
        ensures
            r == clicker_offers(self@, running),
    {
        let (multi_target, fixed) = match self.fields.cursor_mode {
            CursorMode::MultiTarget => (true, false),
            CursorMode::Fixed { .. } => (false, true),
            CursorMode::Current => (false, false),
        };
        ClickerOffers {
            start: !running,
            stop: running,
            interval: !running && !self.interval_overridden(),
            settings: !running,
            repeat_count: !running && !self.fields.repeat_until_stopped,
            pick_location: !running && !multi_target,
            point: !running && fixed,
        }
    }
}

/// Of what is offered for a change, only the stop is left while the clicker runs.
pub proof fn law_running_clicker_offers_only_its_stop(v: ClickerView)
    ensures
        clicker_offers(v, true) == (ClickerOffers {
            start: false,
            stop: true,
            interval: false,
            settings: false,
            repeat_count: false,
            pick_location: false,
            point: false,
        }),
{
}

/// An interval that is offered for a change is stored once its edit is done.
pub proof fn law_offered_interval_is_stored(v: ClickerView, running: bool)
    requires
        clicker_offers(v, running).interval,
    ensures
        interval_stored(v, true),
{
}

// ---------------------------------------------------------------------------
// When settings are stored
// ---------------------------------------------------------------------------

/// Whether the interval is stored after an edit of it, which was done or not.
pub open spec fn interval_stored(v: ClickerView, done: bool) -> bool {
    done && !own_intervals(v)
}

/// Whether the choices of what is clicked differ.
pub open spec fn options_differ(a: Fields, b: Fields) -> bool {
    a.button != b.button || a.click_type != b.click_type
}

/// Whether the choices of how often is clicked differ. The number is not a choice.
pub open spec fn repeats_differ(a: Fields, b: Fields) -> bool {
    a.repeat_until_stopped != b.repeat_until_stopped
}

/// Whether the choices of where is clicked differ.
pub open spec fn positions_differ(a: Fields, b: Fields) -> bool {
    a.cursor_mode != b.cursor_mode
}

/// Whether the choices of how clicks are made, or the titles of the windows that get them,
/// differ.
pub open spec fn modes_differ(a: Fields, a_title: Seq<char>, b: Fields, b_title: Seq<char>) -> bool {
    a.foreground != b.foreground || a_title != b_title
}

impl StaticClickerWindow {
    /// Whether to store after a look at the interval, of which a number was edited to the end
    /// or not. While each target has its own interval, the common one is not stored.
    pub fn interval_edited(&self, done: bool) -> (store: bool)
        ensures
            store == interval_stored(self@, done),
    {
        done && !self.interval_overridden()
    }

    /// Brings the deviation of the interval into its bounds once it was edited to the end.
    /// Returns whether to store.
    pub fn interval_jitter_edited(&mut self, done: bool) -> (store: bool)
        ensures
            store == done,
            final(self)@ == (if done {
                ClickerView {
                    fields: Fields {
                        interval_jitter_ms: model::clamp(
                            old(self)@.fields.interval_jitter_ms as int,
                            0,
                            MOST_INTERVAL_JITTER as int,
                        ) as i32,
                        ..old(self)@.fields
                    },
                    ..old(self)@
                }
            } else {
                old(self)@
            }),
    {
        if done {
            self.fields.interval_jitter_ms = clamp_i32(
                self.fields.interval_jitter_ms,
                0,
                MOST_INTERVAL_JITTER,
            );
        }
        done
    }

    /// Brings the deviation of the position into its bounds once it was edited to the end.
    /// Returns whether to store.
    pub fn position_jitter_edited(&mut self, done: bool) -> (store: bool)
        ensures
            store == done,
            final(self)@ == (if done {
                ClickerView {
                    fields: Fields {
                        position_jitter_px: model::clamp(
                            old(self)@.fields.position_jitter_px as int,
                            0,
                            MOST_POSITION_JITTER as int,
                        ) as i32,
                        ..old(self)@.fields
                    },
                    ..old(self)@
                }
            } else {
                old(self)@
            }),
    {
        if done {
            self.fields.position_jitter_px = clamp_i32(
                self.fields.position_jitter_px,
                0,
                MOST_POSITION_JITTER,
            );
        }
        done
    }

    /// Whether to store after a look at what is clicked, given the fields before: where a
    /// choice has changed.
    pub fn options_changed(&self, before: Fields) -> (store: bool)
        ensures
            store == options_differ(before, self@.fields),
    {
        before.button != self.fields.button || before.click_type != self.fields.click_type
    }

    /// Whether to store after a look at the repetition, given the fields before: where the
    /// choice has changed or the number was edited to the end.
    pub fn repeat_changed(&self, before: Fields, done: bool) -> (store: bool)
        ensures
            store == (repeats_differ(before, self@.fields) || done),
    {
        before.repeat_until_stopped != self.fields.repeat_until_stopped || done
    }

    /// Whether to store after a look at the position, given the fields before: where the
    /// choice has changed or a coordinate was edited to the end.
    pub fn position_changed(&self, before: Fields, done: bool) -> (store: bool)
        ensures
            store == (positions_differ(before, self@.fields) || done),
    {
        before.cursor_mode != self.fields.cursor_mode || done
    }

    /// Whether to store after a look at how clicks are made, given the fields and the title of
    /// the window before: where either has changed.
    pub fn mode_changed(&self, before: Fields, title: &str) -> (store: bool)
        ensures
            store == modes_differ(before, title@, self@.fields, self@.title),
    {
        before.foreground != self.fields.foreground || !same_text(title, self.bg_title.as_str())
    }

    /// Puts the window on top of others or not, and stores that.
    pub fn choose_always_on_top(&mut self, on: bool, c: &mut AppConfig)
        ensures
            final(self)@ == (ClickerView { always_on_top: on, ..old(self)@ }),
            *final(c) == (AppConfig { always_on_top: on, ..*old(c) }),
    {
        self.always_on_top = on;
        c.store_always_on_top(on);
    }
}

/// Nothing that is stored changes unseen: where no choice differs, no number that is edited
/// does, and the list is the same, the same settings are stored.
pub proof fn law_every_choice_is_watched(
    a: ClickerView,
    b: ClickerView,
    before: AppConfig,
    after: AppConfig,
)
    requires
        !options_differ(a.fields, b.fields),
        !repeats_differ(a.fields, b.fields),
        !positions_differ(a.fields, b.fields),
        !modes_differ(a.fields, a.title, b.fields, b.title),
        interval_of(a.fields) == interval_of(b.fields),
        a.fields.interval_jitter_ms == b.fields.interval_jitter_ms,
        a.fields.position_jitter_px == b.fields.position_jitter_px,
        a.fields.repeat_count == b.fields.repeat_count,
        a.fields.sequence_enabled == b.fields.sequence_enabled,
        a.targets == b.targets,
    ensures
        stores(a, before, after) == stores(b, before, after),
{
}

/// What is stored of a jitter is the same before and after it was brought into its bounds.
pub proof fn law_bounding_a_jitter_keeps_what_is_stored(n: i32, most: i32)
    requires
        0 <= most,
    ensures
        jitter_to(model::clamp(n as int, 0, most as int) as i32, most) == jitter_to(n, most),
{
}

/// The name of a mouse button among those that can be chosen.
pub fn button_name(b: MouseButton) -> (r: &'static str)
    ensures
        r@ == (match b {
            MouseButton::Right => "Right"@,
            MouseButton::Middle => "Middle"@,
            _ => "Left"@,
        }),
{
    match b {
        MouseButton::Left => "Left",
        MouseButton::Right => "Right",
        MouseButton::Middle => "Middle",
        _ => "Left",
    }
}

/// The name of a click type.
pub fn click_type_name(t: ClickType) -> (r: &'static str)
    ensures
        r@ == (match t {
            ClickType::Single => "Single"@,
            ClickType::Double => "Double"@,
        }),
{
    match t {
        ClickType::Single => "Single",
        ClickType::Double => "Double",
    }
}

} // verus!
