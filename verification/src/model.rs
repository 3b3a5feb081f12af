//! The vocabulary that the recorder, the player, the macro files and the windows share.
//!
//! - The delay of an event is the time *before* it: since the previous kept event.
//! - Coordinates are absolute, in the space of the virtual desktop.
//! - A wheel notch is a delta of plus or minus 120.

use vstd::prelude::*;

use crate::double::{Double, QUARTER_BITS, TEN_BITS};
use crate::text::{push_dec, push_hex2_upper};

verus! {

/// Kind of input captured during recording and replayed during playback.
#[derive(Debug, Clone, Copy, PartialEq, Eq, Structural)]
pub enum MacroEventType {
    MouseMove,
    MouseDown,
    MouseUp,
    MouseWheel,
    KeyDown,
    KeyUp,
}

/// Mouse button identifiers.
#[derive(Debug, Clone, Copy, PartialEq, Eq, Structural, Hash)]
pub enum MouseButton {
    NoButton,
    Left,
    Right,
    Middle,
    X1,
    X2,
}

impl Default for MouseButton {
    fn default() -> (r: Self)
        ensures
            r == MouseButton::NoButton,
    {
        MouseButton::NoButton
    }
}

impl MouseButton {
    /// The bit flag of the button.
    pub open spec fn spec_flag(self) -> i32 {
        match self {
            MouseButton::NoButton => 0,
            MouseButton::Left => 1,
            MouseButton::Right => 2,
            MouseButton::Middle => 4,
            MouseButton::X1 => 8,
            MouseButton::X2 => 16,
        }
    }

    /// The bit flag of the button.
    pub fn flag(self) -> (r: i32)
        ensures
            r == self.spec_flag(),
    {
        match self {
            MouseButton::NoButton => 0,
            MouseButton::Left => 1,
            MouseButton::Right => 2,
            MouseButton::Middle => 4,
            MouseButton::X1 => 8,
            MouseButton::X2 => 16,
        }
    }

    /// The name of the button.
    pub open spec fn spec_name(self) -> Seq<char> {
        match self {
            MouseButton::NoButton => "None"@,
            MouseButton::Left => "Left"@,
            MouseButton::Right => "Right"@,
            MouseButton::Middle => "Middle"@,
            MouseButton::X1 => "X1"@,
            MouseButton::X2 => "X2"@,
        }
    }

    /// The name of the button.
    pub fn name(self) -> (r: &'static str)
        ensures
            r@ == self.spec_name(),
    {
        match self {
            MouseButton::NoButton => "None",
            MouseButton::Left => "Left",
            MouseButton::Right => "Right",
            MouseButton::Middle => "Middle",
            MouseButton::X1 => "X1",
            MouseButton::X2 => "X2",
        }
    }
}

/// Target for sequence clicking (Multi Target mode).
#[derive(Debug, Clone, Copy, PartialEq, Eq, Structural)]
pub struct SequenceTarget {
    pub x: i32,
    pub y: i32,
    pub clicks: u32,
    pub interval_ms: u32,
}

/// The number of clicks of a target that names none.
pub fn default_sequence_clicks() -> (r: u32)
    ensures
        r == 1,
{
    1
}

/// The interval of a target that names none.
pub fn default_sequence_interval() -> (r: u32)
    ensures
        r == 500,
{
    500
}

impl Default for SequenceTarget {
    fn default() -> (r: Self)
        ensures
            r == (SequenceTarget { x: 0, y: 0, clicks: 1, interval_ms: 500 }),
    {
        SequenceTarget {
            x: 0,
            y: 0,
            clicks: default_sequence_clicks(),
            interval_ms: default_sequence_interval(),
        }
    }
}

#[derive(Debug, Clone, Copy, PartialEq, Eq, Structural)]
pub enum ClickType {
    Single,
    Double,
}

impl Default for ClickType {
    fn default() -> (r: Self)
        ensures
            r == ClickType::Single,
    {
        ClickType::Single
    }
}

#[derive(Debug, Clone, Copy, PartialEq, Eq, Structural)]
pub enum CursorMode {
    Current,
    Fixed { x: i32, y: i32 },
    MultiTarget,
}

impl Default for CursorMode {
    fn default() -> (r: Self)
        ensures
            r == CursorMode::Current,
    {
        CursorMode::Current
    }
}

/// A complete snapshot of the static clicker settings, under a name.
#[derive(Debug, PartialEq)]
pub struct StaticClickerPreset {
    pub name: String,
    pub interval_ms: u32,
    pub interval_jitter_ms: u32,
    pub position_jitter_px: u32,
    pub button: MouseButton,
    pub click_type: ClickType,
    pub repeat_until_stopped: bool,
    pub repeat_count: u32,
    pub cursor_mode: CursorMode,
    pub foreground: bool,
    pub bg_title: String,
    pub sequence_targets: Vec<SequenceTarget>,
    pub sequence_enabled: bool,
}

/// What a preset holds, without its name.
pub struct PresetSettings {
    pub interval_ms: u32,
    pub interval_jitter_ms: u32,
    pub position_jitter_px: u32,
    pub button: MouseButton,
    pub click_type: ClickType,
    pub repeat_until_stopped: bool,
    pub repeat_count: u32,
    pub cursor_mode: CursorMode,
    pub foreground: bool,
    pub bg_title: Seq<char>,
    pub sequence_targets: Seq<SequenceTarget>,
    pub sequence_enabled: bool,
}

/// A preset as a mathematical value.
pub struct PresetView {
    pub name: Seq<char>,
    pub settings: PresetSettings,
}

impl View for StaticClickerPreset {
    type V = PresetView;

    open spec fn view(&self) -> PresetView {
        PresetView {
            name: self.name@,
            settings: PresetSettings {
                interval_ms: self.interval_ms,
                interval_jitter_ms: self.interval_jitter_ms,
                position_jitter_px: self.position_jitter_px,
                button: self.button,
                click_type: self.click_type,
                repeat_until_stopped: self.repeat_until_stopped,
                repeat_count: self.repeat_count,
                cursor_mode: self.cursor_mode,
                foreground: self.foreground,
                bg_title: self.bg_title@,
                sequence_targets: self.sequence_targets@,
                sequence_enabled: self.sequence_enabled,
            },
        }
    }
}

/// A copy of a list of targets.
pub fn copy_targets(targets: &Vec<SequenceTarget>) -> (r: Vec<SequenceTarget>)
    ensures
        r@ == targets@,
{
    let r: Vec<SequenceTarget> = targets.clone();
    assert(r@ =~= targets@);
    r
}

impl Clone for StaticClickerPreset {
    fn clone(&self) -> (r: Self)
        ensures
            r@ == self@,
    {
        StaticClickerPreset {
            name: self.name.clone(),
            interval_ms: self.interval_ms,
            interval_jitter_ms: self.interval_jitter_ms,
            position_jitter_px: self.position_jitter_px,
            button: self.button,
            click_type: self.click_type,
            repeat_until_stopped: self.repeat_until_stopped,
            repeat_count: self.repeat_count,
            cursor_mode: self.cursor_mode,
            foreground: self.foreground,
            bg_title: self.bg_title.clone(),
            sequence_targets: copy_targets(&self.sequence_targets),
            sequence_enabled: self.sequence_enabled,
        }
    }
}

/// One recorded input sample.
#[derive(Debug, Clone, Copy, PartialEq, Eq, Structural)]
pub struct MacroEvent {
    pub event_type: MacroEventType,
    pub x: i32,
    pub y: i32,
    pub button: MouseButton,
    /// Virtual key code (only for key events).
    pub key_code: i32,
    /// Raw scan code captured by the low-level hook.
    pub scan_code: i32,
    /// Wheel delta.
    pub wheel_delta: i32,
    /// Milliseconds since the previous *kept* event.
    pub delay_ms: i32,
}

/// A coordinate pair as it is shown.
pub open spec fn point_text(x: int, y: int) -> Seq<char> {
    "("@ + crate::text::dec(x) + ", "@ + crate::text::dec(y) + ")"@
}

/// A key code as it is shown: in base ten, and in base sixteen as the 32 bits that hold it.
pub open spec fn key_text(k: i32) -> Seq<char> {
    "VK "@ + crate::text::dec(k as int) + " (0x"@ + crate::text::pad2(
        crate::text::hex_upper(word(k)),
    ) + ")"@
}

/// The 32 bits of a signed number, read as an unsigned one.
pub open spec fn word(k: i32) -> nat {
    if k < 0 {
        (k + 0x1_0000_0000) as nat
    } else {
        k as nat
    }
}

/// The 32 bits of a signed number, read as an unsigned one.
pub fn word_of(k: i32) -> (r: u32)
    ensures
        r == word(k),
{
    if k < 0 {
        (k as i64 + 0x1_0000_0000) as u32
    } else {
        k as u32
    }
}

fn push_point(s: &mut String, x: i32, y: i32)
    ensures
        final(s)@ == old(s)@ + point_text(x as int, y as int),
{
    s.append("(");
    push_dec(s, x as i64);
    s.append(", ");
    push_dec(s, y as i64);
    s.append(")");
    assert(s@ =~= old(s)@ + point_text(x as int, y as int));
}

fn push_key(s: &mut String, k: i32)
    ensures
        final(s)@ == old(s)@ + key_text(k),
{
    s.append("VK ");
    push_dec(s, k as i64);
    s.append(" (0x");
    push_hex2_upper(s, word_of(k));
    s.append(")");
    assert(s@ =~= old(s)@ + key_text(k));
}

impl MacroEvent {
    /// The line that describes the event.
    pub open spec fn spec_description(self) -> Seq<char> {
        match self.event_type {
            MacroEventType::MouseMove => "Move  "@ + point_text(self.x as int, self.y as int),
            MacroEventType::MouseDown => "Down  "@ + self.button.spec_name() + " "@ + point_text(
                self.x as int,
                self.y as int,
            ),
            MacroEventType::MouseUp => "Up    "@ + self.button.spec_name() + " "@ + point_text(
                self.x as int,
                self.y as int,
            ),
            MacroEventType::MouseWheel => {
                if self.wheel_delta >= 0 {
                    "Wheel +"@ + crate::text::dec(self.wheel_delta as int)
                } else {
                    "Wheel "@ + crate::text::dec(self.wheel_delta as int)
                }
            },
            MacroEventType::KeyDown => "KeyDown  "@ + key_text(self.key_code),
            MacroEventType::KeyUp => "KeyUp    "@ + key_text(self.key_code),
        }
    }

    /// The line that describes the event.
    pub fn description(&self) -> (r: String)
        ensures
            r@ == self.spec_description(),
    {
        match self.event_type {
            MacroEventType::MouseMove => {
                let mut s: String = "Move  ".to_owned();
                push_point(&mut s, self.x, self.y);
                s
            },
            MacroEventType::MouseDown => {
                let mut s: String = "Down  ".to_owned();
                s.append(self.button.name());
                s.append(" ");
                push_point(&mut s, self.x, self.y);
                s
            },
            MacroEventType::MouseUp => {
                let mut s: String = "Up    ".to_owned();
                s.append(self.button.name());
                s.append(" ");
                push_point(&mut s, self.x, self.y);
                s
            },
            MacroEventType::MouseWheel => {
                let mut s: String = if self.wheel_delta >= 0 {
                    "Wheel +".to_owned()
                } else {
                    "Wheel ".to_owned()
                };
                push_dec(&mut s, self.wheel_delta as i64);
                s
            },
            MacroEventType::KeyDown => {
                let mut s: String = "KeyDown  ".to_owned();
                push_key(&mut s, self.key_code);
                s
            },
            MacroEventType::KeyUp => {
                let mut s: String = "KeyUp    ".to_owned();
                push_key(&mut s, self.key_code);
                s
            },
        }
    }
}

/// A copy of a list of events.
pub fn copy_events(events: &Vec<MacroEvent>) -> (r: Vec<MacroEvent>)
    ensures
        r@ == events@,
{
    let r: Vec<MacroEvent> = events.clone();
    assert(r@ =~= events@);
    r
}

/// Complete macro: event list plus the playback settings that are saved with it.
#[derive(Debug)]
pub struct MacroData {
    pub app_name: String,
    pub format_version: i32,
    pub saved_at_utc: Option<String>,
    pub speed: Double,
    pub loop_count: i32,
    pub infinite_loop: bool,
    pub interval_ms: i32,
    pub events: Vec<MacroEvent>,
}

/// A macro as a mathematical value.
#[verifier::ext_equal]
pub struct MacroView {
    pub app_name: Seq<char>,
    pub format_version: i32,
    pub saved_at_utc: Option<Seq<char>>,
    pub speed: Double,
    pub loop_count: i32,
    pub infinite_loop: bool,
    pub interval_ms: i32,
    pub events: Seq<MacroEvent>,
}

/// The text that an optional string holds.
pub open spec fn opt_text(s: Option<String>) -> Option<Seq<char>> {
    match s {
        Some(t) => Some(t@),
        None => None,
    }
}

impl View for MacroData {
    type V = MacroView;

    open spec fn view(&self) -> MacroView {
        MacroView {
            app_name: self.app_name@,
            format_version: self.format_version,
            saved_at_utc: opt_text(self.saved_at_utc),
            speed: self.speed,
            loop_count: self.loop_count,
            infinite_loop: self.infinite_loop,
            interval_ms: self.interval_ms,
            events: self.events@,
        }
    }
}

/// The name under which macros are saved.
pub fn default_app_name() -> (r: String)
    ensures
        r@ == "Clickei"@,
{
    "Clickei".to_owned()
}

/// The format version of a macro that names none.
pub fn default_format_version() -> (r: i32)
    ensures
        r == 1,
{
    1
}

/// The speed of a macro that names none.
pub fn default_speed() -> (r: Double)
    ensures
        r.bits == crate::double::ONE_BITS,
{
    Double::one()
}

/// The loop count of a macro that names none.
pub fn default_loop_count() -> (r: i32)
    ensures
        r == 1,
{
    1
}

/// A macro with these events and settings that nothing has changed yet.
pub open spec fn plain_macro(events: Seq<MacroEvent>) -> MacroView {
    MacroView {
        app_name: "Clickei"@,
        format_version: 1,
        saved_at_utc: None,
        speed: Double { bits: crate::double::ONE_BITS },
        loop_count: 1,
        infinite_loop: false,
        interval_ms: 0,
        events,
    }
}

impl Default for MacroData {
    fn default() -> (r: Self)
        ensures
            r@ == plain_macro(Seq::empty()),
    {
        MacroData::of_events(Vec::new())
    }
}

impl Clone for MacroData {
    fn clone(&self) -> (r: Self)
        ensures
            r@ == self@,
    {
        MacroData {
            app_name: self.app_name.clone(),
            format_version: self.format_version,
            saved_at_utc: match &self.saved_at_utc {
                Some(t) => Some(t.clone()),
                None => None,
            },
            speed: self.speed,
            loop_count: self.loop_count,
            infinite_loop: self.infinite_loop,
            interval_ms: self.interval_ms,
            events: copy_events(&self.events),
        }
    }
}

/// A number moved to the nearer bound where it lies outside `low` to `high`.
pub open spec fn clamp(n: int, low: int, high: int) -> int {
    if n < low {
        low
    } else if n > high {
        high
    } else {
        n
    }
}

/// Clamps a number to a range.
pub fn clamp_i32(n: i32, low: i32, high: i32) -> (r: i32)
    requires
        low <= high,
    ensures
        r == clamp(n as int, low as int, high as int),
{
    if n < low {
        low
    } else if n > high {
        high
    } else {
        n
    }
}

/// The speed that a macro plays at: one where the stored speed is zero or not finite,
/// else the stored speed, brought into the range from a quarter to ten.
pub open spec fn sane_speed(speed: Double) -> Double {
    if !speed.finite() || speed.value() == 0 {
        Double { bits: crate::double::ONE_BITS }
    } else {
        speed.spec_clamp(Double { bits: QUARTER_BITS }, Double { bits: TEN_BITS })
    }
}

/// An event whose delay is not negative.
pub open spec fn sane_event(e: MacroEvent) -> MacroEvent {
    if e.delay_ms < 0 {
        MacroEvent { delay_ms: 0, ..e }
    } else {
        e
    }
}

/// A macro with its playback settings brought into bounds.
pub open spec fn sane_macro(d: MacroView) -> MacroView {
    MacroView {
        speed: sane_speed(d.speed),
        loop_count: clamp(d.loop_count as int, 1, 9999) as i32,
        interval_ms: if d.interval_ms < 0 {
            0
        } else {
            d.interval_ms
        },
        format_version: if d.format_version == 0 {
            1
        } else {
            d.format_version
        },
        events: d.events.map_values(|e: MacroEvent| sane_event(e)),
        ..d
    }
}

impl MacroData {
    /// A macro with these events and default settings.
    pub fn of_events(events: Vec<MacroEvent>) -> (r: MacroData)
        ensures
            r@ == plain_macro(events@),
    {
        MacroData {
            app_name: default_app_name(),
            format_version: default_format_version(),
            saved_at_utc: None,
            speed: default_speed(),
            loop_count: default_loop_count(),
            infinite_loop: false,
            interval_ms: 0,
            events,
        }
    }

    pub fn event_count(&self) -> (r: usize)
        ensures
            r == self@.events.len(),
    {
        self.events.len()
    }

    /// Clamps the playback settings to sane bounds.
    pub fn sanitize(&mut self)
        ensures
            final(self)@ == sane_macro(old(self)@),
    {
        proof {
            lemma_bounds_are_numbers();
        }
        if !self.speed.is_finite() || self.speed.is_zero() {
            self.speed = Double::one();
        } else {
            self.speed = self.speed.clamp_to(Double { bits: QUARTER_BITS }, Double { bits: TEN_BITS });
        }
        self.loop_count = clamp_i32(self.loop_count, 1, 9999);
        if self.interval_ms < 0 {
            self.interval_ms = 0;
        }
        if self.format_version == 0 {
            self.format_version = 1;
        }
        let ghost before = self.events@;
        let mut i: usize = 0;
        while i < self.events.len()
            invariant
                i <= self.events.len(),
                self.events.len() == before.len(),
                forall|k: int| 0 <= k < i ==> self.events@[k] == sane_event(#[trigger] before[k]),
                forall|k: int| i <= k < before.len() ==> self.events@[k] == before[k],
                self.app_name == old(self).app_name,
                self.saved_at_utc == old(self).saved_at_utc,
                self.infinite_loop == old(self).infinite_loop,
                self.speed == sane_speed(old(self).speed),
                self.loop_count == clamp(old(self).loop_count as int, 1, 9999),
                self.interval_ms == sane_macro(old(self)@).interval_ms,
                self.format_version == sane_macro(old(self)@).format_version,
            decreases self.events.len() - i,
        {
            if self.events[i].delay_ms < 0 {
                let e: MacroEvent = MacroEvent { delay_ms: 0, ..self.events[i] };
                self.events.set(i, e);
            }
            i = i + 1;
        }
        proof {
            assert(self.events@ =~= sane_macro(old(self)@).events);
        }
    }
}

proof fn lemma_bounds_are_numbers()
    ensures
        !(Double { bits: QUARTER_BITS }).nan(),
        !(Double { bits: TEN_BITS }).nan(),
        (Double { bits: QUARTER_BITS }).finite(),
        (Double { bits: TEN_BITS }).finite(),
        (Double { bits: crate::double::ONE_BITS }).finite(),
{
}

/// Sanitizing a sanitized macro changes nothing.
pub proof fn law_sanitize_is_idempotent(d: MacroView)
    ensures
        sane_macro(sane_macro(d)) == sane_macro(d),
{
    let q = Double { bits: QUARTER_BITS };
    let t = Double { bits: TEN_BITS };
    lemma_bounds_are_numbers();
    crate::double::law_named_doubles();
    vstd::arithmetic::power2::lemma_pow2_pos(1074);
    let once = sane_macro(d);
    assert(sane_speed(once.speed) == once.speed);
    assert(sane_macro(once).events =~= once.events);
}

/// A sanitized macro plays at a finite speed between a quarter and ten, one to 9999 times,
/// and never waits for a negative time.
pub proof fn law_sanitized_macro_is_in_bounds(d: MacroView)
    ensures
        ({
            let s = sane_macro(d);
            &&& s.speed.finite()
            &&& (Double { bits: QUARTER_BITS }).value() <= s.speed.value() <= (Double {
                bits: TEN_BITS,
            }).value()
            &&& 1 <= s.loop_count <= 9999
            &&& s.interval_ms >= 0
            &&& s.events.len() == d.events.len()
            &&& forall|i: int| 0 <= i < s.events.len() ==> (#[trigger] s.events[i]).delay_ms >= 0
        }),
{
    lemma_bounds_are_numbers();
    crate::double::law_named_doubles();
    vstd::arithmetic::power2::lemma_pow2_pos(1074);
}

/// Clamping moves a number no farther than to the nearer bound: what lies inside stays, and
/// nothing inside is nearer to the number than the result.
pub proof fn law_clamp_moves_no_farther_than_needed(n: i32, low: i32, high: i32, other: i32, r: i32)
    requires
        low <= other <= high,
        call_ensures(clamp_i32, (n, low, high), r),
    ensures
        low <= r <= high,
        low <= n <= high ==> r == n,
        n <= r ==> r <= other || n == r,
        r <= n ==> other <= r || n == r,
{
}

/// Every button has a bit of its own.
pub proof fn law_buttons_have_bits_of_their_own(a: MouseButton, b: MouseButton, fa: i32, fb: i32)
    requires
        call_ensures(MouseButton::flag, (a,), fa),
        call_ensures(MouseButton::flag, (b,), fb),
    ensures
        fa == fb <==> a == b,
        fa == 0 <==> a is NoButton,
        a is Left && b is Right ==> fb == 2 * fa && fa == 1,
        a is Right && b is Middle ==> fb == 2 * fa,
        a is Middle && b is X1 ==> fb == 2 * fa,
        a is X1 && b is X2 ==> fb == 2 * fa,
{
}

/// No two buttons have one name.
pub proof fn law_buttons_have_names_of_their_own(a: MouseButton, b: MouseButton)
    ensures
        a.spec_name() == b.spec_name() <==> a == b,
        a is X1 ==> a.spec_name() == seq!['X', '1'],
        a is X2 ==> a.spec_name() == seq!['X', '2'],
        a is Left ==> a.spec_name()[0] == 'L',
        a is Right ==> a.spec_name()[0] == 'R',
        a is Middle ==> a.spec_name()[0] == 'M',
        a is NoButton ==> a.spec_name()[0] == 'N',
{
    reveal_strlit("None");
    reveal_strlit("Left");
    reveal_strlit("Right");
    reveal_strlit("Middle");
    reveal_strlit("X1");
    reveal_strlit("X2");
    assert("None"@[0] == 'N');
    assert("Left"@[0] == 'L');
    assert("Right"@[0] == 'R');
    assert("Middle"@[0] == 'M');
    assert("X1"@[0] == 'X' && "X1"@[1] == '1');
    assert("X2"@[0] == 'X' && "X2"@[1] == '2');
}

/// The bits of a number read as unsigned differ from it by a multiple of two to the power of
/// 32, and not at all where it is not negative.
pub proof fn law_word_keeps_the_bits(k: i32, r: u32)
    requires
        call_ensures(word_of, (k,), r),
    ensures
        (r - k) % 0x1_0000_0000 == 0,
        k >= 0 ==> r == k,
        k < 0 ==> r >= 0x8000_0000,
{
}

/// A macro that needs no sanitizing is left as it is: one that plays at a finite speed between
/// a quarter and ten, one to 9999 times, with no negative wait, in a format that has a number.
pub proof fn law_sane_macro_is_left_alone(d: MacroView)
    requires
        d.speed.finite(),
        vstd::arithmetic::power2::pow2(1074) <= 4 * d.speed.value(),
        d.speed.value() <= 10 * vstd::arithmetic::power2::pow2(1074),
        1 <= d.loop_count <= 9999,
        d.interval_ms >= 0,
        d.format_version != 0,
        forall|i: int| 0 <= i < d.events.len() ==> (#[trigger] d.events[i]).delay_ms >= 0,
    ensures
        sane_macro(d) == d,
{
    crate::double::law_named_doubles();
    vstd::arithmetic::power2::lemma_pow2_pos(1074);
    assert(sane_macro(d).events =~= d.events);
}

/// Sanitizing brings each value to the nearer of its bounds, takes what is no speed for the
/// speed one, and leaves everything else of the macro and of its events alone.
pub proof fn law_sanitize_changes_no_more_than_needed(m: &mut MacroData)
    requires
        call_ensures(MacroData::sanitize, (m,), ()),
    ensures
        ({
            let d = old(m)@;
            let s = final(m)@;
            let one = vstd::arithmetic::power2::pow2(1074);
            &&& !d.speed.finite() || d.speed.value() == 0 ==> s.speed.value() == one
            &&& d.speed.finite() && d.speed.value() != 0 && 4 * d.speed.value() < one ==> 4
                * s.speed.value() == one
            &&& d.speed.finite() && d.speed.value() > 10 * one ==> s.speed.value() == 10 * one
            &&& d.loop_count < 1 ==> s.loop_count == 1
            &&& d.loop_count > 9999 ==> s.loop_count == 9999
            &&& d.interval_ms < 0 ==> s.interval_ms == 0
            &&& d.format_version == 0 ==> s.format_version == 1
            &&& d.format_version != 0 ==> s.format_version == d.format_version
            &&& s.app_name == d.app_name
            &&& s.saved_at_utc == d.saved_at_utc
            &&& s.infinite_loop == d.infinite_loop
            &&& s.events.len() == d.events.len()
            &&& forall|i: int|
                0 <= i < d.events.len() ==> {
                    &&& (#[trigger] s.events[i]).event_type == d.events[i].event_type
                    &&& s.events[i].x == d.events[i].x && s.events[i].y == d.events[i].y
                    &&& s.events[i].button == d.events[i].button
                    &&& s.events[i].key_code == d.events[i].key_code
                    &&& s.events[i].scan_code == d.events[i].scan_code
                    &&& s.events[i].wheel_delta == d.events[i].wheel_delta
                    &&& s.events[i].delay_ms == if d.events[i].delay_ms < 0 {
                        0
                    } else {
                        d.events[i].delay_ms
                    }
                }
        }),
{
    crate::double::law_named_doubles();
    vstd::arithmetic::power2::lemma_pow2_pos(1074);
}

/// A macro made of events has just these, plays them once at the speed one without a wait, and
/// is sane where they are.
pub proof fn law_macro_of_events_plays_them_once(events: Vec<MacroEvent>, r: MacroData)
    requires
        call_ensures(MacroData::of_events, (events,), r),
    ensures
        r.events@ == events@,
        r.loop_count == 1 && !r.infinite_loop && r.interval_ms == 0,
        r.speed.value() == vstd::arithmetic::power2::pow2(1074),
        r.saved_at_utc is None,
        (forall|i: int| 0 <= i < events@.len() ==> (#[trigger] events@[i]).delay_ms >= 0)
            ==> sane_macro(r@) == r@,
{
    crate::double::law_named_doubles();
    vstd::arithmetic::power2::lemma_pow2_pos(1074);
    if forall|i: int| 0 <= i < events@.len() ==> (#[trigger] events@[i]).delay_ms >= 0 {
        law_sane_macro_is_left_alone(r@);
    }
}

/// The line of a wheel event shows its sign; the line of a mouse event ends with its point, and
/// that of a key event with its key.
pub proof fn law_description_shows_the_event(e: MacroEvent)
    ensures
        ({
            let line = e.spec_description();
            let point = point_text(e.x as int, e.y as int);
            let key = key_text(e.key_code);
            match e.event_type {
                MacroEventType::MouseMove => line[0] == 'M' && line.skip(
                    line.len() - point.len(),
                ) == point,
                MacroEventType::MouseDown => line[0] == 'D' && line.skip(
                    line.len() - point.len(),
                ) == point,
                MacroEventType::MouseUp => line[0] == 'U' && line.skip(line.len() - point.len())
                    == point,
                MacroEventType::MouseWheel => {
                    &&& line.len() > 7
                    &&& line[6] == if e.wheel_delta < 0 {
                        '-'
                    } else {
                        '+'
                    }
                    &&& crate::text::dec_value(line.skip(7)) == if e.wheel_delta < 0 {
                        -e.wheel_delta
                    } else {
                        e.wheel_delta as int
                    }
                },
                MacroEventType::KeyDown => line[3] == 'D' && line.skip(line.len() - key.len())
                    == key,
                MacroEventType::KeyUp => line[3] == 'U' && line.skip(line.len() - key.len()) == key,
            }
        }),
{
    reveal_strlit("Move  ");
    reveal_strlit("Down  ");
    reveal_strlit("Up    ");
    reveal_strlit("Wheel ");
    reveal_strlit("Wheel +");
    reveal_strlit("KeyDown  ");
    reveal_strlit("KeyUp    ");
    let line = e.spec_description();
    let point = point_text(e.x as int, e.y as int);
    let key = key_text(e.key_code);
    match e.event_type {
        MacroEventType::MouseMove | MacroEventType::MouseDown | MacroEventType::MouseUp => {
            assert(line.skip(line.len() - point.len()) =~= point);
        },
        MacroEventType::KeyDown | MacroEventType::KeyUp => {
            assert(line.skip(line.len() - key.len()) =~= key);
        },
        MacroEventType::MouseWheel => {
            let n = e.wheel_delta as int;
            crate::text::law_negative_numbers_have_a_sign(n);
            if n < 0 {
                assert(line.skip(7) =~= crate::text::dec(n).skip(1));
                assert(line[6] == crate::text::dec(n)[0]);
            } else {
                crate::text::lemma_dec_nat_nonempty(n as nat);
                assert(line.skip(7) =~= crate::text::dec(n));
            }
        },
    }
}

} // verus!
