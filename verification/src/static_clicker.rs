//! The auto clicker: its settings, its random variation, and its switches.
//!
//! What it does from click to click stands in `run`, what one click takes in `tick`.

pub mod pace;
pub mod run;
pub mod tick;

use vstd::prelude::*;

use crate::hooks::SafeHwnd;
use crate::model::{ClickType, CursorMode, MouseButton, SequenceTarget};

verus! {

/// How often the clicker clicks, or runs through its targets.
#[derive(Debug, Clone, Copy, PartialEq, Eq, Structural)]
pub enum RepeatMode {
    Count(u32),
    Infinite,
}

impl RepeatMode {
    /// The number of repeats, if there is an end.
    pub open spec fn spec_total(self) -> Option<u32> {
        match self {
            RepeatMode::Count(n) => Some(n),
            RepeatMode::Infinite => None,
        }
    }

    /// The number of repeats, if there is an end.
    pub fn total(self) -> (r: Option<u32>)
        ensures
            r == self.spec_total(),
    {
        match self {
            RepeatMode::Count(n) => Some(n),
            RepeatMode::Infinite => None,
        }
    }
}

/// How a click reaches its window.
#[derive(Debug, Clone, Copy, PartialEq, Eq, Structural)]
pub enum ClickMode {
    /// The mouse itself clicks.
    Foreground,
    /// A window is told of a click.
    Background(SafeHwnd),
}

/// The settings of the clicker.
#[derive(Debug)]
pub struct StaticClickerConfig {
    /// Milliseconds between clicks, at least 1.
    pub interval_ms: u64,
    pub button: MouseButton,
    pub click_type: ClickType,
    pub repeat: RepeatMode,
    pub cursor: CursorMode,
    pub mode: ClickMode,
    pub sequence_targets: Vec<SequenceTarget>,
    pub sequence_enabled: bool,
    pub interval_jitter_ms: u32,
    pub position_jitter_px: u32,
}

/// An interval, at least a millisecond.
pub open spec fn at_least_one(ms: u64) -> u64 {
    if ms < 1 {
        1
    } else {
        ms
    }
}

impl StaticClickerConfig {
    /// The interval between clicks, at least a millisecond.
    pub fn interval_ms_clamped(&self) -> (r: u64)
        ensures
            r == at_least_one(self.interval_ms),
    {
        if self.interval_ms < 1 {
            1
        } else {
            self.interval_ms
        }
    }
}

// ---------------------------------------------------------------------------
// Random variation
// ---------------------------------------------------------------------------

/// A random number of a range, both ends included. Calls `rand::Rng::gen_range` on the
/// generator of the thread with an inclusive range. Claimed is that the number lies in the
/// range; which number it is, is up to chance. The call panics on an empty range, so the
/// range must not be empty.
#[verifier::external_body]
fn random_between(low: i64, high: i64) -> (r: i64)
    requires
        low <= high,
    ensures
        low <= r <= high,
{
    rand::Rng::gen_range(&mut rand::thread_rng(), low..=high)
}

/// A random deviation of at most so much in either direction. None where there is no jitter.
pub fn random_deviation(jitter: u32) -> (r: i64)
    ensures
        -jitter <= r <= jitter,
{
    if jitter == 0 {
        return 0;
    }
    random_between(-(jitter as i64), jitter as i64)
}

/// A number, brought into the range of 64 bits with a sign.
pub open spec fn saturated(n: int) -> int {
    if n > i64::MAX {
        i64::MAX as int
    } else if n < i64::MIN {
        i64::MIN as int
    } else {
        n
    }
}

/// The 64 bits of an unsigned number, read as a signed one.
pub open spec fn signed64(n: u64) -> int {
    if n > i64::MAX {
        n - 0x1_0000_0000_0000_0000
    } else {
        n as int
    }
}

/// An interval that deviates by so much, at least a millisecond. Without jitter it is
/// unchanged.
pub open spec fn deviated_interval(base_ms: u64, jitter_ms: u32, delta: i64) -> u64 {
    if jitter_ms == 0 {
        base_ms
    } else if saturated(signed64(base_ms) + delta) < 1 {
        1
    } else {
        saturated(signed64(base_ms) + delta) as u64
    }
}

/// An interval that deviates by so much, at least a millisecond. Without jitter it is
/// unchanged.
pub fn interval_with(base_ms: u64, jitter_ms: u32, delta: i64) -> (r: u64)
    ensures
        r == deviated_interval(base_ms, jitter_ms, delta),
{
    if jitter_ms == 0 {
        return base_ms;
    }
    let signed: i128 = if base_ms > 0x7fff_ffff_ffff_ffff {
        base_ms as i128 - 0x1_0000_0000_0000_0000
    } else {
        base_ms as i128
    };
    let sum: i128 = signed + delta as i128;
    if sum < 1 {
        1
    } else if sum > 0x7fff_ffff_ffff_ffff {
        0x7fff_ffff_ffff_ffff
    } else {
        sum as u64
    }
}

/// An interval with a random deviation, at least a millisecond. Without jitter it is
/// unchanged.
pub fn jitter_interval(base_ms: u64, jitter_ms: u32) -> (r: u64)
    ensures
        jitter_ms == 0 ==> r == base_ms,
        jitter_ms > 0 ==> r >= 1,
        exists|delta: i64|
            -jitter_ms <= delta <= jitter_ms && r == #[trigger] deviated_interval(
                base_ms,
                jitter_ms,
                delta,
            ),
{
    let delta: i64 = random_deviation(jitter_ms);
    interval_with(base_ms, jitter_ms, delta)
}

/// A coordinate that deviates by so much, as far as coordinates go.
pub open spec fn deviated_pos(base: i32, delta: i64) -> int {
    if base + delta > i32::MAX {
        i32::MAX as int
    } else if base + delta < i32::MIN {
        i32::MIN as int
    } else {
        base + delta
    }
}

/// A coordinate that deviates by so much, as far as coordinates go.
pub fn pos_with(base: i32, delta: i64) -> (r: i32)
    ensures
        r == deviated_pos(base, delta),
{
    let sum: i128 = base as i128 + delta as i128;
    if sum > 0x7fff_ffff {
        i32::MAX
    } else if sum < -0x8000_0000 {
        i32::MIN
    } else {
        sum as i32
    }
}

/// A coordinate with a random deviation. Without jitter it is unchanged.
pub fn jitter_pos(base: i32, jitter_px: u32) -> (r: i32)
    requires
        jitter_px <= i32::MAX,
    ensures
        jitter_px == 0 ==> r == base,
        exists|delta: i64|
            -jitter_px <= delta <= jitter_px && r == #[trigger] deviated_pos(base, delta),
{
    let delta: i64 = random_deviation(jitter_px);
    pos_with(base, delta)
}

/// A jitter of zero leaves any interval unchanged.
pub proof fn law_no_jitter_keeps_the_interval(base_ms: u64, delta: i64)
    ensures
        deviated_interval(base_ms, 0, delta) == base_ms,
{
}

/// An interval deviates by no more than the jitter, and is at least a millisecond where it was
/// or where there is jitter.
pub proof fn law_interval_stays_near(base_ms: u64, jitter_ms: u32, delta: i64)
    requires
        base_ms <= i64::MAX,
        -jitter_ms <= delta <= jitter_ms,
    ensures
        base_ms >= 1 || jitter_ms > 0 ==> deviated_interval(base_ms, jitter_ms, delta) >= 1,
        deviated_interval(base_ms, jitter_ms, delta) >= base_ms - jitter_ms,
        deviated_interval(base_ms, jitter_ms, delta) <= base_ms + jitter_ms,
{
}

/// A coordinate deviates by no more than the jitter.
pub proof fn law_pos_stays_near(base: i32, jitter_px: u32, delta: i64)
    requires
        -jitter_px <= delta <= jitter_px,
    ensures
        base - jitter_px <= deviated_pos(base, delta) <= base + jitter_px,
        i32::MIN <= deviated_pos(base, delta) <= i32::MAX,
{
}

/// With jitter an interval deviates by just so much, as long as a millisecond is left and the
/// number can be held.
pub proof fn law_interval_deviates_by_so_much(base_ms: u64, jitter_ms: u32, delta: i64, r: u64)
    requires
        call_ensures(interval_with, (base_ms, jitter_ms, delta), r),
        jitter_ms > 0,
        base_ms <= i64::MAX,
    ensures
        1 <= base_ms + delta <= i64::MAX ==> r == base_ms + delta,
        base_ms + delta < 1 ==> r == 1,
{
}

/// A coordinate deviates by just so much, as far as coordinates go.
pub proof fn law_pos_deviates_by_so_much(base: i32, delta: i64, r: i32)
    requires
        call_ensures(pos_with, (base, delta), r),
    ensures
        i32::MIN <= base + delta <= i32::MAX ==> r == base + delta,
        base + delta > i32::MAX ==> r == i32::MAX,
        base + delta < i32::MIN ==> r == i32::MIN,
{
}

/// The interval between clicks is the one that was chosen, or a millisecond where that is
/// none.
pub proof fn law_chosen_interval_holds(c: &StaticClickerConfig, r: u64)
    requires
        call_ensures(StaticClickerConfig::interval_ms_clamped, (c,), r),
    ensures
        c.interval_ms > 0 ==> r == c.interval_ms,
        c.interval_ms == 0 ==> r == 1,
{
}

/// As many repeats are made as were chosen; without end there is no number.
pub proof fn law_chosen_repeats_hold(mode: RepeatMode, n: u32, r: Option<u32>)
    requires
        call_ensures(RepeatMode::total, (mode,), r),
    ensures
        r == Some(n) <==> mode == RepeatMode::Count(n),
        r is None <==> mode == RepeatMode::Infinite,
{
}

// ---------------------------------------------------------------------------
// The switches of the clicker
// ---------------------------------------------------------------------------

/// The switches by which the user interface and a running clicker talk.
#[derive(Debug, Clone, Copy, PartialEq, Eq, Structural)]
pub struct StaticClicker {
    pub stop_flag: bool,
    pub running: bool,
    /// The target that is being clicked, if the clicker runs through targets.
    pub active_target: Option<usize>,
}

impl Default for StaticClicker {
    fn default() -> (r: Self)
        ensures
            r == (StaticClicker { stop_flag: false, running: false, active_target: None }),
    {
        StaticClicker::new()
    }
}

impl StaticClicker {
    pub fn new() -> (r: Self)
        ensures
            r == (StaticClicker { stop_flag: false, running: false, active_target: None }),
    {
        StaticClicker { stop_flag: false, running: false, active_target: None }
    }

    pub fn is_running(&self) -> (r: bool)
        ensures
            r == self.running,
    {
        self.running
    }

    pub fn active_target_index(&self) -> (r: Option<usize>)
        ensures
            r == self.active_target,
    {
        self.active_target
    }

    /// Begins clicking, unless the clicker is running. Returns whether it began.
    pub fn start(&mut self) -> (r: bool)
        ensures
            r == !old(self).running,
            *final(self) == (if old(self).running {
                *old(self)
            } else {
                StaticClicker { stop_flag: false, running: true, active_target: None }
            }),
    {
        if self.is_running() {
            return false;
        }
        self.stop_flag = false;
        self.running = true;
        self.active_target = None;
        true
    }

    /// Asks the clicker to stop.
    pub fn stop(&mut self)
        ensures
            *final(self) == (StaticClicker { stop_flag: true, ..*old(self) }),
    {
        self.stop_flag = true;
    }

    /// Notes the target that is being clicked.
    pub fn set_active(&mut self, target: Option<usize>)
        ensures
            *final(self) == (StaticClicker { active_target: target, ..*old(self) }),
    {
        self.active_target = target;
    }

    /// Notes that the clicker has ended.
    pub fn finished(&mut self)
        ensures
            *final(self) == (StaticClicker {
                running: false,
                active_target: None,
                ..*old(self)
            }),
    {
        self.active_target = None;
        self.running = false;
    }
}

/// A clicker is started once: while it runs another start does nothing, and one that begins
/// is not stopped from before and names no target.
pub proof fn law_clicker_is_started_once(c: &mut StaticClicker, r: bool)
    requires
        call_ensures(StaticClicker::start, (c,), r),
    ensures
        final(c).running,
        r == !old(c).running,
        r ==> !final(c).stop_flag && final(c).active_target is None,
        !r ==> *final(c) == *old(c),
{
}

/// A stop is asked for and stays asked for until the clicker has ended and is started again.
/// One that has ended does not run and names no target.
pub proof fn law_stop_stays_asked_for(
    stopped: &mut StaticClicker,
    noted: &mut StaticClicker,
    target: Option<usize>,
    ended: &mut StaticClicker,
)
    requires
        call_ensures(StaticClicker::stop, (stopped,), ()),
        *old(noted) == *final(stopped),
        call_ensures(StaticClicker::set_active, (noted, target), ()),
        *old(ended) == *final(noted),
        call_ensures(StaticClicker::finished, (ended,), ()),
    ensures
        final(stopped).stop_flag,
        final(stopped).running == old(stopped).running,
        final(noted).active_target == target,
        final(noted).stop_flag && final(noted).running == old(stopped).running,
        final(ended).stop_flag && !final(ended).running && final(ended).active_target is None,
{
}

} // verus!
