//! Global hotkeys: which are registered, what is in the way, and what the window of the
//! hotkeys is told.

use vstd::prelude::*;

use crate::config::{HotkeyCombo, SettingsBindings};
use crate::model;
use crate::model::word_of;
use crate::text;

verus! {

pub const ID_RECORD: i32 = 1;

pub const ID_PLAY: i32 = 2;

pub const ID_STOP: i32 = 3;

pub const ID_STATIC: i32 = 4;

/// The actions that have a global hotkey.
#[derive(Debug, Clone, Copy, PartialEq, Eq, Hash, Structural)]
pub enum HotkeyId {
    Record,
    Play,
    Stop,
    Static,
}

impl HotkeyId {
    /// The number by which the system knows the hotkey.
    pub open spec fn number(self) -> i32 {
        match self {
            HotkeyId::Record => ID_RECORD,
            HotkeyId::Play => ID_PLAY,
            HotkeyId::Stop => ID_STOP,
            HotkeyId::Static => ID_STATIC,
        }
    }

    /// The number by which the system knows the hotkey.
    pub fn as_i32(self) -> (r: i32)
        ensures
            r == self.number(),
    {
        match self {
            HotkeyId::Record => ID_RECORD,
            HotkeyId::Play => ID_PLAY,
            HotkeyId::Stop => ID_STOP,
            HotkeyId::Static => ID_STATIC,
        }
    }

    /// The hotkey of a number.
    pub open spec fn of_number(id: i32) -> Option<HotkeyId> {
        if id == ID_RECORD {
            Some(HotkeyId::Record)
        } else if id == ID_PLAY {
            Some(HotkeyId::Play)
        } else if id == ID_STOP {
            Some(HotkeyId::Stop)
        } else if id == ID_STATIC {
            Some(HotkeyId::Static)
        } else {
            None
        }
    }

    /// The hotkey of a number.
    pub fn from_i32(id: i32) -> (r: Option<HotkeyId>)
        ensures
            r == HotkeyId::of_number(id),
    {
        match id {
            ID_RECORD => Some(HotkeyId::Record),
            ID_PLAY => Some(HotkeyId::Play),
            ID_STOP => Some(HotkeyId::Stop),
            ID_STATIC => Some(HotkeyId::Static),
            _ => None,
        }
    }

    /// How the action is called in messages.
    pub open spec fn spec_name(self) -> Seq<char> {
        match self {
            HotkeyId::Record => "Record"@,
            HotkeyId::Play => "Play"@,
            HotkeyId::Stop => "Stop"@,
            HotkeyId::Static => "Static"@,
        }
    }

    /// How the action is called in messages.
    pub fn name(self) -> (r: &'static str)
        ensures
            r@ == self.spec_name(),
    {
        match self {
            HotkeyId::Record => "Record",
            HotkeyId::Play => "Play",
            HotkeyId::Stop => "Stop",
            HotkeyId::Static => "Static",
        }
    }

    /// The combination that the action is bound to.
    pub open spec fn bound_in(self, b: SettingsBindings) -> HotkeyCombo {
        match self {
            HotkeyId::Record => b.record,
            HotkeyId::Play => b.play,
            HotkeyId::Stop => b.stop,
            HotkeyId::Static => b.static_clicker,
        }
    }

    /// The combination that the action is bound to.
    pub fn combo(self, b: &SettingsBindings) -> (r: HotkeyCombo)
        ensures
            r == self.bound_in(*b),
    {
        match self {
            HotkeyId::Record => b.record,
            HotkeyId::Play => b.play,
            HotkeyId::Stop => b.stop,
            HotkeyId::Static => b.static_clicker,
        }
    }
}

/// A hotkey is found again by its number.
pub proof fn law_number_reads_back(id: HotkeyId)
    ensures
        HotkeyId::of_number(id.number()) == Some(id),
{
}

/// Only the numbers of hotkeys stand for hotkeys.
pub proof fn law_of_number_is_exact(n: i32)
    ensures
        HotkeyId::of_number(n) matches Some(id) ==> id.number() == n,
{
}

// ---------------------------------------------------------------------------
// Registration
// ---------------------------------------------------------------------------

/// Keeps a held hotkey from firing again and again.
pub const MOD_NOREPEAT: u32 = 0x4000;

/// What is done about the hotkey of one action.
#[derive(Debug, Clone, Copy, PartialEq, Eq, Structural)]
pub enum RegisterStep {
    /// Another action has the same combination: neither is registered.
    Conflict { id: HotkeyId, combo: HotkeyCombo },
    /// The hotkey is registered with these modifiers and this key.
    Register { id: HotkeyId, combo: HotkeyCombo, modifiers: u32, key: u32 },
}

/// Whether another action has the same combination.
pub open spec fn shared(b: SettingsBindings, id: HotkeyId) -> bool {
    exists|other: HotkeyId| other != id && #[trigger] other.bound_in(b) == id.bound_in(b)
}

/// What is done about the hotkey of an action. Nothing, where it has no key.
pub open spec fn step_for(b: SettingsBindings, id: HotkeyId) -> Seq<RegisterStep> {
    let combo = id.bound_in(b);
    if combo.key == 0 {
        Seq::empty()
    } else if shared(b, id) {
        seq![RegisterStep::Conflict { id, combo }]
    } else {
        seq![
            RegisterStep::Register {
                id,
                combo,
                modifiers: combo.spec_modifier_flags(MOD_NOREPEAT),
                key: model::word(combo.key) as u32,
            },
        ]
    }
}

/// What is done about the hotkeys of all actions.
pub open spec fn plan_for(b: SettingsBindings) -> Seq<RegisterStep> {
    step_for(b, HotkeyId::Record) + step_for(b, HotkeyId::Play) + step_for(b, HotkeyId::Stop)
        + step_for(b, HotkeyId::Static)
}

fn is_shared(b: &SettingsBindings, id: HotkeyId) -> (r: bool)
    ensures
        r == shared(*b, id),
{
    let combo: HotkeyCombo = id.combo(b);
    let r: bool = (id != HotkeyId::Record && b.record == combo) || (id != HotkeyId::Play && b.play
        == combo) || (id != HotkeyId::Stop && b.stop == combo) || (id != HotkeyId::Static
        && b.static_clicker == combo);
    proof {
        if id != HotkeyId::Record && b.record == combo {
            assert(HotkeyId::Record.bound_in(*b) == combo);
        }
        if id != HotkeyId::Play && b.play == combo {
            assert(HotkeyId::Play.bound_in(*b) == combo);
        }
        if id != HotkeyId::Stop && b.stop == combo {
            assert(HotkeyId::Stop.bound_in(*b) == combo);
        }
        if id != HotkeyId::Static && b.static_clicker == combo {
            assert(HotkeyId::Static.bound_in(*b) == combo);
        }
    }
    r
}

fn push_step(plan: &mut Vec<RegisterStep>, b: &SettingsBindings, id: HotkeyId)
    ensures
        final(plan)@ == old(plan)@ + step_for(*b, id),
{
    let combo: HotkeyCombo = id.combo(b);
    if combo.key == 0 {
        proof {
            assert(plan@ + Seq::<RegisterStep>::empty() =~= plan@);
        }
        return;
    }
    if is_shared(b, id) {
        plan.push(RegisterStep::Conflict { id, combo });
    } else {
        plan.push(
            RegisterStep::Register {
                id,
                combo,
                modifiers: combo.to_modifier_flags(MOD_NOREPEAT),
                key: word_of(combo.key),
            },
        );
    }
    proof {
        assert(plan@ =~= old(plan)@ + step_for(*b, id));
    }
}

/// What is done about the hotkeys of all actions, in order.
pub fn register_plan(b: &SettingsBindings) -> (r: Vec<RegisterStep>)
    ensures
        r@ == plan_for(*b),
{
    let mut plan: Vec<RegisterStep> = Vec::new();
    push_step(&mut plan, b, HotkeyId::Record);
    push_step(&mut plan, b, HotkeyId::Play);
    push_step(&mut plan, b, HotkeyId::Stop);
    push_step(&mut plan, b, HotkeyId::Static);
    proof {
        assert(plan@ =~= plan_for(*b));
    }
    plan
}

/// What the system said to a registration.
#[derive(Debug)]
pub enum RegisterResult {
    Registered,
    Refused { error: String, system: String },
}

/// The text of a combination that two actions have.
pub open spec fn conflict_text(id: HotkeyId, combo: HotkeyCombo) -> Seq<char> {
    id.spec_name() + " ("@ + combo.spec_display() + "): assigned to two actions"@
}

/// The text of a combination that another program has.
pub open spec fn refused_text(
    id: HotkeyId,
    combo: HotkeyCombo,
    error: Seq<char>,
    system: Seq<char>,
) -> Seq<char> {
    id.spec_name() + " ("@ + combo.spec_display()
        + "): already in use by another program (RegisterHotKey failed: "@ + error + " / "@ + system
        + ")"@
}

/// The failure of a step, given what the system said, if it was asked.
pub open spec fn failure_of(s: RegisterStep, result: RegisterResult) -> Option<Seq<char>> {
    match s {
        RegisterStep::Conflict { id, combo } => Some(conflict_text(id, combo)),
        RegisterStep::Register { id, combo, .. } => match result {
            RegisterResult::Registered => None,
            RegisterResult::Refused { error, system } => Some(
                refused_text(id, combo, error@, system@),
            ),
        },
    }
}

/// The failures of a plan, in order.
pub open spec fn failures_of(plan: Seq<RegisterStep>, results: Seq<RegisterResult>) -> Seq<
    Seq<char>,
>
    decreases plan.len(),
{
    if plan.len() == 0 || results.len() == 0 {
        Seq::empty()
    } else {
        let before = failures_of(plan.drop_last(), results.drop_last());
        match failure_of(plan.last(), results.last()) {
            Some(text) => before.push(text),
            None => before,
        }
    }
}

/// The failures of a plan, given what the system said to each step. What it says of a step
/// that is a conflict does not count.
pub fn register_failures(plan: &Vec<RegisterStep>, results: &Vec<RegisterResult>) -> (r: Vec<
    String,
>)
    requires
        plan@.len() == results@.len(),
    ensures
        text::views(r@) == failures_of(plan@, results@),
{
    let mut failures: Vec<String> = Vec::new();
    let mut i: usize = 0;
    proof {
        assert(text::views(failures@) =~= Seq::<Seq<char>>::empty());
    }
    while i < plan.len()
        invariant
            i <= plan.len(),
            plan@.len() == results@.len(),
            text::views(failures@) == failures_of(plan@.take(i as int), results@.take(i as int)),
        decreases plan.len() - i,
    {
        let ghost before = failures@;
        proof {
            assert(plan@.take(i + 1).drop_last() =~= plan@.take(i as int));
            assert(results@.take(i + 1).drop_last() =~= results@.take(i as int));
        }
        match plan[i] {
            RegisterStep::Conflict { id, combo } => {
                let mut s: String = id.name().to_owned();
                s.append(" (");
                s.append(combo.display_owned().as_str());
                s.append("): assigned to two actions");
                failures.push(s);
                proof {
                    assert(text::views(failures@) =~= text::views(before).push(s@));
                }
            },
            RegisterStep::Register { id, combo, .. } => {
                if let RegisterResult::Refused { error, system } = &results[i] {
                    let mut s: String = id.name().to_owned();
                    s.append(" (");
                    s.append(combo.display_owned().as_str());
                    s.append("): already in use by another program (RegisterHotKey failed: ");
                    s.append(error.as_str());
                    s.append(" / ");
                    s.append(system.as_str());
                    s.append(")");
                    failures.push(s);
                    proof {
                        assert(text::views(failures@) =~= text::views(before).push(s@));
                    }
                }
            },
        }
        i = i + 1;
    }
    proof {
        assert(plan@.take(i as int) =~= plan@);
        assert(results@.take(i as int) =~= results@);
    }
    failures
}

/// Whether a plan registers the hotkey of an action.
pub open spec fn registers(plan: Seq<RegisterStep>, id: HotkeyId, combo: HotkeyCombo) -> bool {
    exists|i: int|
        0 <= i < plan.len() && (#[trigger] plan[i] matches RegisterStep::Register {
            id: other,
            combo: its,
            ..
        } && other == id && its == combo)
}

/// Whether a plan reports the hotkey of an action as a conflict.
pub open spec fn reports(plan: Seq<RegisterStep>, id: HotkeyId, combo: HotkeyCombo) -> bool {
    plan.contains(RegisterStep::Conflict { id, combo })
}

proof fn lemma_where_the_steps_are(b: SettingsBindings)
    ensures
        forall|i: int|
            0 <= i < plan_for(b).len() ==> exists|id: HotkeyId| #[trigger]
                step_for(b, id).len() == 1 && step_for(b, id)[0] == #[trigger] plan_for(b)[i],
        forall|id: HotkeyId| #[trigger]
            step_for(b, id).len() == 1 ==> plan_for(b).contains(step_for(b, id)[0]),
{
    let s1 = step_for(b, HotkeyId::Record);
    let s2 = step_for(b, HotkeyId::Play);
    let s3 = step_for(b, HotkeyId::Stop);
    let s4 = step_for(b, HotkeyId::Static);
    let plan = plan_for(b);
    assert(forall|id: HotkeyId| (#[trigger] step_for(b, id)).len() <= 1);
    if s1.len() == 1 {
        assert(plan[0] == s1[0]);
    }
    if s2.len() == 1 {
        assert(plan[s1.len() as int] == s2[0]);
    }
    if s3.len() == 1 {
        assert(plan[(s1.len() + s2.len()) as int] == s3[0]);
    }
    if s4.len() == 1 {
        assert(plan[(s1.len() + s2.len() + s3.len()) as int] == s4[0]);
    }
    assert forall|i: int| 0 <= i < plan.len() implies exists|id: HotkeyId| #[trigger]
        step_for(b, id).len() == 1 && step_for(b, id)[0] == #[trigger] plan[i] by {
        if i < s1.len() {
            assert(step_for(b, HotkeyId::Record)[0] == plan[i]);
        } else if i < s1.len() + s2.len() {
            assert(step_for(b, HotkeyId::Play)[0] == plan[i]);
        } else if i < s1.len() + s2.len() + s3.len() {
            assert(step_for(b, HotkeyId::Stop)[0] == plan[i]);
        } else {
            assert(step_for(b, HotkeyId::Static)[0] == plan[i]);
        }
    }
}

/// No hotkey is passed over: each with a key is either registered or reported as a conflict,
/// the latter just where another action has the same combination.
pub proof fn law_every_hotkey_is_accounted_for(b: SettingsBindings, id: HotkeyId)
    requires
        id.bound_in(b).key != 0,
    ensures
        shared(b, id) ==> reports(plan_for(b), id, id.bound_in(b)),
        !shared(b, id) ==> registers(plan_for(b), id, id.bound_in(b)),
{
    lemma_where_the_steps_are(b);
    assert(step_for(b, id).len() == 1);
    let s = step_for(b, id)[0];
    let i = choose|i: int| 0 <= i < plan_for(b).len() && plan_for(b)[i] == s;
    assert(plan_for(b)[i] == s);
}

/// No combination is registered twice: two registrations of one combination are of one action.
pub proof fn law_no_combination_is_registered_twice(
    b: SettingsBindings,
    one: HotkeyId,
    other: HotkeyId,
    combo: HotkeyCombo,
)
    requires
        registers(plan_for(b), one, combo),
        registers(plan_for(b), other, combo),
    ensures
        one == other,
{
    lemma_where_the_steps_are(b);
    lemma_registered_is_not_shared(b, one, combo);
    lemma_registered_is_not_shared(b, other, combo);
    if one != other {
        assert(other.bound_in(b) == one.bound_in(b));
    }
}

proof fn lemma_registered_is_not_shared(b: SettingsBindings, id: HotkeyId, combo: HotkeyCombo)
    requires
        registers(plan_for(b), id, combo),
    ensures
        id.bound_in(b) == combo,
        !shared(b, id),
{
    lemma_where_the_steps_are(b);
    let plan = plan_for(b);
    let i = choose|i: int|
        0 <= i < plan.len() && (#[trigger] plan[i] matches RegisterStep::Register {
            id: other,
            combo: its,
            ..
        } && other == id && its == combo);
    let from = choose|from: HotkeyId| #[trigger]
        step_for(b, from).len() == 1 && step_for(b, from)[0] == plan[i];
    assert(from == id);
}

/// The failures where the window of the hotkeys is not there yet: one for each hotkey that
/// has a key.
pub open spec fn not_ready_for(b: SettingsBindings, id: HotkeyId) -> Seq<Seq<char>> {
    if id.bound_in(b).key == 0 {
        Seq::empty()
    } else {
        seq![id.spec_name() + ": hotkey window not ready"@]
    }
}

/// The failures where the window of the hotkeys is not there yet.
pub open spec fn spec_not_ready(b: SettingsBindings) -> Seq<Seq<char>> {
    not_ready_for(b, HotkeyId::Record) + not_ready_for(b, HotkeyId::Play) + not_ready_for(
        b,
        HotkeyId::Stop,
    ) + not_ready_for(b, HotkeyId::Static)
}

fn push_not_ready(failures: &mut Vec<String>, b: &SettingsBindings, id: HotkeyId)
    ensures
        text::views(final(failures)@) == text::views(old(failures)@) + not_ready_for(*b, id),
{
    let ghost before = failures@;
    if id.combo(b).key != 0 {
        let mut s: String = id.name().to_owned();
        s.append(": hotkey window not ready");
        failures.push(s);
    }
    proof {
        assert(text::views(failures@) =~= text::views(before) + not_ready_for(*b, id));
    }
}

/// The failures where the window of the hotkeys is not there yet.
pub fn not_ready_failures(b: &SettingsBindings) -> (r: Vec<String>)
    ensures
        text::views(r@) == spec_not_ready(*b),
{
    let mut failures: Vec<String> = Vec::new();
    push_not_ready(&mut failures, b, HotkeyId::Record);
    push_not_ready(&mut failures, b, HotkeyId::Play);
    push_not_ready(&mut failures, b, HotkeyId::Stop);
    push_not_ready(&mut failures, b, HotkeyId::Static);
    proof {
        assert(text::views(failures@) =~= spec_not_ready(*b));
    }
    failures
}

// ---------------------------------------------------------------------------
// The manager
// ---------------------------------------------------------------------------

/// How a request to register hotkeys was answered.
#[derive(Debug)]
pub enum ApplyOutcome {
    /// There is no window to register them with.
    NotReady,
    /// No answer came in time.
    TimedOut,
    /// The failures of the registration.
    Answered { failures: Vec<String> },
}

/// Remembers the bindings that are wanted, so that they can be registered again.
#[derive(Debug, Clone, Copy, PartialEq, Eq, Structural)]
pub struct HotkeyManager {
    pub current_bindings: SettingsBindings,
}

/// The failures that a request comes back with.
pub open spec fn outcome_failures(b: SettingsBindings, outcome: ApplyOutcome) -> Seq<Seq<char>> {
    match outcome {
        ApplyOutcome::NotReady => spec_not_ready(b),
        ApplyOutcome::TimedOut => seq!["hotkey thread did not respond (timeout)"@],
        ApplyOutcome::Answered { failures } => text::views(failures@),
    }
}

impl HotkeyManager {
    pub fn new() -> (r: Self)
        ensures
            r.current_bindings == crate::config::default_bindings(),
    {
        HotkeyManager { current_bindings: SettingsBindings::default() }
    }

    /// Takes new bindings and the answer to the request to register them. They are kept even
    /// where some failed. Returns the failures.
    pub fn apply(&mut self, bindings: SettingsBindings, outcome: ApplyOutcome) -> (r: Vec<String>)
        ensures
            text::views(r@) == outcome_failures(bindings, outcome),
            final(self).current_bindings == bindings,
    {
        self.current_bindings = bindings;
        match outcome {
            ApplyOutcome::NotReady => not_ready_failures(&bindings),
            ApplyOutcome::TimedOut => {
                let mut failures: Vec<String> = Vec::new();
                failures.push("hotkey thread did not respond (timeout)".to_owned());
                proof {
                    assert(text::views(failures@) =~= seq![
                        "hotkey thread did not respond (timeout)"@,
                    ]);
                }
                failures
            },
            ApplyOutcome::Answered { failures } => failures,
        }
    }

    /// Registers the same bindings again, given the answer to the request. Returns the
    /// failures.
    pub fn resume(&mut self, outcome: ApplyOutcome) -> (r: Vec<String>)
        ensures
            text::views(r@) == outcome_failures(old(self).current_bindings, outcome),
            *final(self) == *old(self),
    {
        let bindings: SettingsBindings = self.current_bindings;
        self.apply(bindings, outcome)
    }
}

// ---------------------------------------------------------------------------
// The window of the hotkeys
// ---------------------------------------------------------------------------

pub const WM_CLOSE: u32 = 0x0010;

pub const WM_HOTKEY: u32 = 0x0312;

/// Asks the window to register the hotkeys.
pub const WM_HOTKEY_APPLY: u32 = 0x8001;

/// Asks the window to unregister the hotkeys.
pub const WM_HOTKEY_UNREGISTER: u32 = 0x8002;

/// What a message to the window asks for.
#[derive(Debug, Clone, Copy, PartialEq, Eq, Structural)]
pub enum WindowMessage {
    /// A hotkey was pressed: which one, if it is one of ours. The system handles the message
    /// as well.
    Pressed { id: Option<HotkeyId> },
    Apply,
    Unregister,
    /// Unregister the hotkeys and close the window.
    Close,
    /// Nothing to do with hotkeys: the system handles the message.
    Other,
}

/// What a message to the window asks for.
pub fn window_message(msg: u32, wparam: u64) -> (r: WindowMessage)
    ensures
        r == (if msg == WM_HOTKEY {
            WindowMessage::Pressed { id: HotkeyId::of_number((wparam % 0x1_0000) as i32) }
        } else if msg == WM_HOTKEY_APPLY {
            WindowMessage::Apply
        } else if msg == WM_HOTKEY_UNREGISTER {
            WindowMessage::Unregister
        } else if msg == WM_CLOSE {
            WindowMessage::Close
        } else {
            WindowMessage::Other
        }),
{
    if msg == WM_HOTKEY {
        let id: i32 = (wparam % 0x1_0000) as i32;
        WindowMessage::Pressed { id: HotkeyId::from_i32(id) }
    } else if msg == WM_HOTKEY_APPLY {
        WindowMessage::Apply
    } else if msg == WM_HOTKEY_UNREGISTER {
        WindowMessage::Unregister
    } else if msg == WM_CLOSE {
        WindowMessage::Close
    } else {
        WindowMessage::Other
    }
}

/// What the message loop does with the answer to its request for a message.
#[derive(Debug, Clone, Copy, PartialEq, Eq, Structural)]
pub enum LoopStep {
    Quit,
    Failed,
    Dispatch,
}

/// What the message loop does with the answer to its request for a message: 0 says that it is
/// to end, -1 that the request failed.
pub fn loop_step(answer: i32) -> (r: LoopStep)
    ensures
        r == (if answer == 0 {
            LoopStep::Quit
        } else if answer == -1 {
            LoopStep::Failed
        } else {
            LoopStep::Dispatch
        }),
{
    if answer == 0 {
        LoopStep::Quit
    } else if answer == -1 {
        LoopStep::Failed
    } else {
        LoopStep::Dispatch
    }
}

/// The name of the class of the window, ended by a zero. The number makes it unlike that of
/// another program.
pub fn class_name(number: u64) -> (r: String)
    ensures
        r@ == "TTE_Hotkey_"@ + text::hex_fixed_lower(number as nat, 16) + seq!['\0'],
{
    let mut s: String = "TTE_Hotkey_".to_owned();
    text::push_hex_fixed_lower(&mut s, number, 16);
    s.push('\0');
    proof {
        assert(s@ =~= "TTE_Hotkey_"@ + text::hex_fixed_lower(number as nat, 16) + seq!['\0']);
    }
    s
}

/// A hotkey is registered as the combination that its action is bound to: with the key and the
/// modifiers of that combination, so that it does not fire again while it is held.
pub proof fn law_hotkey_is_registered_as_it_is_bound(
    b: SettingsBindings,
    plan: Vec<RegisterStep>,
    i: int,
    id: HotkeyId,
    combo: HotkeyCombo,
    modifiers: u32,
    key: u32,
)
    requires
        call_ensures(register_plan, (&b,), plan),
        0 <= i < plan@.len(),
        plan@[i] == (RegisterStep::Register { id, combo, modifiers, key }),
    ensures
        combo == (match id {
            HotkeyId::Record => b.record,
            HotkeyId::Play => b.play,
            HotkeyId::Stop => b.stop,
            HotkeyId::Static => b.static_clicker,
        }),
        combo.key != 0,
        (key - combo.key) % 0x1_0000_0000 == 0,
        0 <= combo.modifiers < 16 ==> modifiers == 0x4000 + combo.modifiers,
        id is Record || b.record != combo,
        id is Play || b.play != combo,
        id is Stop || b.stop != combo,
        id is Static || b.static_clicker != combo,
{
    assert(registers(plan@, id, combo)) by {
        assert(plan@[i] matches RegisterStep::Register { id: other, combo: its, .. } && other == id
            && its == combo);
    }
    lemma_registered_is_not_shared(b, id, combo);
    lemma_where_the_steps_are(b);
    let from = choose|from: HotkeyId| #[trigger]
        step_for(b, from).len() == 1 && step_for(b, from)[0] == plan@[i];
    assert(from == id);
    if 0 <= combo.modifiers < 16 {
        assert(modifiers == combo.spec_modifier_flags(MOD_NOREPEAT));
        crate::config::laws::lemma_modifier_flags(combo);
    }
    assert(HotkeyId::Record.bound_in(b) == b.record);
    assert(HotkeyId::Play.bound_in(b) == b.play);
    assert(HotkeyId::Stop.bound_in(b) == b.stop);
    assert(HotkeyId::Static.bound_in(b) == b.static_clicker);
}

/// A combination that two actions have is registered for neither, and each of the two is
/// reported.
pub proof fn law_shared_combination_is_reported_twice(
    b: SettingsBindings,
    plan: Vec<RegisterStep>,
    one: HotkeyId,
    other: HotkeyId,
)
    requires
        call_ensures(register_plan, (&b,), plan),
        one != other,
        one.bound_in(b) == other.bound_in(b),
        one.bound_in(b).key != 0,
    ensures
        reports(plan@, one, one.bound_in(b)),
        reports(plan@, other, one.bound_in(b)),
        !registers(plan@, one, one.bound_in(b)),
        !registers(plan@, other, one.bound_in(b)),
{
    law_every_hotkey_is_accounted_for(b, one);
    law_every_hotkey_is_accounted_for(b, other);
    if registers(plan@, one, one.bound_in(b)) {
        lemma_registered_is_not_shared(b, one, one.bound_in(b));
    }
    if registers(plan@, other, one.bound_in(b)) {
        lemma_registered_is_not_shared(b, other, one.bound_in(b));
    }
}

/// The plan has a step for each action with a key, and no more than four.
pub proof fn law_plan_has_a_step_for_each_key(b: SettingsBindings, plan: Vec<RegisterStep>)
    requires
        call_ensures(register_plan, (&b,), plan),
    ensures
        plan@.len() == keys_bound(b),
{
}

/// How many actions have a key.
pub open spec fn keys_bound(b: SettingsBindings) -> int {
    crate::config::laws::one_if(b.record.key != 0) + crate::config::laws::one_if(b.play.key != 0)
        + crate::config::laws::one_if(b.stop.key != 0) + crate::config::laws::one_if(
        b.static_clicker.key != 0,
    )
}

/// How many steps of a plan failed: the conflicts, and what the system refused.
pub open spec fn failed_steps(plan: Seq<RegisterStep>, results: Seq<RegisterResult>) -> int
    decreases plan.len(),
{
    if plan.len() == 0 {
        0
    } else {
        failed_steps(plan.drop_last(), results.drop_last()) + crate::config::laws::one_if(
            plan.last() is Conflict || results.last() is Refused,
        )
    }
}

/// Every failure is told, and nothing else: there are as many texts as steps that failed.
pub proof fn law_every_failure_is_told(
    plan: Vec<RegisterStep>,
    results: Vec<RegisterResult>,
    r: Vec<String>,
)
    requires
        plan@.len() == results@.len(),
        call_ensures(register_failures, (&plan, &results), r),
    ensures
        r@.len() == failed_steps(plan@, results@),
{
    lemma_failures_counted(plan@, results@);
    assert(r@.len() == text::views(r@).len());
}

proof fn lemma_failures_counted(plan: Seq<RegisterStep>, results: Seq<RegisterResult>)
    requires
        plan.len() == results.len(),
    ensures
        failures_of(plan, results).len() == failed_steps(plan, results),
    decreases plan.len(),
{
    if plan.len() > 0 {
        lemma_failures_counted(plan.drop_last(), results.drop_last());
    }
}

/// The text of a failure starts with the name of its action, and what the system said is in it.
pub proof fn law_failure_names_its_action(s: RegisterStep, result: RegisterResult)
    requires
        failure_of(s, result) is Some,
    ensures
        ({
            let id = match s {
                RegisterStep::Conflict { id, .. } => id,
                RegisterStep::Register { id, .. } => id,
            };
            let told = failure_of(s, result)->0;
            &&& told.take(id.spec_name().len() as int) == id.spec_name()
            &&& (s is Register ==> result is Refused && exists|before: Seq<char>|
                told == #[trigger] (before + result->error@) + " / "@ + result->system@ + ")"@)
        }),
{
    let told = failure_of(s, result)->0;
    match s {
        RegisterStep::Conflict { id, combo } => {
            assert(told.take(id.spec_name().len() as int) =~= id.spec_name());
        },
        RegisterStep::Register { id, combo, .. } => {
            assert(told.take(id.spec_name().len() as int) =~= id.spec_name());
            let before = id.spec_name() + " ("@ + combo.spec_display()
                + "): already in use by another program (RegisterHotKey failed: "@;
            assert(told == (before + result->error@) + " / "@ + result->system@ + ")"@);
        },
    }
}

/// No two actions have one name.
pub proof fn law_actions_have_names_of_their_own(a: HotkeyId, b: HotkeyId)
    ensures
        a.spec_name() == b.spec_name() <==> a == b,
{
    reveal_strlit("Record");
    reveal_strlit("Play");
    reveal_strlit("Stop");
    reveal_strlit("Static");
    assert("Play"@[0] != "Stop"@[0]);
    assert("Record"@[0] != "Static"@[0]);
    assert("Record"@.len() == 6 && "Static"@.len() == 6);
    assert("Play"@.len() == 4 && "Stop"@.len() == 4);
}

/// The manager keeps the bindings that it was given last, whatever came of them: registered
/// again with no window there, each of them with a key is told as a failure.
pub proof fn law_bindings_are_kept_for_later(
    m: &mut HotkeyManager,
    b: SettingsBindings,
    outcome: ApplyOutcome,
    told: Vec<String>,
    n: &mut HotkeyManager,
    told_again: Vec<String>,
)
    requires
        call_ensures(HotkeyManager::apply, (m, b, outcome), told),
        *old(n) == *final(m),
        call_ensures(HotkeyManager::resume, (n, ApplyOutcome::NotReady), told_again),
    ensures
        final(m).current_bindings == b,
        final(n).current_bindings == b,
        told_again@.len() == keys_bound(b),
        outcome is NotReady ==> told@.len() == keys_bound(b),
        outcome is TimedOut ==> told@.len() == 1,
        outcome matches ApplyOutcome::Answered { failures } ==> text::views(told@) == text::views(
            failures@,
        ),
{
    assert(told@.len() == text::views(told@).len());
    assert(told_again@.len() == text::views(told_again@).len());
}

/// The message that the system sends for a hotkey is understood as that hotkey, by the number
/// under which it was registered; the other messages are told apart from it and each other.
pub proof fn law_pressed_hotkey_is_understood(
    id: HotkeyId,
    number: i32,
    msg: u32,
    wparam: u64,
    r: WindowMessage,
)
    requires
        call_ensures(HotkeyId::as_i32, (id,), number),
        call_ensures(window_message, (msg, wparam), r),
    ensures
        msg == 0x0312 && wparam % 0x1_0000 == number ==> r == (WindowMessage::Pressed {
            id: Some(id),
        }),
        msg == 0x0312 && !(1 <= wparam % 0x1_0000 <= 4) ==> r == (WindowMessage::Pressed {
            id: None,
        }),
        msg == 0x0312 <==> r is Pressed,
        msg == 0x8001 <==> r is Apply,
        msg == 0x8002 <==> r is Unregister,
        msg == 0x0010 <==> r is Close,
        1 <= number <= 4,
{
}

/// The message loop ends at the answer 0 and goes on at every other but -1.
pub proof fn law_message_loop_ends_when_told(answer: i32, r: LoopStep)
    requires
        call_ensures(loop_step, (answer,), r),
    ensures
        r is Quit <==> answer == 0,
        r is Failed <==> answer == -1,
{
}

/// Two numbers give two names for the class of the window, each ended by a zero.
pub proof fn law_class_name_is_ended(number: u64, r: String)
    requires
        call_ensures(class_name, (number,), r),
    ensures
        r@.len() == 28,
        r@.last() == '\0',
        text::hex_value(r@.subrange(11, 27)) == number,
{
    reveal_strlit("TTE_Hotkey_");
    text::law_fixed_hex_has_its_width(number as nat, 16);
    assert(vstd::arithmetic::power::pow(16, 16) == 0x1_0000_0000_0000_0000) by {
        reveal_with_fuel(vstd::arithmetic::power::pow, 17);
    }
    text::law_fixed_hex_reads_back(number as nat, 16);
    assert(r@.subrange(11, 27) =~= text::hex_fixed_lower(number as nat, 16));
}

} // verus!
