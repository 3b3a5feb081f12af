//! The hotkeys, and the configuration that outlives a run.
//!
//! A missing or corrupt configuration falls back to the defaults, so that the program never
//! fails to start.

pub mod laws;
pub mod mod_flag;
pub mod presets;

use vstd::prelude::*;

use crate::double::{Double, W380_BITS};
use crate::model::{
    word_of, ClickType, CursorMode, MouseButton, PresetView, SequenceTarget, StaticClickerPreset,
};
use crate::text;

verus! {

// ---------------------------------------------------------------------------
// HotkeyCombo
// ---------------------------------------------------------------------------

/// A global hotkey binding: virtual key and modifier set.
#[derive(Debug, Clone, Copy, PartialEq, Eq, Structural, Hash)]
pub struct HotkeyCombo {
    pub modifiers: i32,
    pub key: i32,
}

/// Whether a set of modifiers holds a flag.
pub open spec fn has_flag(modifiers: i32, flag: i32) -> bool {
    modifiers & flag != 0
}

impl HotkeyCombo {
    pub fn new(modifiers: i32, key: i32) -> (r: Self)
        ensures
            r == (HotkeyCombo { modifiers, key }),
    {
        HotkeyCombo { modifiers, key }
    }

    pub fn none() -> (r: Self)
        ensures
            r == (HotkeyCombo { modifiers: 0, key: 0 }),
    {
        HotkeyCombo { modifiers: 0, key: 0 }
    }

    pub fn has_modifiers(&self) -> (r: bool)
        ensures
            r == (self.modifiers != 0),
    {
        self.modifiers != 0
    }

    /// The modifiers as the system takes them when a hotkey is registered, on top of `extra`.
    pub open spec fn spec_modifier_flags(self, extra: u32) -> u32 {
        extra | (if has_flag(self.modifiers, mod_flag::CONTROL) {
            2u32
        } else {
            0u32
        }) | (if has_flag(self.modifiers, mod_flag::SHIFT) {
            4u32
        } else {
            0u32
        }) | (if has_flag(self.modifiers, mod_flag::ALT) {
            1u32
        } else {
            0u32
        }) | (if has_flag(self.modifiers, mod_flag::WIN) {
            8u32
        } else {
            0u32
        })
    }

    /// Converts to the modifier value for registering a hotkey; adds the `extra` bits.
    pub fn to_modifier_flags(&self, extra: u32) -> (r: u32)
        ensures
            r == self.spec_modifier_flags(extra),
    {
        let mut flags: u32 = extra;
        proof {
            assert(forall|a: u32| #[trigger] (a | 0u32) == a) by (bit_vector);
        }
        if self.modifiers & mod_flag::CONTROL != 0 {
            flags = flags | 0x0002;
        }
        if self.modifiers & mod_flag::SHIFT != 0 {
            flags = flags | 0x0004;
        }
        if self.modifiers & mod_flag::ALT != 0 {
            flags = flags | 0x0001;
        }
        if self.modifiers & mod_flag::WIN != 0 {
            flags = flags | 0x0008;
        }
        flags
    }

    /// The name of the key, without the modifiers.
    pub open spec fn spec_key_name(self) -> Seq<char> {
        let k = self.key;
        if k == 0 {
            Seq::empty()
        } else if 65 <= k <= 90 || 48 <= k <= 57 {
            seq![k as char]
        } else if k == 0x1B {
            "Esc"@
        } else if k == 0x20 {
            "Space"@
        } else if k == 0x0D {
            "Enter"@
        } else if k == 0x09 {
            "Tab"@
        } else if k == 0x08 {
            "Backspace"@
        } else if k == 0x2E {
            "Del"@
        } else if k == 0x2D {
            "Ins"@
        } else if k == 0x24 {
            "Home"@
        } else if k == 0x23 {
            "End"@
        } else if k == 0x21 {
            "PgUp"@
        } else if k == 0x22 {
            "PgDn"@
        } else if k == 0x25 {
            "Left"@
        } else if k == 0x27 {
            "Right"@
        } else if k == 0x26 {
            "Up"@
        } else if k == 0x28 {
            "Down"@
        } else if 0x70 <= k <= 0x87 {
            "F"@ + text::dec(k - 0x70 + 1)
        } else if 0x60 <= k <= 0x69 {
            "Num"@ + text::dec(k - 0x60)
        } else {
            "0x"@ + text::pad2(text::hex_upper(crate::model::word(k)))
        }
    }

    /// Human key name.
    pub fn key_name(&self) -> (r: String)
        ensures
            r@ == self.spec_key_name(),
    {
        let k: i32 = self.key;
        if k == 0 {
            return String::new();
        }
        if (65 <= k && k <= 90) || (48 <= k && k <= 57) {
            let mut s: String = String::new();
            s.push(k as u8 as char);
            assert(s@ =~= seq![k as char]);
            return s;
        }
        match k {
            0x1B => return "Esc".to_owned(),
            0x20 => return "Space".to_owned(),
            0x0D => return "Enter".to_owned(),
            0x09 => return "Tab".to_owned(),
            0x08 => return "Backspace".to_owned(),
            0x2E => return "Del".to_owned(),
            0x2D => return "Ins".to_owned(),
            0x24 => return "Home".to_owned(),
            0x23 => return "End".to_owned(),
            0x21 => return "PgUp".to_owned(),
            0x22 => return "PgDn".to_owned(),
            0x25 => return "Left".to_owned(),
            0x27 => return "Right".to_owned(),
            0x26 => return "Up".to_owned(),
            0x28 => return "Down".to_owned(),
            _ => {},
        }
        if 0x70 <= k && k <= 0x87 {
            let mut s: String = "F".to_owned();
            text::push_dec(&mut s, (k - 0x70 + 1) as i64);
            return s;
        }
        if 0x60 <= k && k <= 0x69 {
            let mut s: String = "Num".to_owned();
            text::push_dec(&mut s, (k - 0x60) as i64);
            return s;
        }
        let mut s: String = "0x".to_owned();
        text::push_hex2_upper(&mut s, word_of(k));
        s
    }

    /// The words that make up the shown name: the modifiers in a fixed order, then the key.
    pub open spec fn spec_parts(self) -> Seq<Seq<char>> {
        let ctrl = if has_flag(self.modifiers, mod_flag::CONTROL) {
            seq!["Ctrl"@]
        } else {
            Seq::empty()
        };
        let alt = if has_flag(self.modifiers, mod_flag::ALT) {
            seq!["Alt"@]
        } else {
            Seq::empty()
        };
        let shift = if has_flag(self.modifiers, mod_flag::SHIFT) {
            seq!["Shift"@]
        } else {
            Seq::empty()
        };
        let win = if has_flag(self.modifiers, mod_flag::WIN) {
            seq!["Win"@]
        } else {
            Seq::empty()
        };
        let key = if self.key != 0 {
            seq![self.spec_key_name()]
        } else {
            Seq::empty()
        };
        ctrl + alt + shift + win + key
    }

    /// The shown name of the hotkey.
    pub open spec fn spec_display(self) -> Seq<char> {
        if self.spec_parts().len() == 0 {
            "(none)"@
        } else {
            text::join(self.spec_parts(), "+"@)
        }
    }

    pub fn display(&self) -> (r: String)
        ensures
            r@ == self.spec_display(),
    {
        self.display_owned()
    }

    pub fn display_owned(&self) -> (r: String)
        ensures
            r@ == self.spec_display(),
    {
        let mut parts: Vec<String> = Vec::new();
        if self.modifiers & mod_flag::CONTROL != 0 {
            parts.push("Ctrl".to_owned());
        }
        if self.modifiers & mod_flag::ALT != 0 {
            parts.push("Alt".to_owned());
        }
        if self.modifiers & mod_flag::SHIFT != 0 {
            parts.push("Shift".to_owned());
        }
        if self.modifiers & mod_flag::WIN != 0 {
            parts.push("Win".to_owned());
        }
        if self.key != 0 {
            parts.push(self.key_name());
        }
        assert(text::views(parts@) =~= self.spec_parts());
        if parts.len() == 0 {
            "(none)".to_owned()
        } else {
            text::join_parts(&parts, "+")
        }
    }
}

/// The modifier flags have the system's own values: without extra bits, the value handed to
/// the system is the set of modifiers itself.
pub proof fn law_modifier_flags_are_the_systems(c: HotkeyCombo)
    requires
        0 <= c.modifiers < 16,
    ensures
        c.spec_modifier_flags(0) == c.modifiers,
{
    let m = c.modifiers;
    assert(0 <= m < 16 ==> (0u32 | (if m & 2 != 0 {
        2u32
    } else {
        0u32
    }) | (if m & 4 != 0 {
        4u32
    } else {
        0u32
    }) | (if m & 1 != 0 {
        1u32
    } else {
        0u32
    }) | (if m & 8 != 0 {
        8u32
    } else {
        0u32
    })) == m as u32) by (bit_vector);
}

/// Registering keeps every extra bit.
pub proof fn law_modifier_flags_keep_extra(c: HotkeyCombo, extra: u32)
    ensures
        c.spec_modifier_flags(extra) & extra == extra,
{
    let a: u32 = if has_flag(c.modifiers, mod_flag::CONTROL) {
        2
    } else {
        0
    };
    let b: u32 = if has_flag(c.modifiers, mod_flag::SHIFT) {
        4
    } else {
        0
    };
    let d: u32 = if has_flag(c.modifiers, mod_flag::ALT) {
        1
    } else {
        0
    };
    let e: u32 = if has_flag(c.modifiers, mod_flag::WIN) {
        8
    } else {
        0
    };
    assert((extra | a | b | d | e) & extra == extra) by (bit_vector);
}

// ---------------------------------------------------------------------------
// HotkeyMap
// ---------------------------------------------------------------------------

/// One stored binding: the action that it belongs to, and the combination.
#[derive(Debug)]
pub struct HotkeyEntry {
    pub name: String,
    pub combo: HotkeyCombo,
}

/// The stored bindings, by the name of the action.
#[derive(Debug)]
pub struct HotkeyMap {
    entries: Vec<HotkeyEntry>,
}

spec fn first_at(entries: Seq<HotkeyEntry>, name: Seq<char>, i: int) -> bool {
    &&& 0 <= i < entries.len()
    &&& entries[i].name@ == name
    &&& forall|j: int| 0 <= j < i ==> (#[trigger] entries[j]).name@ != name
}

spec fn named(entries: Seq<HotkeyEntry>, name: Seq<char>) -> bool {
    exists|i: int| 0 <= i < entries.len() && (#[trigger] entries[i]).name@ == name
}

spec fn as_map(entries: Seq<HotkeyEntry>) -> Map<Seq<char>, HotkeyCombo> {
    Map::new(
        |name: Seq<char>| named(entries, name),
        |name: Seq<char>| entries[choose|i: int| first_at(entries, name, i)].combo,
    )
}

proof fn lemma_first_exists(entries: Seq<HotkeyEntry>, name: Seq<char>, k: int)
    requires
        0 <= k < entries.len(),
        entries[k].name@ == name,
    ensures
        exists|i: int| first_at(entries, name, i),
    decreases k,
{
    if forall|j: int| 0 <= j < k ==> (#[trigger] entries[j]).name@ != name {
        assert(first_at(entries, name, k));
    } else {
        let j = choose|j: int| 0 <= j < k && (#[trigger] entries[j]).name@ == name;
        lemma_first_exists(entries, name, j);
    }
}

proof fn lemma_first_value(entries: Seq<HotkeyEntry>, name: Seq<char>, i: int)
    requires
        first_at(entries, name, i),
    ensures
        as_map(entries).contains_key(name),
        as_map(entries)[name] == entries[i].combo,
{
    let c = choose|c: int| first_at(entries, name, c);
    assert(first_at(entries, name, c));
    if c < i {
        assert(entries[c].name@ != name);
    } else if i < c {
        assert(entries[i].name@ != name);
    }
}

proof fn lemma_other_entry(
    before: Seq<HotkeyEntry>,
    after: Seq<HotkeyEntry>,
    p: int,
    key: Seq<char>,
    k: Seq<char>,
)
    requires
        before.len() <= after.len() <= before.len() + 1,
        0 <= p < after.len(),
        p == before.len() || (before[p].name@ == key && after.len() == before.len()),
        after[p].name@ == key,
        forall|j: int|
            0 <= j < after.len() && j != p ==> j < before.len() && #[trigger] after[j] == before[j],
        k != key,
    ensures
        as_map(after).dom().contains(k) == as_map(before).dom().contains(k),
        as_map(before).dom().contains(k) ==> as_map(after)[k] == as_map(before)[k],
{
    if named(before, k) {
        let j = choose|j: int| 0 <= j < before.len() && (#[trigger] before[j]).name@ == k;
        lemma_first_exists(before, k, j);
        let f = choose|f: int| first_at(before, k, f);
        assert(f != p);
        assert(after[f] == before[f]);
        assert forall|m: int| 0 <= m < f implies (#[trigger] after[m]).name@ != k by {
            if m != p {
                assert(after[m] == before[m]);
            }
        }
        assert(first_at(after, k, f));
        lemma_first_value(before, k, f);
        lemma_first_value(after, k, f);
    }
    if named(after, k) {
        let j = choose|j: int| 0 <= j < after.len() && (#[trigger] after[j]).name@ == k;
        assert(j != p);
        assert(before[j].name@ == k);
    }
}

/// Whether a list holds each key of a map exactly once, with its value, and nothing else.
pub open spec fn lists(
    list: Seq<(Seq<char>, HotkeyCombo)>,
    m: Map<Seq<char>, HotkeyCombo>,
) -> bool {
    &&& forall|i: int, j: int|
        0 <= i < j < list.len() ==> (#[trigger] list[i]).0 != (#[trigger] list[j]).0
    &&& forall|i: int|
        0 <= i < list.len() ==> m.contains_key((#[trigger] list[i]).0) && m[list[i].0] == list[i].1
    &&& forall|name: Seq<char>| #[trigger]
        m.contains_key(name) ==> exists|i: int| 0 <= i < list.len() && (#[trigger] list[i]).0 == name
}

/// A list after a value was stored under a name: in the place of an earlier one, or at the end.
pub open spec fn listed_with(
    list: Seq<(Seq<char>, HotkeyCombo)>,
    name: Seq<char>,
    combo: HotkeyCombo,
) -> Seq<(Seq<char>, HotkeyCombo)> {
    if exists|i: int| 0 <= i < list.len() && (#[trigger] list[i]).0 == name {
        let at = choose|i: int| 0 <= i < list.len() && (#[trigger] list[i]).0 == name;
        list.update(at, (name, combo))
    } else {
        list.push((name, combo))
    }
}

proof fn lemma_listed_with(
    before: Seq<HotkeyEntry>,
    after: Seq<HotkeyEntry>,
    p: int,
    key: Seq<char>,
    combo: HotkeyCombo,
)
    requires
        before.len() <= after.len() <= before.len() + 1,
        0 <= p < after.len(),
        p == before.len() || (before[p].name@ == key && after.len() == before.len()),
        after[p].name@ == key && after[p].combo == combo,
        forall|j: int|
            0 <= j < after.len() && j != p ==> j < before.len() && #[trigger] after[j] == before[j],
        forall|j: int| 0 <= j < before.len() && j != p ==> (#[trigger] before[j]).name@ != key,
    ensures
        pairs(after) == listed_with(pairs(before), key, combo),
{
    let list = pairs(before);
    if p < before.len() {
        assert(list[p].0 == key);
        let at = choose|i: int| 0 <= i < list.len() && (#[trigger] list[i]).0 == key;
        assert(before[at].name@ == key);
        assert(at == p);
        assert(pairs(after) =~= list.update(p, (key, combo)));
    } else {
        assert forall|i: int| 0 <= i < list.len() implies (#[trigger] list[i]).0 != key by {
            assert(before[i].name@ != key);
        }
        assert(pairs(after) =~= list.push((key, combo)));
    }
}

/// The names and combinations of entries.
spec fn pairs(entries: Seq<HotkeyEntry>) -> Seq<(Seq<char>, HotkeyCombo)> {
    entries.map_values(|e: HotkeyEntry| (e.name@, e.combo))
}

/// Whether no name is listed twice.
spec fn distinct(entries: Seq<HotkeyEntry>) -> bool {
    forall|i: int, j: int|
        0 <= i < j < entries.len() ==> (#[trigger] entries[i]).name@ != (
        #[trigger] entries[j]).name@
}

proof fn lemma_entries_list_the_map(entries: Seq<HotkeyEntry>)
    requires
        distinct(entries),
    ensures
        lists(pairs(entries), as_map(entries)),
{
    let list = pairs(entries);
    let m = as_map(entries);
    assert forall|i: int| 0 <= i < list.len() implies m.contains_key((#[trigger] list[i]).0)
        && m[list[i].0] == list[i].1 by {
        let name = entries[i].name@;
        assert forall|j: int| 0 <= j < i implies (#[trigger] entries[j]).name@ != name by {}
        lemma_first_value(entries, name, i);
    }
    assert forall|name: Seq<char>| #[trigger] m.contains_key(name) implies exists|i: int|
        0 <= i < list.len() && (#[trigger] list[i]).0 == name by {
        let i = choose|i: int| 0 <= i < entries.len() && (#[trigger] entries[i]).name@ == name;
        assert(list[i].0 == name);
    }
}

impl View for HotkeyMap {
    type V = Map<Seq<char>, HotkeyCombo>;

    closed spec fn view(&self) -> Map<Seq<char>, HotkeyCombo> {
        as_map(self.entries@)
    }
}

impl HotkeyMap {
    #[verifier::type_invariant]
    spec fn names_are_distinct(self) -> bool {
        distinct(self.entries@)
    }

    pub fn new() -> (r: Self)
        ensures
            r@ == Map::<Seq<char>, HotkeyCombo>::empty(),
            r.listed() == Seq::<(Seq<char>, HotkeyCombo)>::empty(),
    {
        let r: HotkeyMap = HotkeyMap { entries: Vec::new() };
        assert(r@ =~= Map::<Seq<char>, HotkeyCombo>::empty());
        assert(r.listed() =~= Seq::<(Seq<char>, HotkeyCombo)>::empty());
        r
    }

    fn position(&self, name: &str) -> (r: Option<usize>)
        ensures
            match r {
                Some(i) => first_at(self.entries@, name@, i as int),
                None => !named(self.entries@, name@),
            },
    {
        let mut i: usize = 0;
        while i < self.entries.len()
            invariant
                i <= self.entries.len(),
                forall|j: int| 0 <= j < i ==> (#[trigger] self.entries@[j]).name@ != name@,
            decreases self.entries.len() - i,
        {
            if text::same_text(self.entries[i].name.as_str(), name) {
                return Some(i);
            }
            i = i + 1;
        }
        None
    }

    /// The combination stored under a name.
    pub fn get(&self, name: &str) -> (r: Option<HotkeyCombo>)
        ensures
            r == (if self@.contains_key(name@) {
                Some(self@[name@])
            } else {
                None::<HotkeyCombo>
            }),
    {
        match self.position(name) {
            Some(i) => {
                proof {
                    lemma_first_value(self.entries@, name@, i as int);
                }
                Some(self.entries[i].combo)
            },
            None => None,
        }
    }

    /// Stores a combination under a name, in place of an earlier one.
    pub fn insert(&mut self, name: String, combo: HotkeyCombo)
        ensures
            final(self)@ == old(self)@.insert(name@, combo),
            final(self).listed() == listed_with(old(self).listed(), name@, combo),
            lists(final(self).listed(), final(self)@),
    {
        proof {
            use_type_invariant(&*self);
        }
        let ghost before = self.entries@;
        let ghost key = name@;
        let at: Option<usize> = self.position(name.as_str());
        let e: HotkeyEntry = HotkeyEntry { name, combo };
        let mut entries: Vec<HotkeyEntry> = Vec::new();
        std::mem::swap(&mut entries, &mut self.entries);
        match at {
            Some(i) => {
                entries.set(i, e);
            },
            None => {
                entries.push(e);
            },
        }
        proof {
            let after = entries@;
            let ghost p: int = match at {
                Some(i) => i as int,
                None => before.len() as int,
            };
            assert(after.len() >= before.len());
            assert(after[p].name@ == key && after[p].combo == combo);
            assert forall|j: int| 0 <= j < after.len() && j != p implies j < before.len()
                && #[trigger] after[j] == before[j] by {}
            assert forall|j: int| 0 <= j < before.len() && j != p implies (
            #[trigger] before[j]).name@ != key by {
                if j < p && p < before.len() {
                    assert(before[p].name@ == key);
                }
            }
            assert(distinct(after));
            assert(first_at(after, key, p));
            lemma_first_value(after, key, p);
            assert forall|k: Seq<char>| k != key implies #[trigger] as_map(after).dom().contains(k)
                == as_map(before).dom().contains(k) by {
                lemma_other_entry(before, after, p, key, k);
            }
            assert forall|k: Seq<char>| k != key && as_map(before).dom().contains(k) implies
                #[trigger] as_map(after)[k] == as_map(before)[k] by {
                lemma_other_entry(before, after, p, key, k);
            }
            assert(as_map(after) =~= as_map(before).insert(key, combo));
            lemma_entries_list_the_map(after);
            lemma_listed_with(before, after, p, key, combo);
        }
        self.entries = entries;
    }

    /// The number of stored bindings.
    pub fn len(&self) -> (r: usize)
        ensures
            r == self.listed().len(),
            lists(self.listed(), self@),
    {
        proof {
            use_type_invariant(self);
            lemma_entries_list_the_map(self.entries@);
        }
        self.entries.len()
    }

    /// The stored bindings in the order in which they were first stored.
    pub closed spec fn listed(&self) -> Seq<(Seq<char>, HotkeyCombo)> {
        pairs(self.entries@)
    }

    /// The binding at a place of the list.
    pub fn entry(&self, i: usize) -> (r: (String, HotkeyCombo))
        requires
            i < self.listed().len(),
        ensures
            (r.0@, r.1) == self.listed()[i as int],
            lists(self.listed(), self@),
    {
        proof {
            use_type_invariant(self);
            lemma_entries_list_the_map(self.entries@);
        }
        (self.entries[i].name.clone(), self.entries[i].combo)
    }

    /// A copy of the map.
    pub fn copy(&self) -> (r: HotkeyMap)
        ensures
            r@ == self@,
            r.listed() == self.listed(),
    {
        proof {
            use_type_invariant(self);
        }
        let mut out: Vec<HotkeyEntry> = Vec::new();
        let mut i: usize = 0;
        while i < self.entries.len()
            invariant
                i <= self.entries.len(),
                out@ == self.entries@.take(i as int),
            decreases self.entries.len() - i,
        {
            out.push(
                HotkeyEntry { name: self.entries[i].name.clone(), combo: self.entries[i].combo },
            );
            i = i + 1;
            assert(out@ =~= self.entries@.take(i as int));
        }
        assert(self.entries@.take(i as int) =~= self.entries@);
        HotkeyMap { entries: out }
    }
}

// ---------------------------------------------------------------------------
// SettingsBindings
// ---------------------------------------------------------------------------

#[derive(Debug, Clone, Copy, PartialEq, Eq, Structural)]
pub struct SettingsBindings {
    pub record: HotkeyCombo,
    pub play: HotkeyCombo,
    pub stop: HotkeyCombo,
    pub static_clicker: HotkeyCombo,
}

/// Control, Shift and Alt together.
pub const CONTROL_SHIFT_ALT: i32 = 0x0007;

/// The bindings that hold where nothing else is stored.
pub open spec fn default_bindings() -> SettingsBindings {
    SettingsBindings {
        record: HotkeyCombo { modifiers: CONTROL_SHIFT_ALT, key: 82 },
        play: HotkeyCombo { modifiers: CONTROL_SHIFT_ALT, key: 80 },
        stop: HotkeyCombo { modifiers: CONTROL_SHIFT_ALT, key: 83 },
        static_clicker: HotkeyCombo { modifiers: 0, key: 0x75 },
    }
}

impl Default for SettingsBindings {
    fn default() -> (r: Self)
        ensures
            r == default_bindings(),
    {
        SettingsBindings {
            record: HotkeyCombo::new(CONTROL_SHIFT_ALT, 82),
            play: HotkeyCombo::new(CONTROL_SHIFT_ALT, 80),
            stop: HotkeyCombo::new(CONTROL_SHIFT_ALT, 83),
            static_clicker: HotkeyCombo::new(0, 0x75),
        }
    }
}

/// The combination stored under a name, or else a fallback.
pub open spec fn stored_or(
    m: Map<Seq<char>, HotkeyCombo>,
    name: Seq<char>,
    fallback: HotkeyCombo,
) -> HotkeyCombo {
    if m.contains_key(name) {
        m[name]
    } else {
        fallback
    }
}

/// The bindings that a stored map stands for.
pub open spec fn bindings_of(m: Map<Seq<char>, HotkeyCombo>) -> SettingsBindings {
    SettingsBindings {
        record: stored_or(m, "Record"@, default_bindings().record),
        play: stored_or(m, "Play"@, default_bindings().play),
        stop: stored_or(m, "Stop"@, default_bindings().stop),
        static_clicker: stored_or(m, "StaticClicker"@, default_bindings().static_clicker),
    }
}

/// The map in which bindings are stored.
pub open spec fn map_of(b: SettingsBindings) -> Map<Seq<char>, HotkeyCombo> {
    Map::<Seq<char>, HotkeyCombo>::empty().insert("Record"@, b.record).insert(
        "Play"@,
        b.play,
    ).insert("Stop"@, b.stop).insert("StaticClicker"@, b.static_clicker)
}

impl SettingsBindings {
    pub const KEY_RECORD: &'static str = "Record";

    pub const KEY_PLAY: &'static str = "Play";

    pub const KEY_STOP: &'static str = "Stop";

    pub const KEY_STATIC: &'static str = "StaticClicker";

    /// The bindings that a stored map holds, with the default for each that it lacks.
    pub fn from_map(map: Option<&HotkeyMap>) -> (r: Self)
        ensures
            r == (match map {
                Some(m) => bindings_of(m@),
                None => default_bindings(),
            }),
    {
        let mut b: SettingsBindings = SettingsBindings::default();
        if let Some(m) = map {
            if let Some(v) = m.get(SettingsBindings::KEY_RECORD) {
                b.record = v;
            }
            if let Some(v) = m.get(SettingsBindings::KEY_PLAY) {
                b.play = v;
            }
            if let Some(v) = m.get(SettingsBindings::KEY_STOP) {
                b.stop = v;
            }
            if let Some(v) = m.get(SettingsBindings::KEY_STATIC) {
                b.static_clicker = v;
            }
        }
        b
    }

    /// The map in which the bindings are stored.
    pub fn to_map(&self) -> (r: HotkeyMap)
        ensures
            r@ == map_of(*self),
    {
        let mut m: HotkeyMap = HotkeyMap::new();
        m.insert(SettingsBindings::KEY_RECORD.to_owned(), self.record);
        m.insert(SettingsBindings::KEY_PLAY.to_owned(), self.play);
        m.insert(SettingsBindings::KEY_STOP.to_owned(), self.stop);
        m.insert(SettingsBindings::KEY_STATIC.to_owned(), self.static_clicker);
        m
    }
}

/// Bindings that were stored come back as they were.
pub proof fn law_bindings_survive_storing(b: SettingsBindings)
    ensures
        bindings_of(map_of(b)) == b,
{
    reveal_strlit("Record");
    reveal_strlit("Play");
    reveal_strlit("Stop");
    reveal_strlit("StaticClicker");
    assert("Record"@.len() == 6);
    assert("Play"@.len() == 4);
    assert("Stop"@.len() == 4);
    assert("StaticClicker"@.len() == 13);
    assert("Play"@[0] != "Stop"@[0]);
}

// ---------------------------------------------------------------------------
// AppConfig
// ---------------------------------------------------------------------------

/// Everything that is stored between two runs.
#[derive(Debug)]
pub struct AppConfig {
    pub hotkeys: HotkeyMap,
    pub default_speed: Double,
    pub loop_count: i32,
    pub infinite_loop: bool,
    pub interval_ms: i32,
    pub always_on_top: bool,
    pub last_file_path: Option<String>,
    pub sequence_panel_collapsed: bool,
    pub sequence_panel_width: Double,
    pub sequence_panel_popped_out: bool,
    pub static_clicker_interval_ms: u64,
    pub static_clicker_button: MouseButton,
    pub static_clicker_click_type: ClickType,
    pub static_clicker_repeat_until_stopped: bool,
    pub static_clicker_repeat_count: i32,
    pub static_clicker_cursor_mode: CursorMode,
    pub static_clicker_foreground: bool,
    pub static_clicker_bg_title: String,
    pub static_clicker_sequence_targets: Vec<SequenceTarget>,
    pub static_clicker_sequence_enabled: bool,
    pub static_clicker_interval_jitter_ms: u32,
    pub static_clicker_position_jitter_px: u32,
    pub static_clicker_presets: Vec<StaticClickerPreset>,
}

/// The speed of a configuration that names none.
pub fn default_speed() -> (r: Double)
    ensures
        r.bits == crate::double::ONE_BITS,
{
    Double::one()
}

/// The loop count of a configuration that names none.
pub fn default_loop_count() -> (r: i32)
    ensures
        r == 1,
{
    1
}

/// The panel width of a configuration that names none.
pub fn default_panel_width() -> (r: Double)
    ensures
        r.bits == W380_BITS,
{
    Double { bits: W380_BITS }
}

/// The click interval of a configuration that names none.
pub fn default_static_interval() -> (r: u64)
    ensures
        r == 100,
{
    100
}

/// The mouse button of a configuration that names none.
pub fn default_static_button() -> (r: MouseButton)
    ensures
        r == MouseButton::Left,
{
    MouseButton::Left
}

/// The value of a switch that is on unless a configuration says otherwise.
pub fn default_true() -> (r: bool)
    ensures
        r,
{
    true
}

/// The repeat count of a configuration that names none.
pub fn default_repeat_count() -> (r: i32)
    ensures
        r == 1,
{
    1
}

/// The static clicker settings as they are stored.
pub struct StaticState {
    pub interval_ms: u64,
    pub button: MouseButton,
    pub click_type: ClickType,
    pub repeat_until_stopped: bool,
    pub repeat_count: i32,
    pub cursor_mode: CursorMode,
    pub foreground: bool,
    pub bg_title: String,
    pub sequence_targets: Vec<SequenceTarget>,
    pub sequence_enabled: bool,
    pub interval_jitter_ms: u32,
    pub position_jitter_px: u32,
}

impl AppConfig {
    /// Whether every setting has its default.
    pub open spec fn is_default(self) -> bool {
        &&& self.hotkeys@ == Map::<Seq<char>, HotkeyCombo>::empty()
        &&& self.default_speed.bits == crate::double::ONE_BITS
        &&& self.loop_count == 1
        &&& !self.infinite_loop
        &&& self.interval_ms == 0
        &&& !self.always_on_top
        &&& self.last_file_path is None
        &&& !self.sequence_panel_collapsed
        &&& self.sequence_panel_width.bits == W380_BITS
        &&& !self.sequence_panel_popped_out
        &&& self.static_clicker_interval_ms == 100
        &&& self.static_clicker_button == MouseButton::Left
        &&& self.static_clicker_click_type == ClickType::Single
        &&& self.static_clicker_repeat_until_stopped
        &&& self.static_clicker_repeat_count == 1
        &&& self.static_clicker_cursor_mode == CursorMode::Current
        &&& self.static_clicker_foreground
        &&& self.static_clicker_bg_title@ == Seq::<char>::empty()
        &&& self.static_clicker_sequence_targets@ == Seq::<SequenceTarget>::empty()
        &&& self.static_clicker_sequence_enabled
        &&& self.static_clicker_interval_jitter_ms == 0
        &&& self.static_clicker_position_jitter_px == 0
        &&& self.static_clicker_presets@ == Seq::<StaticClickerPreset>::empty()
    }

    /// The saved presets, as mathematical values.
    pub open spec fn presets(self) -> Seq<PresetView> {
        presets::preset_views(self.static_clicker_presets@)
    }

    /// Stores the settings of the recording window.
    pub fn store_playback(
        &mut self,
        speed: Double,
        loop_count: i32,
        infinite: bool,
        interval_ms: i32,
        always_on_top: bool,
        bindings: &SettingsBindings,
    )
        ensures
            *final(self) == (AppConfig {
                default_speed: speed,
                loop_count,
                infinite_loop: infinite,
                interval_ms,
                always_on_top,
                hotkeys: final(self).hotkeys,
                ..*old(self)
            }),
            final(self).hotkeys@ == map_of(*bindings),
    {
        self.default_speed = speed;
        self.loop_count = loop_count;
        self.infinite_loop = infinite;
        self.interval_ms = interval_ms;
        self.always_on_top = always_on_top;
        self.hotkeys = bindings.to_map();
    }

    /// Stores the state of the sequence panel.
    pub fn store_panel(&mut self, collapsed: bool, width: Double, popped_out: bool)
        ensures
            *final(self) == (AppConfig {
                sequence_panel_collapsed: collapsed,
                sequence_panel_width: width,
                sequence_panel_popped_out: popped_out,
                ..*old(self)
            }),
    {
        self.sequence_panel_collapsed = collapsed;
        self.sequence_panel_width = width;
        self.sequence_panel_popped_out = popped_out;
    }

    /// Stores the static clicker settings.
    pub fn store_static(&mut self, s: StaticState)
        ensures
            *final(self) == (AppConfig {
                static_clicker_interval_ms: s.interval_ms,
                static_clicker_button: s.button,
                static_clicker_click_type: s.click_type,
                static_clicker_repeat_until_stopped: s.repeat_until_stopped,
                static_clicker_repeat_count: s.repeat_count,
                static_clicker_cursor_mode: s.cursor_mode,
                static_clicker_foreground: s.foreground,
                static_clicker_bg_title: s.bg_title,
                static_clicker_sequence_targets: s.sequence_targets,
                static_clicker_sequence_enabled: s.sequence_enabled,
                static_clicker_interval_jitter_ms: s.interval_jitter_ms,
                static_clicker_position_jitter_px: s.position_jitter_px,
                ..*old(self)
            }),
    {
        self.static_clicker_interval_ms = s.interval_ms;
        self.static_clicker_button = s.button;
        self.static_clicker_click_type = s.click_type;
        self.static_clicker_repeat_until_stopped = s.repeat_until_stopped;
        self.static_clicker_repeat_count = s.repeat_count;
        self.static_clicker_cursor_mode = s.cursor_mode;
        self.static_clicker_foreground = s.foreground;
        self.static_clicker_bg_title = s.bg_title;
        self.static_clicker_sequence_targets = s.sequence_targets;
        self.static_clicker_sequence_enabled = s.sequence_enabled;
        self.static_clicker_interval_jitter_ms = s.interval_jitter_ms;
        self.static_clicker_position_jitter_px = s.position_jitter_px;
    }

    /// Whether there are presets.
    pub fn has_presets(&self) -> (r: bool)
        ensures
            r == (self.presets().len() > 0),
    {
        self.static_clicker_presets.len() > 0
    }

    /// Stores the path of the macro that was opened or saved last.
    pub fn store_last_file(&mut self, path: String)
        ensures
            *final(self) == (AppConfig { last_file_path: Some(path), ..*old(self) }),
    {
        self.last_file_path = Some(path);
    }

    /// Stores whether the window stays on top.
    pub fn store_always_on_top(&mut self, on: bool)
        ensures
            *final(self) == (AppConfig { always_on_top: on, ..*old(self) }),
    {
        self.always_on_top = on;
    }

    /// Stores the static clicker hotkey; the other bindings stay as they are read.
    pub fn store_static_hotkey(&mut self, combo: HotkeyCombo)
        ensures
            *final(self) == (AppConfig { hotkeys: final(self).hotkeys, ..*old(self) }),
            final(self).hotkeys@ == map_of(
                SettingsBindings { static_clicker: combo, ..bindings_of(old(self).hotkeys@) },
            ),
    {
        let mut b: SettingsBindings = SettingsBindings::from_map(Some(&self.hotkeys));
        b.static_clicker = combo;
        self.hotkeys = b.to_map();
    }

    /// Saves a preset under its name.
    pub fn store_preset(&mut self, preset: StaticClickerPreset)
        ensures
            *final(self) == (AppConfig {
                static_clicker_presets: final(self).static_clicker_presets,
                ..*old(self)
            }),
            final(self).presets() == presets::with_preset(old(self).presets(), preset@),
    {
        presets::put_preset(&mut self.static_clicker_presets, preset);
    }

    /// Deletes the presets of that name.
    pub fn delete_preset(&mut self, name: &str)
        ensures
            *final(self) == (AppConfig {
                static_clicker_presets: final(self).static_clicker_presets,
                ..*old(self)
            }),
            final(self).presets() == presets::without_preset(old(self).presets(), name@),
    {
        presets::remove_preset(&mut self.static_clicker_presets, name);
    }
}

impl Default for AppConfig {
    fn default() -> (r: Self)
        ensures
            r.is_default(),
    {
        AppConfig {
            hotkeys: HotkeyMap::new(),
            default_speed: default_speed(),
            loop_count: default_loop_count(),
            infinite_loop: false,
            interval_ms: 0,
            always_on_top: false,
            last_file_path: None,
            sequence_panel_collapsed: false,
            sequence_panel_width: default_panel_width(),
            sequence_panel_popped_out: false,
            static_clicker_interval_ms: default_static_interval(),
            static_clicker_button: default_static_button(),
            static_clicker_click_type: ClickType::default(),
            static_clicker_repeat_until_stopped: default_true(),
            static_clicker_repeat_count: default_repeat_count(),
            static_clicker_cursor_mode: CursorMode::default(),
            static_clicker_foreground: default_true(),
            static_clicker_bg_title: String::new(),
            static_clicker_sequence_targets: Vec::new(),
            static_clicker_sequence_enabled: default_true(),
            static_clicker_interval_jitter_ms: 0,
            static_clicker_position_jitter_px: 0,
            static_clicker_presets: Vec::new(),
        }
    }
}

/// Storing the static clicker hotkey keeps the other three bindings.
pub proof fn law_static_hotkey_keeps_the_others(
    stored: Map<Seq<char>, HotkeyCombo>,
    combo: HotkeyCombo,
)
    ensures
        bindings_of(
            map_of(SettingsBindings { static_clicker: combo, ..bindings_of(stored) }),
        ) == (SettingsBindings { static_clicker: combo, ..bindings_of(stored) }),
{
    law_bindings_survive_storing(SettingsBindings { static_clicker: combo, ..bindings_of(stored) });
}

// ---------------------------------------------------------------------------
// ConfigService
// ---------------------------------------------------------------------------

/// Where the path of a configuration file begins.
#[derive(Debug, Clone, Copy, PartialEq, Eq, Structural)]
pub enum PathBase {
    /// The user's configuration directory.
    ConfigDir,
    /// The directory of the program.
    ProgramDir,
    /// The working directory.
    WorkingDir,
}

/// A path, as a base and the names to append to it.
#[derive(Debug)]
pub struct ConfigPath {
    pub base: PathBase,
    pub parts: Vec<String>,
}

/// A path as a mathematical value.
#[verifier::ext_equal]
pub struct ConfigPathView {
    pub base: PathBase,
    pub parts: Seq<Seq<char>>,
}

impl View for ConfigPath {
    type V = ConfigPathView;

    open spec fn view(&self) -> ConfigPathView {
        ConfigPathView { base: self.base, parts: text::views(self.parts@) }
    }
}

/// The configuration path under a folder of that name; beside the program where the user
/// has no configuration directory.
pub open spec fn config_path_in(
    folder: Seq<char>,
    has_config_dir: bool,
    has_program_dir: bool,
) -> ConfigPathView {
    if has_config_dir {
        ConfigPathView { base: PathBase::ConfigDir, parts: seq![folder, "config.json"@] }
    } else if has_program_dir {
        ConfigPathView { base: PathBase::ProgramDir, parts: seq!["config.json"@] }
    } else {
        ConfigPathView { base: PathBase::WorkingDir, parts: seq!["config.json"@] }
    }
}

/// What a configuration file gave when it was read.
#[derive(Debug)]
pub enum ConfigFile {
    Missing,
    Unreadable,
    Corrupt,
    Parsed(AppConfig),
}

pub struct ConfigService;

impl ConfigService {
    fn path_in(folder: &str, has_config_dir: bool, has_program_dir: bool) -> (r: ConfigPath)
        ensures
            r@ == config_path_in(folder@, has_config_dir, has_program_dir),
    {
        let mut parts: Vec<String> = Vec::new();
        if has_config_dir {
            parts.push(folder.to_owned());
        }
        parts.push("config.json".to_owned());
        let base: PathBase = if has_config_dir {
            PathBase::ConfigDir
        } else if has_program_dir {
            PathBase::ProgramDir
        } else {
            PathBase::WorkingDir
        };
        let r: ConfigPath = ConfigPath { base, parts };
        assert(r@ =~= config_path_in(folder@, has_config_dir, has_program_dir));
        r
    }

    /// The path of the configuration file, before any migration.
    pub fn new_config_path_raw(has_config_dir: bool, has_program_dir: bool) -> (r: ConfigPath)
        ensures
            r@ == config_path_in("Clickei"@, has_config_dir, has_program_dir),
    {
        ConfigService::path_in("Clickei", has_config_dir, has_program_dir)
    }

    /// The path at which the program kept its configuration under its old name.
    pub fn old_config_path_raw(has_config_dir: bool, has_program_dir: bool) -> (r: ConfigPath)
        ensures
            r@ == config_path_in("TinyTaskEnhanced"@, has_config_dir, has_program_dir),
    {
        ConfigService::path_in("TinyTaskEnhanced", has_config_dir, has_program_dir)
    }

    /// Whether the configuration at the old path is to be copied to the new one: they are two
    /// paths, the old file exists, and the new one does not.
    pub fn migrate_old_config_if_needed(
        has_config_dir: bool,
        has_program_dir: bool,
        new_exists: bool,
        old_exists: bool,
    ) -> (r: bool)
        ensures
            r == (config_path_in("Clickei"@, has_config_dir, has_program_dir) != config_path_in(
                "TinyTaskEnhanced"@,
                has_config_dir,
                has_program_dir,
            ) && !new_exists && old_exists),
    {
        proof {
            law_old_and_new_paths_differ(has_config_dir, has_program_dir);
        }
        has_config_dir && !new_exists && old_exists
    }

    /// The path of the configuration file.
    pub fn config_path(has_config_dir: bool, has_program_dir: bool) -> (r: ConfigPath)
        ensures
            r@ == config_path_in("Clickei"@, has_config_dir, has_program_dir),
    {
        ConfigService::new_config_path_raw(has_config_dir, has_program_dir)
    }

    /// The directory that holds the configuration file.
    pub fn app_data_dir(has_config_dir: bool, has_program_dir: bool) -> (r: ConfigPath)
        ensures
            r@ == (ConfigPathView {
                parts: config_path_in("Clickei"@, has_config_dir, has_program_dir).parts.drop_last(),
                ..config_path_in("Clickei"@, has_config_dir, has_program_dir)
            }),
    {
        let mut r: ConfigPath = ConfigService::config_path(has_config_dir, has_program_dir);
        let ghost parts = r@.parts;
        assert(r.parts.len() == parts.len());
        r.parts.pop();
        assert(r@.parts =~= parts.drop_last());
        r
    }

    /// The configuration that a file holds; the defaults where it holds none.
    pub fn load_from(file: ConfigFile) -> (r: AppConfig)
        ensures
            match file {
                ConfigFile::Parsed(c) => r == c,
                _ => r.is_default(),
            },
    {
        match file {
            ConfigFile::Parsed(c) => c,
            _ => AppConfig::default(),
        }
    }

    /// What is reported where the directory could not be made.
    pub fn mkdir_error(path: &str, error: &str) -> (r: String)
        ensures
            r@ == "mkdir "@ + path@ + ": "@ + error@,
    {
        let mut s: String = "mkdir ".to_owned();
        s.append(path);
        s.append(": ");
        s.append(error);
        s
    }

    /// What is reported where the file could not be written.
    pub fn write_error(path: &str, error: &str) -> (r: String)
        ensures
            r@ == "write "@ + path@ + ": "@ + error@,
    {
        let mut s: String = "write ".to_owned();
        s.append(path);
        s.append(": ");
        s.append(error);
        s
    }
}

/// The old and the new path differ exactly where the user has a configuration directory.
pub proof fn law_old_and_new_paths_differ(has_config_dir: bool, has_program_dir: bool)
    ensures
        (config_path_in("Clickei"@, has_config_dir, has_program_dir) != config_path_in(
            "TinyTaskEnhanced"@,
            has_config_dir,
            has_program_dir,
        )) == has_config_dir,
{
    if has_config_dir {
        reveal_strlit("Clickei");
        reveal_strlit("TinyTaskEnhanced");
        assert("Clickei"@.len() == 7);
        assert("TinyTaskEnhanced"@.len() == 16);
        assert(config_path_in("Clickei"@, true, has_program_dir).parts[0] == "Clickei"@);
        assert(config_path_in("TinyTaskEnhanced"@, true, has_program_dir).parts[0]
            == "TinyTaskEnhanced"@);
    }
}

} // verus!
