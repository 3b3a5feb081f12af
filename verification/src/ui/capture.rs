//! Catching the combination that the user presses for a hotkey.

use std::collections::HashSet;

use vstd::prelude::*;

use crate::config;
use crate::config::mod_flag;
use crate::config::HotkeyCombo;
use crate::keys;

verus! {

broadcast use vstd::std_specs::hash::group_hash_axioms;

/// A flag, or none.
pub open spec fn flag_if(flag: i32, set: bool) -> int {
    if set {
        flag as int
    } else {
        0
    }
}

/// The modifiers of a combination that has these.
pub open spec fn modifiers_of(ctrl: bool, shift: bool, alt: bool, win: bool) -> int {
    flag_if(mod_flag::CONTROL, ctrl) + flag_if(mod_flag::SHIFT, shift) + flag_if(
        mod_flag::ALT,
        alt,
    ) + flag_if(mod_flag::WIN, win)
}

/// The modifiers among the keys that are down.
pub open spec fn held_modifiers(down: Set<i32>) -> int {
    modifiers_of(
        keys::ctrl_in(down),
        keys::shift_in(down),
        keys::alt_in(down),
        keys::win_in(down),
    )
}

fn combine(ctrl: bool, shift: bool, alt: bool, win: bool) -> (r: i32)
    ensures
        r == modifiers_of(ctrl, shift, alt, win),
{
    let mut mods: i32 = 0;
    if ctrl {
        mods = mods + mod_flag::CONTROL;
    }
    if shift {
        mods = mods + mod_flag::SHIFT;
    }
    if alt {
        mods = mods + mod_flag::ALT;
    }
    if win {
        mods = mods + mod_flag::WIN;
    }
    mods
}

/// Consecutive keys.
pub open spec fn key_range(first: int, last: int) -> Seq<i32> {
    Seq::new((last - first + 1) as nat, |i: int| (first + i) as i32)
}

/// The keys that a hotkey can have, in the order in which they are looked for: the number
/// pad before the row of digits, function keys, navigation, digits, letters, and others.
pub open spec fn candidates() -> Seq<i32> {
    key_range(0x60, 0x69) + seq![0x6A, 0x6B, 0x6D, 0x6E, 0x6F] + key_range(0x70, 0x7B) + seq![
        0x24,
        0x23,
        0x21,
        0x22,
        0x2D,
        0x2E,
        0x25,
        0x26,
        0x27,
        0x28,
    ] + key_range(0x30, 0x39) + key_range(0x41, 0x5A) + seq![0x20, 0x0D, 0x09, 0x08, 0x1B, 0x2C]
}

fn push_range(list: &mut Vec<i32>, first: i32, last: i32)
    requires
        first <= last < 0x1000,
        0 <= first,
    ensures
        final(list)@ == old(list)@ + key_range(first as int, last as int),
{
    let mut key: i32 = first;
    proof {
        assert(list@ =~= old(list)@ + key_range(first as int, first - 1));
    }
    while key <= last
        invariant
            0 <= first <= key <= last + 1,
            last < 0x1000,
            list@ == old(list)@ + key_range(first as int, key - 1),
        decreases last + 1 - key,
    {
        list.push(key);
        key = key + 1;
        proof {
            assert(list@ =~= old(list)@ + key_range(first as int, key - 1));
        }
    }
}

fn candidate_keys() -> (r: Vec<i32>)
    ensures
        r@ == candidates(),
{
    let mut list: Vec<i32> = Vec::new();
    push_range(&mut list, 0x60, 0x69);
    list.push(0x6A);
    list.push(0x6B);
    list.push(0x6D);
    list.push(0x6E);
    list.push(0x6F);
    push_range(&mut list, 0x70, 0x7B);
    list.push(0x24);
    list.push(0x23);
    list.push(0x21);
    list.push(0x22);
    list.push(0x2D);
    list.push(0x2E);
    list.push(0x25);
    list.push(0x26);
    list.push(0x27);
    list.push(0x28);
    push_range(&mut list, 0x30, 0x39);
    push_range(&mut list, 0x41, 0x5A);
    list.push(0x20);
    list.push(0x0D);
    list.push(0x09);
    list.push(0x08);
    list.push(0x1B);
    list.push(0x2C);
    proof {
        assert(list@ =~= candidates());
    }
    list
}

/// The first of some keys that is down.
pub open spec fn first_down(list: Seq<i32>, down: Set<i32>) -> Option<i32>
    decreases list.len(),
{
    if list.len() == 0 {
        None
    } else if down.contains(list[0]) {
        Some(list[0])
    } else {
        first_down(list.skip(1), down)
    }
}

/// The combination that is pressed, if one is. Escape alone stands for no hotkey.
pub open spec fn pressed_combo(down: Set<i32>) -> Option<HotkeyCombo> {
    if down.contains(keys::VK_ESCAPE) && held_modifiers(down) == 0 {
        Some(HotkeyCombo { modifiers: 0, key: 0 })
    } else {
        match first_down(candidates(), down) {
            Some(key) => Some(HotkeyCombo { modifiers: held_modifiers(down) as i32, key }),
            None => None,
        }
    }
}

/// The combination that is pressed, given the keys that are down.
pub fn poll_win32_hotkey(down: &HashSet<i32>) -> (r: Option<HotkeyCombo>)
    ensures
        r == pressed_combo(down@),
{
    let mods: i32 = combine(
        keys::ctrl_down(down),
        keys::shift_down(down),
        keys::alt_down(down),
        keys::win_down(down),
    );
    if down.contains(&keys::VK_ESCAPE) && mods == 0 {
        return Some(HotkeyCombo::none());
    }
    let list: Vec<i32> = candidate_keys();
    let mut i: usize = 0;
    proof {
        assert(list@.skip(0) =~= list@);
    }
    while i < list.len()
        invariant
            i <= list.len(),
            list@ == candidates(),
            mods == held_modifiers(down@),
            !(down@.contains(keys::VK_ESCAPE) && mods == 0),
            first_down(list@, down@) == first_down(list@.skip(i as int), down@),
        decreases list.len() - i,
    {
        let key: i32 = list[i];
        proof {
            assert(list@.skip(i as int)[0] == key);
            assert(list@.skip(i as int).skip(1) =~= list@.skip(i + 1));
        }
        if down.contains(&key) {
            return Some(HotkeyCombo::new(mods, key));
        }
        i = i + 1;
    }
    None
}

/// The keys that are looked for: those that can be asked of the system.
pub fn keys_to_ask() -> (r: Vec<i32>)
    ensures
        r@ == candidates() + seq![
            0x11i32,
            0xA2,
            0xA3,
            0x10,
            0xA0,
            0xA1,
            0x12,
            0xA4,
            0xA5,
            0x5B,
            0x5C,
        ],
{
    let mut list: Vec<i32> = candidate_keys();
    list.push(0x11);
    list.push(0xA2);
    list.push(0xA3);
    list.push(0x10);
    list.push(0xA0);
    list.push(0xA1);
    list.push(0x12);
    list.push(0xA4);
    list.push(0xA5);
    list.push(0x5B);
    list.push(0x5C);
    proof {
        assert(list@ =~= candidates() + seq![
            0x11i32,
            0xA2,
            0xA3,
            0x10,
            0xA0,
            0xA1,
            0x12,
            0xA4,
            0xA5,
            0x5B,
            0x5C,
        ]);
    }
    list
}

/// A caught combination is the one that is held: pressed with just the modifiers that it has.
pub proof fn law_caught_combination_is_pressed(down: Set<i32>)
    ensures
        pressed_combo(down) matches Some(c) ==> c.key == 0 || keys::pressed(c, down),
{
    lemma_first_down_is_down(candidates(), down);
    lemma_modifiers_read_back(
        keys::ctrl_in(down),
        keys::shift_in(down),
        keys::alt_in(down),
        keys::win_in(down),
    );
}

proof fn lemma_modifiers_read_back(ctrl: bool, shift: bool, alt: bool, win: bool)
    ensures
        ({
            let m = modifiers_of(ctrl, shift, alt, win) as i32;
            &&& config::has_flag(m, mod_flag::CONTROL) == ctrl
            &&& config::has_flag(m, mod_flag::SHIFT) == shift
            &&& config::has_flag(m, mod_flag::ALT) == alt
            &&& config::has_flag(m, mod_flag::WIN) == win
        }),
{
    let m = modifiers_of(ctrl, shift, alt, win) as i32;
    assert(0 <= m < 16);
    assert((m & 1i32 != 0) == (m == 1 || m == 3 || m == 5 || m == 7 || m == 9 || m == 11 || m == 13
        || m == 15)) by (bit_vector)
        requires
            0 <= m < 16,
    ;
    assert((m & 2i32 != 0) == (m == 2 || m == 3 || m == 6 || m == 7 || m == 10 || m == 11 || m == 14
        || m == 15)) by (bit_vector)
        requires
            0 <= m < 16,
    ;
    assert((m & 4i32 != 0) == ((4 <= m && m < 8) || 12 <= m)) by (bit_vector)
        requires
            0 <= m < 16,
    ;
    assert((m & 8i32 != 0) == (8 <= m)) by (bit_vector)
        requires
            0 <= m < 16,
    ;
}

proof fn lemma_first_down_is_down(list: Seq<i32>, down: Set<i32>)
    ensures
        first_down(list, down) matches Some(key) ==> down.contains(key),
    decreases list.len(),
{
    if list.len() > 0 {
        lemma_first_down_is_down(list.skip(1), down);
    }
}

/// The first of some key names that stands for a key other than a modifier.
pub open spec fn first_named(names: Seq<Seq<char>>) -> Option<i32>
    decreases names.len(),
{
    if names.len() == 0 {
        None
    } else {
        match keys::spec_vk_of_name(names[0]) {
            Some(vk) => Some(vk),
            None => first_named(names.skip(1)),
        }
    }
}

/// The combination that the window system saw: no hotkey for Escape alone, else the first
/// key that is known, with the modifiers.
pub fn ui_hotkey(escape_alone: bool, ctrl: bool, shift: bool, alt: bool, names: &Vec<String>) -> (r:
    Option<HotkeyCombo>)
    ensures
        r == (if escape_alone {
            Some(HotkeyCombo { modifiers: 0, key: 0 })
        } else {
            match first_named(crate::text::views(names@)) {
                Some(vk) => Some(
                    HotkeyCombo { modifiers: modifiers_of(ctrl, shift, alt, false) as i32, key: vk },
                ),
                None => None::<HotkeyCombo>,
            }
        }),
{
    if escape_alone {
        return Some(HotkeyCombo::none());
    }
    let mods: i32 = combine(ctrl, shift, alt, false);
    let ghost all = crate::text::views(names@);
    let mut i: usize = 0;
    proof {
        assert(all.skip(0) =~= all);
    }
    while i < names.len()
        invariant
            i <= names.len(),
            all == crate::text::views(names@),
            mods == modifiers_of(ctrl, shift, alt, false),
            first_named(all) == first_named(all.skip(i as int)),
            !escape_alone,
        decreases names.len() - i,
    {
        proof {
            assert(all.skip(i as int)[0] == names@[i as int]@);
            assert(all.skip(i as int).skip(1) =~= all.skip(i + 1));
        }
        if let Some(vk) = keys::vk_of_name(names[i].as_str()) {
            return Some(HotkeyCombo::new(mods, vk));
        }
        i = i + 1;
    }
    None
}

/// The keys that can be caught: the number pad, function keys up to twelve, navigation keys,
/// digits, letters, the space bar, Enter, Tab, Backspace, Escape and Print.
pub open spec fn can_be_caught(k: i32) -> bool {
    ||| 0x60 <= k <= 0x6B
    ||| 0x6D <= k <= 0x7B
    ||| 0x20 <= k <= 0x28
    ||| 0x2C <= k <= 0x2E
    ||| 0x30 <= k <= 0x39
    ||| 0x41 <= k <= 0x5A
    ||| k == 0x08
    ||| k == 0x09
    ||| k == 0x0D
    ||| k == 0x1B
}

/// The place of a key among those that are looked for.
spec fn place_of(k: i32) -> int {
    if 0x60 <= k <= 0x6B {
        k - 0x60
    } else if 0x6D <= k <= 0x6F {
        k - 0x61
    } else if 0x70 <= k <= 0x7B {
        k - 0x61
    } else if k == 0x24 {
        27
    } else if k == 0x23 {
        28
    } else if k == 0x21 {
        29
    } else if k == 0x22 {
        30
    } else if k == 0x2D {
        31
    } else if k == 0x2E {
        32
    } else if 0x25 <= k <= 0x28 {
        k - 4
    } else if 0x30 <= k <= 0x39 {
        k - 11
    } else if 0x41 <= k <= 0x5A {
        k - 18
    } else if k == 0x20 {
        73
    } else if k == 0x0D {
        74
    } else if k == 0x09 {
        75
    } else if k == 0x08 {
        76
    } else if k == 0x1B {
        77
    } else {
        78
    }
}

proof fn lemma_key_is_looked_for(k: i32)
    requires
        can_be_caught(k),
    ensures
        0 <= place_of(k) < candidates().len(),
        candidates()[place_of(k)] == k,
{
}

proof fn lemma_first_down_finds(list: Seq<i32>, down: Set<i32>, i: int) -> (j: int)
    requires
        0 <= i < list.len(),
        down.contains(list[i]),
    ensures
        0 <= j <= i,
        first_down(list, down) == Some(list[j]),
        down.contains(list[j]),
    decreases list.len(),
{
    if down.contains(list[0]) {
        0
    } else {
        let j = lemma_first_down_finds(list.skip(1), down, i - 1);
        j + 1
    }
}

/// A key that can be caught is not missed: while one is down and it is not Escape alone, a
/// combination is caught. Its key is down, and its modifiers are those that are down.
pub proof fn law_no_press_is_missed(down: std::collections::HashSet<i32>, k: i32, r: Option<HotkeyCombo>)
    requires
        call_ensures(poll_win32_hotkey, (&down,), r),
        down@.contains(k),
        can_be_caught(k),
    ensures
        ({
            let ctrl = down@.contains(0x11) || down@.contains(0xA2) || down@.contains(0xA3);
            let shift = down@.contains(0x10) || down@.contains(0xA0) || down@.contains(0xA1);
            let alt = down@.contains(0x12) || down@.contains(0xA4) || down@.contains(0xA5);
            let win = down@.contains(0x5B) || down@.contains(0x5C);
            &&& r is Some
            &&& r->0.modifiers == (if alt {
                1int
            } else {
                0
            }) + (if ctrl {
                2int
            } else {
                0
            }) + (if shift {
                4int
            } else {
                0
            }) + (if win {
                8int
            } else {
                0
            })
            &&& if down@.contains(0x1B) && !ctrl && !shift && !alt && !win {
                r->0.key == 0
            } else {
                down@.contains(r->0.key) && r->0.key != 0
            }
            &&& !down@.contains(0x1B) && 0x60 <= k <= 0x69 ==> 0x60 <= r->0.key <= k
        }),
{
    lemma_key_is_looked_for(k);
    let j = lemma_first_down_finds(candidates(), down@, place_of(k));
    lemma_looked_for_is_a_key(j);
}

proof fn lemma_looked_for_is_a_key(j: int)
    requires
        0 <= j < candidates().len(),
    ensures
        candidates()[j] != 0,
        j < 10 ==> candidates()[j] == 0x60 + j,
{
}

/// Nothing is caught while no key is down that can be.
pub proof fn law_nothing_is_caught_without_a_key(
    down: std::collections::HashSet<i32>,
    r: Option<HotkeyCombo>,
)
    requires
        call_ensures(poll_win32_hotkey, (&down,), r),
        forall|k: i32| can_be_caught(k) ==> !(#[trigger] down@.contains(k)),
    ensures
        r is None,
{
    if first_down(candidates(), down@) is Some {
        lemma_first_down_is_candidate(candidates(), down@);
        let key = first_down(candidates(), down@)->0;
        let j = choose|j: int| 0 <= j < candidates().len() && candidates()[j] == key;
        lemma_candidates_can_be_caught(j);
    }
}

proof fn lemma_candidates_can_be_caught(j: int)
    requires
        0 <= j < candidates().len(),
    ensures
        can_be_caught(candidates()[j]),
{
}

proof fn lemma_first_down_is_candidate(list: Seq<i32>, down: Set<i32>)
    requires
        first_down(list, down) is Some,
    ensures
        list.contains(first_down(list, down)->0),
        down.contains(first_down(list, down)->0),
    decreases list.len(),
{
    if down.contains(list[0]) {
        assert(list.contains(list[0]));
    } else {
        lemma_first_down_is_candidate(list.skip(1), down);
        let key = first_down(list, down)->0;
        let j = choose|j: int| 0 <= j < list.skip(1).len() && list.skip(1)[j] == key;
        assert(list[j + 1] == key);
    }
}

/// What the window system saw is caught with its modifiers: the first of the keys that has a
/// name that is known, and nothing where none has. Escape alone stands for no hotkey.
pub proof fn law_seen_keys_are_caught(
    escape_alone: bool,
    ctrl: bool,
    shift: bool,
    alt: bool,
    names: Vec<String>,
    i: int,
    r: Option<HotkeyCombo>,
)
    requires
        call_ensures(ui_hotkey, (escape_alone, ctrl, shift, alt, &names), r),
        0 <= i < names@.len(),
    ensures
        escape_alone ==> r == Some(HotkeyCombo { modifiers: 0, key: 0 }),
        !escape_alone && keys::spec_vk_of_name(names@[i]@) is Some ==> {
            &&& r is Some
            &&& r->0.modifiers == (if alt {
                1int
            } else {
                0
            }) + (if ctrl {
                2int
            } else {
                0
            }) + (if shift {
                4int
            } else {
                0
            })
            &&& (forall|j: int|
                0 <= j < i ==> keys::spec_vk_of_name((#[trigger] names@[j])@) is None) ==> Some(
                r->0.key,
            ) == keys::spec_vk_of_name(names@[i]@)
        },
        !escape_alone && (forall|j: int|
            0 <= j < names@.len() ==> keys::spec_vk_of_name((#[trigger] names@[j])@) is None)
            ==> r is None,
{
    let all = crate::text::views(names@);
    assert forall|j: int| 0 <= j < names@.len() implies #[trigger] all[j] == names@[j]@ by {}
    if keys::spec_vk_of_name(names@[i]@) is Some {
        lemma_first_named_finds(all, i);
        if forall|j: int| 0 <= j < i ==> keys::spec_vk_of_name((#[trigger] names@[j])@) is None {
            assert forall|j: int| 0 <= j < i implies keys::spec_vk_of_name(
                #[trigger] all[j],
            ) is None by {
                assert(keys::spec_vk_of_name(names@[j]@) is None);
            }
        }
    }
    if forall|j: int| 0 <= j < names@.len() ==> keys::spec_vk_of_name((#[trigger] names@[j])@) is None {
        assert forall|j: int| 0 <= j < all.len() implies keys::spec_vk_of_name(
            #[trigger] all[j],
        ) is None by {
            assert(keys::spec_vk_of_name(names@[j]@) is None);
        }
        lemma_none_named(all);
    }
}

proof fn lemma_first_named_finds(names: Seq<Seq<char>>, i: int)
    requires
        0 <= i < names.len(),
        keys::spec_vk_of_name(names[i]) is Some,
    ensures
        first_named(names) is Some,
        (forall|j: int| 0 <= j < i ==> keys::spec_vk_of_name(#[trigger] names[j]) is None)
            ==> first_named(names) == keys::spec_vk_of_name(names[i]),
    decreases names.len(),
{
    if keys::spec_vk_of_name(names[0]) is None {
        lemma_first_named_finds(names.skip(1), i - 1);
    }
}

proof fn lemma_none_named(names: Seq<Seq<char>>)
    requires
        forall|j: int| 0 <= j < names.len() ==> keys::spec_vk_of_name(#[trigger] names[j]) is None,
    ensures
        first_named(names) is None,
    decreases names.len(),
{
    if names.len() > 0 {
        lemma_none_named(names.skip(1));
    }
}

/// Every key whose state decides what is caught is asked for.
pub proof fn law_every_key_that_counts_is_asked_for(asked: Vec<i32>, k: i32)
    requires
        call_ensures(keys_to_ask, (), asked),
        can_be_caught(k) || 0x10 <= k <= 0x12 || 0xA0 <= k <= 0xA5 || 0x5B <= k <= 0x5C,
    ensures
        asked@.contains(k),
{
    let n = candidates().len() as int;
    if can_be_caught(k) {
        lemma_key_is_looked_for(k);
        assert(asked@[place_of(k)] == k);
    } else {
        assert(asked@[n] == 0x11 && asked@[n + 1] == 0xA2 && asked@[n + 2] == 0xA3);
        assert(asked@[n + 3] == 0x10 && asked@[n + 4] == 0xA0 && asked@[n + 5] == 0xA1);
        assert(asked@[n + 6] == 0x12 && asked@[n + 7] == 0xA4 && asked@[n + 8] == 0xA5);
        assert(asked@[n + 9] == 0x5B && asked@[n + 10] == 0x5C);
    }
}

} // verus!
