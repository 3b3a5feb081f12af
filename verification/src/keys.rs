//! Virtual keys: which are modifiers, which are down, and when a hotkey is pressed.

use std::collections::HashSet;

use vstd::prelude::*;

use crate::config;
use crate::config::mod_flag;
use crate::config::HotkeyCombo;
use crate::text::same_text;

verus! {

broadcast use vstd::std_specs::hash::group_hash_axioms;

/// The escape key.
pub const VK_ESCAPE: i32 = 0x1B;

/// Whether one of the Control keys is in a set of keys.
pub open spec fn ctrl_in(keys: Set<i32>) -> bool {
    keys.contains(0x11) || keys.contains(0xA2) || keys.contains(0xA3)
}

/// Whether one of the Shift keys is in a set of keys.
pub open spec fn shift_in(keys: Set<i32>) -> bool {
    keys.contains(0x10) || keys.contains(0xA0) || keys.contains(0xA1)
}

/// Whether one of the Alt keys is in a set of keys.
pub open spec fn alt_in(keys: Set<i32>) -> bool {
    keys.contains(0x12) || keys.contains(0xA4) || keys.contains(0xA5)
}

/// Whether one of the Windows keys is in a set of keys.
pub open spec fn win_in(keys: Set<i32>) -> bool {
    keys.contains(0x5B) || keys.contains(0x5C)
}

/// Whether the modifiers in a set of keys are exactly those of a combination.
pub open spec fn modifiers_match(modifiers: i32, keys: Set<i32>) -> bool {
    &&& config::has_flag(modifiers, mod_flag::CONTROL) == ctrl_in(keys)
    &&& config::has_flag(modifiers, mod_flag::SHIFT) == shift_in(keys)
    &&& config::has_flag(modifiers, mod_flag::ALT) == alt_in(keys)
    &&& config::has_flag(modifiers, mod_flag::WIN) == win_in(keys)
}

/// Whether a key is one of the modifier keys.
pub open spec fn is_modifier(vk: i32) -> bool {
    ||| vk == 0x11
    ||| vk == 0xA2
    ||| vk == 0xA3
    ||| vk == 0x10
    ||| vk == 0xA0
    ||| vk == 0xA1
    ||| vk == 0x12
    ||| vk == 0xA4
    ||| vk == 0xA5
    ||| vk == 0x5B
    ||| vk == 0x5C
}

/// Whether a key is a modifier key that belongs to a set of modifiers.
pub open spec fn is_modifier_of(modifiers: i32, vk: i32) -> bool {
    if vk == 0x11 || vk == 0xA2 || vk == 0xA3 {
        config::has_flag(modifiers, mod_flag::CONTROL)
    } else if vk == 0x10 || vk == 0xA0 || vk == 0xA1 {
        config::has_flag(modifiers, mod_flag::SHIFT)
    } else if vk == 0x12 || vk == 0xA4 || vk == 0xA5 {
        config::has_flag(modifiers, mod_flag::ALT)
    } else if vk == 0x5B || vk == 0x5C {
        config::has_flag(modifiers, mod_flag::WIN)
    } else {
        false
    }
}

/// The modifier keys.
pub fn modifier_keys() -> (r: Vec<i32>)
    ensures
        forall|vk: i32| #[trigger] r@.contains(vk) == is_modifier(vk),
{
    let r: Vec<i32> = vec![0x11, 0xA2, 0xA3, 0x10, 0xA0, 0xA1, 0x12, 0xA4, 0xA5, 0x5B, 0x5C];
    proof {
        assert(r@[0] == 0x11 && r@[1] == 0xA2 && r@[2] == 0xA3 && r@[3] == 0x10 && r@[4] == 0xA0
            && r@[5] == 0xA1 && r@[6] == 0x12 && r@[7] == 0xA4 && r@[8] == 0xA5 && r@[9] == 0x5B
            && r@[10] == 0x5C);
    }
    r
}

pub fn ctrl_down(keys: &HashSet<i32>) -> (r: bool)
    ensures
        r == ctrl_in(keys@),
{
    keys.contains(&0x11) || keys.contains(&0xA2) || keys.contains(&0xA3)
}

pub fn shift_down(keys: &HashSet<i32>) -> (r: bool)
    ensures
        r == shift_in(keys@),
{
    keys.contains(&0x10) || keys.contains(&0xA0) || keys.contains(&0xA1)
}

pub fn alt_down(keys: &HashSet<i32>) -> (r: bool)
    ensures
        r == alt_in(keys@),
{
    keys.contains(&0x12) || keys.contains(&0xA4) || keys.contains(&0xA5)
}

pub fn win_down(keys: &HashSet<i32>) -> (r: bool)
    ensures
        r == win_in(keys@),
{
    keys.contains(&0x5B) || keys.contains(&0x5C)
}

/// Whether the modifiers that are down are exactly those of a combination.
pub fn modifiers_held_match(combo: &HotkeyCombo, keys: &HashSet<i32>) -> (r: bool)
    ensures
        r == modifiers_match(combo.modifiers, keys@),
{
    (combo.modifiers & mod_flag::CONTROL != 0) == ctrl_down(keys)
        && (combo.modifiers & mod_flag::SHIFT != 0) == shift_down(keys)
        && (combo.modifiers & mod_flag::ALT != 0) == alt_down(keys)
        && (combo.modifiers & mod_flag::WIN != 0) == win_down(keys)
}

/// Whether a key is a modifier key that belongs to a combination.
pub fn modifier_belongs(combo: &HotkeyCombo, vk: i32) -> (r: bool)
    ensures
        r == is_modifier_of(combo.modifiers, vk),
{
    match vk {
        0x11 | 0xA2 | 0xA3 => combo.modifiers & mod_flag::CONTROL != 0,
        0x10 | 0xA0 | 0xA1 => combo.modifiers & mod_flag::SHIFT != 0,
        0x12 | 0xA4 | 0xA5 => combo.modifiers & mod_flag::ALT != 0,
        0x5B | 0x5C => combo.modifiers & mod_flag::WIN != 0,
        _ => false,
    }
}

/// Whether the state word that the system reports for a key says that it is down: its top
/// bit is set.
pub fn key_state_is_down(state: i16) -> (r: bool)
    ensures
        r == (state < 0),
{
    state < 0
}

/// Whether a combination is pressed: its key is down, and of the modifiers just its own.
pub open spec fn pressed(combo: HotkeyCombo, keys: Set<i32>) -> bool {
    combo.key != 0 && modifiers_match(combo.modifiers, keys) && keys.contains(combo.key)
}

/// The modifiers of a combination match the keys that are down just where every modifier key
/// that is down belongs to the combination, and of each of its modifiers some key is down.
pub proof fn law_modifiers_match_is_exact(modifiers: i32, keys: Set<i32>)
    ensures
        modifiers_match(modifiers, keys) <==> {
            &&& forall|vk: i32|
                is_modifier(vk) && #[trigger] keys.contains(vk) ==> is_modifier_of(modifiers, vk)
            &&& modifiers & 1 != 0 ==> keys.contains(0x12) || keys.contains(0xA4) || keys.contains(
                0xA5,
            )
            &&& modifiers & 2 != 0 ==> keys.contains(0x11) || keys.contains(0xA2) || keys.contains(
                0xA3,
            )
            &&& modifiers & 4 != 0 ==> keys.contains(0x10) || keys.contains(0xA0) || keys.contains(
                0xA1,
            )
            &&& modifiers & 8 != 0 ==> keys.contains(0x5B) || keys.contains(0x5C)
        },
{
    assert(keys.contains(0x11) ==> is_modifier(0x11));
    assert(keys.contains(0xA2) ==> is_modifier(0xA2));
    assert(keys.contains(0xA3) ==> is_modifier(0xA3));
    assert(keys.contains(0x10) ==> is_modifier(0x10));
    assert(keys.contains(0xA0) ==> is_modifier(0xA0));
    assert(keys.contains(0xA1) ==> is_modifier(0xA1));
    assert(keys.contains(0x12) ==> is_modifier(0x12));
    assert(keys.contains(0xA4) ==> is_modifier(0xA4));
    assert(keys.contains(0xA5) ==> is_modifier(0xA5));
    assert(keys.contains(0x5B) ==> is_modifier(0x5B));
    assert(keys.contains(0x5C) ==> is_modifier(0x5C));
}

/// A key that is no modifier means nothing to the modifiers, whatever else is down.
pub proof fn law_other_keys_are_no_modifiers(modifiers: i32, keys: Set<i32>, vk: i32)
    requires
        !is_modifier(vk),
    ensures
        modifiers_match(modifiers, keys.insert(vk)) == modifiers_match(modifiers, keys),
        !is_modifier_of(modifiers, vk),
{
}

/// Every modifier key belongs to all modifiers together, and to none of them without any.
pub proof fn law_modifier_keys_belong(vk: i32)
    ensures
        is_modifier(vk) <==> is_modifier_of(15, vk),
        !is_modifier_of(0, vk),
{
    assert(15i32 & 1i32 == 1i32) by (bit_vector);
    assert(15i32 & 2i32 == 2i32) by (bit_vector);
    assert(15i32 & 4i32 == 4i32) by (bit_vector);
    assert(15i32 & 8i32 == 8i32) by (bit_vector);
    assert(0i32 & 1i32 == 0i32) by (bit_vector);
    assert(0i32 & 2i32 == 0i32) by (bit_vector);
    assert(0i32 & 4i32 == 0i32) by (bit_vector);
    assert(0i32 & 8i32 == 0i32) by (bit_vector);
}

/// The virtual key of a key of the user interface, by the name that it goes by there.
pub open spec fn spec_vk_of_name(name: Seq<char>) -> Option<i32> {
    if name.len() == 1 && (65 <= name[0] as int <= 90 || 48 <= name[0] as int <= 57) {
        Some(name[0] as i32)
    } else if name == "F1"@ {
        Some(0x70)
    } else if name == "F2"@ {
        Some(0x71)
    } else if name == "F3"@ {
        Some(0x72)
    } else if name == "F4"@ {
        Some(0x73)
    } else if name == "F5"@ {
        Some(0x74)
    } else if name == "F6"@ {
        Some(0x75)
    } else if name == "F7"@ {
        Some(0x76)
    } else if name == "F8"@ {
        Some(0x77)
    } else if name == "F9"@ {
        Some(0x78)
    } else if name == "F10"@ {
        Some(0x79)
    } else if name == "F11"@ {
        Some(0x7A)
    } else if name == "F12"@ {
        Some(0x7B)
    } else if name == "Escape"@ {
        Some(0x1B)
    } else if name == "Space"@ {
        Some(0x20)
    } else if name == "Enter"@ {
        Some(0x0D)
    } else if name == "Tab"@ {
        Some(0x09)
    } else if name == "Backspace"@ {
        Some(0x08)
    } else if name == "Delete"@ {
        Some(0x2E)
    } else if name == "Insert"@ {
        Some(0x2D)
    } else if name == "Home"@ {
        Some(0x24)
    } else if name == "End"@ {
        Some(0x23)
    } else if name == "PageUp"@ {
        Some(0x21)
    } else if name == "PageDown"@ {
        Some(0x22)
    } else if name == "Left"@ {
        Some(0x25)
    } else if name == "Right"@ {
        Some(0x27)
    } else if name == "Up"@ {
        Some(0x26)
    } else if name == "Down"@ {
        Some(0x28)
    } else {
        None
    }
}

/// The virtual key of a key of the user interface, by the name that it goes by there.
pub fn vk_of_name(name: &str) -> (r: Option<i32>)
    ensures
        r == spec_vk_of_name(name@),
{
    if name.unicode_len() == 1 {
        let c: char = name.get_char(0);
        let n: u32 = c as u32;
        if (65 <= n && n <= 90) || (48 <= n && n <= 57) {
            return Some(n as i32);
        }
    }
    if same_text(name, "F1") {
        Some(0x70)
    } else if same_text(name, "F2") {
        Some(0x71)
    } else if same_text(name, "F3") {
        Some(0x72)
    } else if same_text(name, "F4") {
        Some(0x73)
    } else if same_text(name, "F5") {
        Some(0x74)
    } else if same_text(name, "F6") {
        Some(0x75)
    } else if same_text(name, "F7") {
        Some(0x76)
    } else if same_text(name, "F8") {
        Some(0x77)
    } else if same_text(name, "F9") {
        Some(0x78)
    } else if same_text(name, "F10") {
        Some(0x79)
    } else if same_text(name, "F11") {
        Some(0x7A)
    } else if same_text(name, "F12") {
        Some(0x7B)
    } else if same_text(name, "Escape") {
        Some(0x1B)
    } else if same_text(name, "Space") {
        Some(0x20)
    } else if same_text(name, "Enter") {
        Some(0x0D)
    } else if same_text(name, "Tab") {
        Some(0x09)
    } else if same_text(name, "Backspace") {
        Some(0x08)
    } else if same_text(name, "Delete") {
        Some(0x2E)
    } else if same_text(name, "Insert") {
        Some(0x2D)
    } else if same_text(name, "Home") {
        Some(0x24)
    } else if same_text(name, "End") {
        Some(0x23)
    } else if same_text(name, "PageUp") {
        Some(0x21)
    } else if same_text(name, "PageDown") {
        Some(0x22)
    } else if same_text(name, "Left") {
        Some(0x25)
    } else if same_text(name, "Right") {
        Some(0x27)
    } else if same_text(name, "Up") {
        Some(0x26)
    } else if same_text(name, "Down") {
        Some(0x28)
    } else {
        None
    }
}

} // verus!
