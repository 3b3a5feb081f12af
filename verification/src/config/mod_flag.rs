//! Modifier bit flags, with the values that the system gives them.

use vstd::prelude::*;

verus! {

pub const ALT: i32 = 0x0001;

pub const CONTROL: i32 = 0x0002;

pub const SHIFT: i32 = 0x0004;

pub const WIN: i32 = 0x0008;

} // verus!
