//! The window system's numbers for keys and modifiers, as far as the
//! default bindings need them.

use vstd::prelude::*;

verus! {

pub const KEY_A: u32 = 10;

pub const KEY_D: u32 = 13;

pub const KEY_I: u32 = 18;

pub const KEY_J: u32 = 19;

pub const KEY_K: u32 = 20;

pub const KEY_L: u32 = 21;

pub const KEY_P: u32 = 25;

pub const KEY_Q: u32 = 26;

pub const KEY_S: u32 = 28;

pub const KEY_W: u32 = 32;

pub const KEY_X: u32 = 33;

pub const KEY_SPACE: u32 = 76;

pub const KEY_COMMA: u32 = 109;

pub const KEY_PERIOD: u32 = 131;

pub const KEY_SLASH: u32 = 142;

/// No modifier held.
pub const MOD_NONE: u32 = 0;

pub const MOD_SHIFT: u32 = 0x004;

pub const MOD_CTRL: u32 = 0x020;

pub const MOD_ALT: u32 = 0x100;

pub const MOD_LOGO: u32 = 0x800;

} // verus!
