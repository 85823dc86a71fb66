//! Where things lie in the console's address space.

use vstd::prelude::*;

verus! {

/// The address of the first byte of main RAM.
pub const MAIN_RAM_OFFSET: u32 = 0x0200_0000;

pub const RNG: u32 = 0x0204_219c;

pub const CAMERA_Y: u32 = 0x0204_222a;

pub const CAMERA_X: u32 = 0x0204_222e;

pub const HIT_COLLECTION: u32 = 0x0207_6f00;

/// The address of the table of actors.
pub const ACTOR_COLLECTION: u32 = 0x0204_9dec;

} // verus!
