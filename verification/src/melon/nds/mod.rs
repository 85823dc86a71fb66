//! The console as the frontend sees it.

use vstd::prelude::*;

pub mod audio;
pub mod input;

verus! {

/// Number of interleaved audio channels the console produces.
pub const AUDIO_CHANNELS: u16 = 2;

/// Nominal sample rate of the console's audio output, per channel.
pub const AUDIO_SAMPLE_RATE: u32 = 32824;

} // verus!
