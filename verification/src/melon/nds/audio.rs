//! The console's audio stream, under the console's name.

pub use crate::audio::{PlaybackMode, Stream as NdsAudio};
