//! The command line, as plain values.

use vstd::prelude::*;

verus! {

/// What the program was started with.
#[derive(Debug, PartialEq, Eq)]
pub struct Args {
    /// The path of the game to load.
    pub game: Option<String>,
    pub command: Commands,
}

/// The three ways to start the emulator.
#[derive(Debug, PartialEq, Eq)]
pub enum Commands {
    /// Play the emulator normally, with no replays.
    Play(PlayArgs),
    /// Play or edit an existing replay.
    Replay(ReplayArgs),
    /// Record a new replay.
    Record(RecordArgs),
}

#[derive(Debug, PartialEq, Eq)]
pub struct PlayArgs {
    /// The path of the save file to load, overriding the default of the configuration.
    pub save: Option<String>,
    /// Load no save file, even if the configuration has a default.
    pub no_save: bool,
}

#[derive(Debug, PartialEq, Eq)]
pub struct ReplayArgs {
    /// The path that the replay is loaded from.
    pub name: String,
}

#[derive(Debug, PartialEq, Eq)]
pub struct RecordArgs {
    /// The path that the replay will be saved to.
    pub name: String,
    /// The path of the save file to load; none by default.
    pub save: Option<String>,
    /// The time at which emulation begins, as `YYYY-MM-DDT12:34:56+0000`;
    /// the current time by default.
    pub timestamp: Option<String>,
    /// The author of the recording; empty by default.
    pub author: Option<String>,
}

} // verus!
