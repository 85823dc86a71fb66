//! Everything that faces the emulated console: its input state, the save
//! buffer, the platform services it calls back into and readers for its RAM.

pub mod kssu;
pub mod nds;
pub mod save;
pub mod sys;
