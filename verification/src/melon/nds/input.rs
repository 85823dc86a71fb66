//! Button, touch-screen and lid input of the console.

use vstd::prelude::*;
use vstd::std_specs::convert::FromSpecImpl;

verus! {

/// One button of the console.
#[derive(Clone, Copy, Debug, PartialEq, Eq, Hash, Structural)]
pub enum NdsKey {
    A,
    B,
    Select,
    Start,
    Right,
    Left,
    Up,
    Down,
    R,
    L,
    X,
    Y,
}

/// What a keyboard key can be bound to on the console.
#[derive(Clone, Copy, Debug, PartialEq, Eq, Hash, Structural)]
pub enum NdsKeyboardInput {
    Key(NdsKey),
    OpenCloseLid,
}

/// One change of the console's input.
#[derive(Clone, Copy, Debug, PartialEq, Eq, Hash)]
pub enum NdsInput {
    KeyPress(NdsKey),
    KeyRelease(NdsKey),
    TouchScreen((u8, u8)),
    ReleaseScreen,
    OpenCloseLid,
}

/// The set of buttons that are held, one bit per button. Bits above the
/// twelve named ones carry no button but are kept as they are.
#[derive(Clone, Copy, Debug, PartialEq, Eq, Hash, Structural)]
pub struct NdsKeyMask {
    pub bits: u32,
}

impl NdsKeyMask {
    /// The bit that stands for `key`.
    pub open spec fn bit_of(key: NdsKey) -> u32 {
        match key {
            NdsKey::A => 0x001,
            NdsKey::B => 0x002,
            NdsKey::Select => 0x004,
            NdsKey::Start => 0x008,
            NdsKey::Right => 0x010,
            NdsKey::Left => 0x020,
            NdsKey::Up => 0x040,
            NdsKey::Down => 0x080,
            NdsKey::R => 0x100,
            NdsKey::L => 0x200,
            NdsKey::X => 0x400,
            NdsKey::Y => 0x800,
        }
    }

    /// The mask with no button held.
    pub fn empty() -> (mask: NdsKeyMask)
        ensures
            mask.bits == 0,
    {
        NdsKeyMask { bits: 0 }
    }

    /// The mask with exactly the given bits, unnamed ones included.
    pub fn from_bits_retain(bits: u32) -> (mask: NdsKeyMask)
        ensures
            mask.bits == bits,
    {
        NdsKeyMask { bits }
    }

    /// The bits of the mask.
    pub fn bits(&self) -> (bits: u32)
        ensures
            bits == self.bits,
    {
        self.bits
    }

    /// Whether every bit of `other` is set in `self`.
    pub fn contains(&self, other: NdsKeyMask) -> (held: bool)
        ensures
            held == (self.bits & other.bits == other.bits),
    {
        self.bits & other.bits == other.bits
    }

    /// Sets every bit of `other`.
    pub fn insert(&mut self, other: NdsKeyMask)
        ensures
            final(self).bits == old(self).bits | other.bits,
    {
        self.bits = self.bits | other.bits;
    }

    /// Clears every bit of `other`.
    pub fn remove(&mut self, other: NdsKeyMask)
        ensures
            final(self).bits == old(self).bits & !other.bits,
    {
        self.bits = self.bits & !other.bits;
    }
}

impl From<NdsKey> for NdsKeyMask {
    fn from(value: NdsKey) -> (mask: NdsKeyMask) {
        let bits: u32 = match value {
            NdsKey::A => 0x001,
            NdsKey::B => 0x002,
            NdsKey::Select => 0x004,
            NdsKey::Start => 0x008,
            NdsKey::Right => 0x010,
            NdsKey::Left => 0x020,
            NdsKey::Up => 0x040,
            NdsKey::Down => 0x080,
            NdsKey::R => 0x100,
            NdsKey::L => 0x200,
            NdsKey::X => 0x400,
            NdsKey::Y => 0x800,
        };
        NdsKeyMask { bits }
    }
}

impl FromSpecImpl<NdsKey> for NdsKeyMask {
    open spec fn obeys_from_spec() -> bool {
        true
    }

    open spec fn from_spec(value: NdsKey) -> NdsKeyMask {
        NdsKeyMask { bits: NdsKeyMask::bit_of(value) }
    }
}

/// The input that the console sees during one frame.
#[derive(Clone, Copy, Debug, PartialEq, Eq, Hash)]
pub struct NdsInputState {
    pub keys: NdsKeyMask,
    pub touch: Option<(u8, u8)>,
    pub lid_changed: bool,
}

impl NdsInputState {
    /// What `self` becomes once `input` has been registered.
    pub open spec fn after(self, input: NdsInput) -> NdsInputState {
        match input {
            NdsInput::KeyPress(key) => NdsInputState {
                keys: NdsKeyMask { bits: self.keys.bits | NdsKeyMask::bit_of(key) },
                ..self
            },
            NdsInput::KeyRelease(key) => NdsInputState {
                keys: NdsKeyMask { bits: self.keys.bits & !NdsKeyMask::bit_of(key) },
                ..self
            },
            NdsInput::TouchScreen(at) => NdsInputState { touch: Some(at), ..self },
            NdsInput::ReleaseScreen => NdsInputState { touch: None, ..self },
            NdsInput::OpenCloseLid => NdsInputState { lid_changed: true, ..self },
        }
    }

    /// No button held, the screen untouched, the lid left alone.
    pub fn new() -> (state: NdsInputState)
        ensures
            state.keys.bits == 0,
            state.touch.is_none(),
            !state.lid_changed,
    {
        NdsInputState { keys: NdsKeyMask::empty(), touch: None, lid_changed: false }
    }

    /// Registers one change of input.
    pub fn register_input(&mut self, input: NdsInput)
        ensures
            *final(self) == old(self).after(input),
    {
        match input {
            NdsInput::KeyPress(key) => self.keys.insert(NdsKeyMask::from(key)),
            NdsInput::KeyRelease(key) => self.keys.remove(NdsKeyMask::from(key)),
            NdsInput::TouchScreen((x, y)) => self.touch = Some((x, y)),
            NdsInput::ReleaseScreen => self.touch = None,
            NdsInput::OpenCloseLid => self.lid_changed = true,
        }
    }
}

impl NdsKeyboardInput {
    /// The console input that pressing the bound key gives.
    pub fn press(self) -> (input: Option<NdsInput>)
        ensures
            input == Some(
                match self {
                    NdsKeyboardInput::Key(key) => NdsInput::KeyPress(key),
                    NdsKeyboardInput::OpenCloseLid => NdsInput::OpenCloseLid,
                },
            ),
    {
        match self {
            NdsKeyboardInput::Key(key) => Some(NdsInput::KeyPress(key)),
            NdsKeyboardInput::OpenCloseLid => Some(NdsInput::OpenCloseLid),
        }
    }

    /// The console input that releasing the bound key gives; the lid does
    /// not react to a release.
    pub fn release(self) -> (input: Option<NdsInput>)
        ensures
            input == match self {
                NdsKeyboardInput::Key(key) => Some(NdsInput::KeyRelease(key)),
                NdsKeyboardInput::OpenCloseLid => None,
            },
    {
        match self {
            NdsKeyboardInput::Key(key) => Some(NdsInput::KeyRelease(key)),
            NdsKeyboardInput::OpenCloseLid => None,
        }
    }
}

} // verus!
