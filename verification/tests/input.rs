use melon_rs::frontend::NdsAction;
use melon_rs::melon::nds::input::{
    NdsInput, NdsInputState, NdsKey, NdsKeyMask, NdsKeyboardInput,
};
use melon_rs::melon::nds::{AUDIO_CHANNELS, AUDIO_SAMPLE_RATE};

const KEYS: [(NdsKey, u32); 12] = [
    (NdsKey::A, 0b0000_0000_0001),
    (NdsKey::B, 0b0000_0000_0010),
    (NdsKey::Select, 0b0000_0000_0100),
    (NdsKey::Start, 0b0000_0000_1000),
    (NdsKey::Right, 0b0000_0001_0000),
    (NdsKey::Left, 0b0000_0010_0000),
    (NdsKey::Up, 0b0000_0100_0000),
    (NdsKey::Down, 0b0000_1000_0000),
    (NdsKey::R, 0b0001_0000_0000),
    (NdsKey::L, 0b0010_0000_0000),
    (NdsKey::X, 0b0100_0000_0000),
    (NdsKey::Y, 0b1000_0000_0000),
];

#[test]
fn every_key_has_its_bit() {
    for (key, bit) in KEYS {
        assert_eq!(NdsKeyMask::from(key).bits(), bit);
    }
}

#[test]
fn a_new_input_state_is_idle() {
    let state = NdsInputState::new();
    assert_eq!(state.keys.bits(), 0);
    assert_eq!(state.keys, NdsKeyMask::empty());
    assert_eq!(state.touch, None);
    assert!(!state.lid_changed);
}

#[test]
fn pressing_and_releasing_keys_sets_and_clears_their_bits() {
    let mut state = NdsInputState::new();
    state.register_input(NdsInput::KeyPress(NdsKey::A));
    state.register_input(NdsInput::KeyPress(NdsKey::Up));
    state.register_input(NdsInput::KeyPress(NdsKey::Y));
    assert_eq!(state.keys.bits(), 0x841);
    state.register_input(NdsInput::KeyPress(NdsKey::Up));
    assert_eq!(state.keys.bits(), 0x841);
    state.register_input(NdsInput::KeyRelease(NdsKey::A));
    assert_eq!(state.keys.bits(), 0x840);
    state.register_input(NdsInput::KeyRelease(NdsKey::B));
    assert_eq!(state.keys.bits(), 0x840);
    assert_eq!(state.touch, None);
    assert!(!state.lid_changed);
}

#[test]
fn touch_and_lid_inputs_change_only_their_part() {
    let mut state = NdsInputState::new();
    state.register_input(NdsInput::KeyPress(NdsKey::L));
    state.register_input(NdsInput::TouchScreen((12, 200)));
    assert_eq!(state.touch, Some((12, 200)));
    state.register_input(NdsInput::OpenCloseLid);
    assert!(state.lid_changed);
    state.register_input(NdsInput::ReleaseScreen);
    assert_eq!(state.touch, None);
    assert!(state.lid_changed);
    assert_eq!(state.keys.bits(), 0x200);
}

#[test]
fn mask_operations_work_on_bits() {
    let mut mask = NdsKeyMask::from_bits_retain(0xf000_0003);
    assert_eq!(mask.bits(), 0xf000_0003);
    assert!(mask.contains(NdsKeyMask::from(NdsKey::A)));
    assert!(mask.contains(NdsKeyMask::from_bits_retain(0x3)));
    assert!(!mask.contains(NdsKeyMask::from(NdsKey::Select)));
    assert!(mask.contains(NdsKeyMask::empty()));
    mask.insert(NdsKeyMask::from(NdsKey::Select));
    assert_eq!(mask.bits(), 0xf000_0007);
    mask.remove(NdsKeyMask::from_bits_retain(0x8000_0001));
    assert_eq!(mask.bits(), 0x7000_0006);
}

#[test]
fn a_key_press_and_release_map_to_console_inputs() {
    assert_eq!(NdsKeyboardInput::Key(NdsKey::B).press(), Some(NdsInput::KeyPress(NdsKey::B)));
    assert_eq!(NdsKeyboardInput::Key(NdsKey::B).release(), Some(NdsInput::KeyRelease(NdsKey::B)));
    assert_eq!(NdsKeyboardInput::OpenCloseLid.press(), Some(NdsInput::OpenCloseLid));
    assert_eq!(NdsKeyboardInput::OpenCloseLid.release(), None);
}

#[test]
fn actions_map_to_keyboard_inputs() {
    let pairs = [
        (NdsAction::A, NdsKey::A),
        (NdsAction::B, NdsKey::B),
        (NdsAction::Select, NdsKey::Select),
        (NdsAction::Start, NdsKey::Start),
        (NdsAction::Right, NdsKey::Right),
        (NdsAction::Left, NdsKey::Left),
        (NdsAction::Up, NdsKey::Up),
        (NdsAction::Down, NdsKey::Down),
        (NdsAction::R, NdsKey::R),
        (NdsAction::L, NdsKey::L),
        (NdsAction::X, NdsKey::X),
        (NdsAction::Y, NdsKey::Y),
    ];
    for (action, key) in pairs {
        assert_eq!(NdsKeyboardInput::from(action), NdsKeyboardInput::Key(key));
    }
    assert_eq!(NdsKeyboardInput::from(NdsAction::OpenCloseLid), NdsKeyboardInput::OpenCloseLid);
}

#[test]
fn the_console_has_two_channels_at_its_sample_rate() {
    assert_eq!(AUDIO_CHANNELS, 2);
    assert_eq!(AUDIO_SAMPLE_RATE, 32824);
}
