use melon_rs::config::Config;
use melon_rs::frontend::{
    EmuInput, FrameInputs, Frontend, InputEvent, KeyMap, KeyPressAction, NdsAction, Request,
    TickPlan, FRAME_BYTES, REQUEST_CAPACITY,
};
use melon_rs::keys::{
    KEY_A, KEY_COMMA, KEY_L, KEY_PERIOD, KEY_S, KEY_SLASH, KEY_W, KEY_X, MOD_CTRL, MOD_NONE,
    MOD_SHIFT,
};
use melon_rs::melon::nds::input::NdsKeyMask;
use melon_rs::replay::{
    Replay, ReplaySource, ReplayState, ReplayWarning, SavestateContext, SavestateContextReplay,
    Timestamp,
};
use melon_rs::savestate::{SavestateError, Sidecar};
use melon_rs::{EmuState, EmuStateChange, TickAction};
use std::sync::{Arc, Mutex};

fn frontend_with(replay: Option<(Replay, ReplayState)>) -> Box<Frontend> {
    Box::new(Frontend::new(Arc::new(Mutex::new(Vec::new())), Config::default().key_map, replay))
}

fn frontend() -> Box<Frontend> {
    frontend_with(None)
}

fn replay(name: &str, inputs: Vec<u32>) -> Replay {
    Replay {
        name: name.to_string(),
        author: String::new(),
        source: ReplaySource::SaveFile { path: None, timestamp: Timestamp { secs: 0, nanos: 0 } },
        inputs,
    }
}

fn binding(key_code: u32, modifiers: u32, action: KeyPressAction) -> KeyMap {
    let mut map = KeyMap::new();
    map.insert(EmuInput { key_code, modifiers }, action);
    map
}

#[test]
fn a_new_frontend_is_paused_and_idle() {
    let frontend = frontend();
    assert_eq!(frontend.state, EmuState::Paused);
    assert_eq!(frontend.state_change, None);
    assert!(frontend.requests.is_empty());
    assert!(frontend.held_actions.is_empty());
    assert_eq!(frontend.key_modifiers, 0);
    assert_eq!(frontend.cursor, None);
    assert_eq!(frontend.nds_input.keys.bits(), 0);
    assert_eq!(frontend.top_frame.len(), FRAME_BYTES);
    assert_eq!(FRAME_BYTES, 256 * 192 * 4);
    assert!(frontend.top_frame.iter().all(|byte| *byte == 0));
    assert!(frontend.bottom_frame.iter().all(|byte| *byte == 0));
}

#[test]
fn a_mapped_button_is_held_while_its_key_is_down() {
    let mut frontend = frontend();
    frontend.handle_input_event(InputEvent::KeyDown(KEY_W));
    assert_eq!(frontend.nds_input.keys.bits(), 0x040);
    frontend.handle_input_event(InputEvent::KeyDown(KEY_L));
    assert_eq!(frontend.nds_input.keys.bits(), 0x041);
    assert_eq!(
        frontend.held_actions.get(&KEY_W),
        Some(&KeyPressAction::NdsAction(NdsAction::Up))
    );
    frontend.handle_input_event(InputEvent::KeyUp(KEY_W));
    assert_eq!(frontend.nds_input.keys.bits(), 0x001);
    assert!(!frontend.held_actions.contains_key(&KEY_W));
    frontend.handle_input_event(InputEvent::KeyUp(KEY_L));
    assert_eq!(frontend.nds_input.keys.bits(), 0);
}

#[test]
fn an_unmapped_key_is_ignored() {
    let mut frontend = frontend();
    frontend.handle_input_event(InputEvent::KeyDown(9999));
    frontend.handle_input_event(InputEvent::KeyUp(9999));
    frontend.handle_input_event(InputEvent::KeyUp(KEY_W));
    assert_eq!(frontend.nds_input.keys.bits(), 0);
    assert!(frontend.held_actions.is_empty());
    assert_eq!(frontend.state_change, None);
    assert!(frontend.requests.is_empty());
}

#[test]
fn a_key_is_looked_up_with_the_held_modifiers() {
    let mut frontend = frontend();
    frontend.handle_input_event(InputEvent::KeyModifierChange(MOD_CTRL));
    assert_eq!(frontend.key_modifiers, MOD_CTRL);
    frontend.handle_input_event(InputEvent::KeyDown(KEY_S));
    assert_eq!(frontend.nds_input.keys.bits(), 0);
    assert_eq!(frontend.requests, vec![Request::WriteSavedata("save.bin".to_string())]);
    frontend.handle_input_event(InputEvent::KeyDown(KEY_W));
    assert_eq!(frontend.nds_input.keys.bits(), 0);
    frontend.handle_input_event(InputEvent::KeyModifierChange(MOD_NONE));
    frontend.handle_input_event(InputEvent::KeyDown(KEY_S));
    assert_eq!(frontend.nds_input.keys.bits(), 0x080);
    frontend.handle_input_event(InputEvent::KeyModifierChange(MOD_SHIFT));
    frontend.handle_input_event(InputEvent::KeyDown(KEY_A));
    assert_eq!(frontend.nds_input.keys.bits(), 0x080);
}

#[test]
fn a_key_releases_what_it_pressed_even_after_the_modifiers_changed() {
    let mut frontend = frontend();
    frontend.handle_input_event(InputEvent::KeyDown(KEY_A));
    assert_eq!(frontend.nds_input.keys.bits(), 0x020);
    frontend.handle_input_event(InputEvent::KeyModifierChange(MOD_CTRL));
    frontend.handle_input_event(InputEvent::KeyUp(KEY_A));
    assert_eq!(frontend.nds_input.keys.bits(), 0);
}

#[test]
fn play_pause_and_step_leave_a_command_and_the_latest_wins() {
    let mut frontend = frontend();
    frontend.handle_input_event(InputEvent::KeyDown(KEY_COMMA));
    assert_eq!(frontend.state_change, Some(EmuStateChange::PlayPause));
    frontend.handle_input_event(InputEvent::KeyDown(KEY_PERIOD));
    assert_eq!(frontend.state_change, Some(EmuStateChange::Step));
    frontend.handle_input_event(InputEvent::KeyUp(KEY_PERIOD));
    assert_eq!(frontend.state_change, Some(EmuStateChange::Step));
    frontend.send_state_change(EmuStateChange::Stop);
    assert_eq!(frontend.state_change, Some(EmuStateChange::Stop));
    assert_eq!(frontend.state, EmuState::Paused);
}

#[test]
fn the_lid_opens_and_closes_on_key_down_only() {
    let mut frontend = frontend();
    frontend.handle_input_event(InputEvent::KeyDown(KEY_SLASH));
    assert!(frontend.nds_input.lid_changed);
    frontend.finish_frame(false);
    assert!(!frontend.nds_input.lid_changed);
    frontend.handle_input_event(InputEvent::KeyUp(KEY_SLASH));
    assert!(!frontend.nds_input.lid_changed);
    frontend.handle_input_event(InputEvent::KeyDown(KEY_X));
    assert!(frontend.nds_input.lid_changed);
    assert_eq!(frontend.nds_input.keys.bits(), 0);
}

#[test]
fn file_actions_become_requests_in_order() {
    let mut map = KeyMap::new();
    map.insert(EmuInput { key_code: 1, modifiers: 0 }, KeyPressAction::Save("s.bin".to_string()));
    map.insert(
        EmuInput { key_code: 2, modifiers: 0 },
        KeyPressAction::ReadSavestate("state".to_string()),
    );
    map.insert(
        EmuInput { key_code: 3, modifiers: 0 },
        KeyPressAction::WriteSavestate("state".to_string()),
    );
    map.insert(EmuInput { key_code: 4, modifiers: 0 }, KeyPressAction::SaveReplay);
    map.insert(
        EmuInput { key_code: 5, modifiers: 0 },
        KeyPressAction::WriteMainRAM("ram.bin".to_string()),
    );
    let mut frontend = Box::new(Frontend::new(Arc::new(Mutex::new(Vec::new())), map, None));
    for key in 1..=5 {
        frontend.handle_input_event(InputEvent::KeyDown(key));
        frontend.handle_input_event(InputEvent::KeyUp(key));
    }
    assert_eq!(
        frontend.requests,
        vec![
            Request::WriteSavedata("s.bin".to_string()),
            Request::ReadSavestate("state".to_string()),
            Request::WriteSavestate("state".to_string()),
            Request::WriteReplay,
            Request::WriteRam("ram.bin".to_string()),
        ]
    );
}

#[test]
fn requests_beyond_the_capacity_are_dropped() {
    let mut frontend = Box::new(Frontend::new(
        Arc::new(Mutex::new(Vec::new())),
        binding(1, 0, KeyPressAction::SaveReplay),
        None,
    ));
    for _ in 0..(REQUEST_CAPACITY + 4) {
        frontend.handle_input_event(InputEvent::KeyDown(1));
    }
    assert_eq!(REQUEST_CAPACITY, 16);
    assert_eq!(frontend.requests.len(), REQUEST_CAPACITY);
    let plan = frontend.begin_tick(Vec::new());
    assert_eq!(plan.requests.len(), REQUEST_CAPACITY);
    frontend.handle_input_event(InputEvent::KeyDown(1));
    assert_eq!(frontend.requests, vec![Request::WriteReplay]);
}

#[test]
fn toggling_the_replay_mode_keeps_the_inputs() {
    let mut frontend = Box::new(Frontend::new(
        Arc::new(Mutex::new(Vec::new())),
        binding(1, 0, KeyPressAction::ToggleReplayMode),
        Some((replay("a", vec![1, 2, 3]), ReplayState::Playing)),
    ));
    frontend.handle_input_event(InputEvent::KeyDown(1));
    assert_eq!(frontend.replay, Some((replay("a", vec![1, 2, 3]), ReplayState::Recording)));
    frontend.handle_input_event(InputEvent::KeyUp(1));
    assert_eq!(frontend.replay, Some((replay("a", vec![1, 2, 3]), ReplayState::Recording)));
    frontend.handle_input_event(InputEvent::KeyDown(1));
    assert_eq!(frontend.replay, Some((replay("a", vec![1, 2, 3]), ReplayState::Playing)));
    let mut none = Box::new(Frontend::new(
        Arc::new(Mutex::new(Vec::new())),
        binding(1, 0, KeyPressAction::ToggleReplayMode),
        None,
    ));
    none.handle_input_event(InputEvent::KeyDown(1));
    assert_eq!(none.replay, None);
}

#[test]
fn the_mouse_touches_the_screen_at_the_cursor() {
    let mut frontend = frontend();
    frontend.handle_input_event(InputEvent::MouseDown);
    assert_eq!(frontend.nds_input.touch, None);
    frontend.handle_input_event(InputEvent::CursorMove(Some((10, 20))));
    assert_eq!(frontend.cursor, Some((10, 20)));
    assert_eq!(frontend.nds_input.touch, None);
    frontend.handle_input_event(InputEvent::MouseDown);
    assert_eq!(frontend.nds_input.touch, Some((10, 20)));
    frontend.handle_input_event(InputEvent::CursorMove(Some((11, 21))));
    assert_eq!(frontend.nds_input.touch, Some((10, 20)));
    frontend.handle_input_event(InputEvent::MouseUp);
    assert_eq!(frontend.nds_input.touch, None);
    frontend.handle_input_event(InputEvent::CursorMove(None));
    assert_eq!(frontend.cursor, None);
}

#[test]
fn a_tick_sees_the_waiting_command_before_the_events() {
    let mut frontend = frontend();
    let plan = frontend.begin_tick(vec![InputEvent::KeyDown(KEY_COMMA)]);
    assert_eq!(plan, TickPlan { requests: vec![], action: TickAction::Idle });
    assert_eq!(frontend.state, EmuState::Paused);
    assert_eq!(frontend.state_change, Some(EmuStateChange::PlayPause));
    let plan = frontend.begin_tick(vec![]);
    assert_eq!(plan.action, TickAction::RunFrame);
    assert_eq!(frontend.state, EmuState::Running);
    assert_eq!(frontend.state_change, None);
    let plan = frontend.begin_tick(vec![]);
    assert_eq!(plan.action, TickAction::RunFrame);
}

#[test]
fn a_tick_hands_out_the_requests_of_its_events() {
    let mut frontend = frontend();
    frontend.handle_input_event(InputEvent::KeyModifierChange(MOD_CTRL));
    let plan = frontend.begin_tick(vec![
        InputEvent::KeyDown(KEY_S),
        InputEvent::KeyUp(KEY_S),
        InputEvent::KeyDown(KEY_S),
    ]);
    assert_eq!(
        plan.requests,
        vec![
            Request::WriteSavedata("save.bin".to_string()),
            Request::WriteSavedata("save.bin".to_string())
        ]
    );
    assert!(frontend.requests.is_empty());
    assert_eq!(frontend.begin_tick(vec![]).requests, vec![]);
}

#[test]
fn a_stopped_emulator_leaves_the_loop_and_stays_stopped() {
    let mut frontend = frontend();
    frontend.send_state_change(EmuStateChange::Stop);
    let plan = frontend.begin_tick(vec![InputEvent::KeyDown(KEY_COMMA)]);
    assert_eq!(plan.action, TickAction::Exit);
    assert_eq!(frontend.state, EmuState::Stopped);
    let plan = frontend.begin_tick(vec![InputEvent::KeyDown(KEY_PERIOD)]);
    assert_eq!(plan.action, TickAction::Exit);
    assert_eq!(frontend.state, EmuState::Stopped);
    assert_eq!(frontend.begin_tick(vec![]).action, TickAction::Exit);
}

struct Engine {
    frame: u32,
    keys: u32,
}

impl Engine {
    fn run(&mut self, inputs: &FrameInputs) -> (Vec<i16>, Vec<u8>, Vec<u8>) {
        self.keys = inputs.keys.bits();
        self.frame += 1;
        (
            vec![self.frame as i16; 4],
            vec![self.frame as u8; FRAME_BYTES],
            vec![self.frame as u8 + 100; FRAME_BYTES],
        )
    }
}

fn tick(frontend: &mut Frontend, engine: &mut Engine, events: Vec<InputEvent>) -> TickAction {
    let plan = frontend.begin_tick(events);
    if plan.action == TickAction::RunFrame {
        let inputs = frontend.run_frame(engine.frame);
        let (samples, top, bottom) = engine.run(&inputs);
        frontend.finish_frame(inputs.force_pause);
        assert!(frontend.update_audio(samples));
        let top: &[u8; FRAME_BYTES] = top.as_slice().try_into().unwrap();
        let bottom: &[u8; FRAME_BYTES] = bottom.as_slice().try_into().unwrap();
        frontend.update_framebuffers(top, bottom);
    }
    plan.action
}

#[test]
fn a_step_key_advances_a_paused_emulator_by_exactly_one_frame() {
    let mut frontend = frontend();
    let mut engine = Engine { frame: 0, keys: 0 };
    assert_eq!(frontend.state, EmuState::Paused);
    assert_eq!(tick(&mut frontend, &mut engine, vec![]), TickAction::Idle);
    assert_eq!(engine.frame, 0);

    assert_eq!(
        tick(&mut frontend, &mut engine, vec![InputEvent::KeyDown(KEY_PERIOD)]),
        TickAction::Idle
    );
    assert_eq!(tick(&mut frontend, &mut engine, vec![InputEvent::KeyUp(KEY_PERIOD)]), TickAction::RunFrame);
    assert_eq!(engine.frame, 1);
    assert_eq!(frontend.state, EmuState::Paused);
    assert!(frontend.top_frame.iter().all(|byte| *byte == 1));
    assert!(frontend.bottom_frame.iter().all(|byte| *byte == 101));
    assert_eq!(*frontend.audio.lock().unwrap(), vec![1i16; 4]);

    for _ in 0..5 {
        assert_eq!(tick(&mut frontend, &mut engine, vec![]), TickAction::Idle);
    }
    assert_eq!(engine.frame, 1);
    assert_eq!(frontend.state, EmuState::Paused);
}

#[test]
fn a_running_emulator_advances_every_tick_until_it_is_paused() {
    let mut frontend = frontend();
    let mut engine = Engine { frame: 0, keys: 0 };
    tick(&mut frontend, &mut engine, vec![InputEvent::KeyDown(KEY_COMMA)]);
    for _ in 0..3 {
        assert_eq!(tick(&mut frontend, &mut engine, vec![]), TickAction::RunFrame);
    }
    assert_eq!(engine.frame, 3);
    assert_eq!(
        tick(&mut frontend, &mut engine, vec![InputEvent::KeyDown(KEY_COMMA)]),
        TickAction::RunFrame
    );
    assert_eq!(engine.frame, 4);
    assert_eq!(tick(&mut frontend, &mut engine, vec![]), TickAction::Idle);
    assert_eq!(engine.frame, 4);
    assert_eq!(frontend.audio.lock().unwrap().len(), 16);
}

#[test]
fn playback_pauses_the_run_after_the_last_recorded_frame() {
    let mut frontend = frontend_with(Some((replay("a", vec![0x1, 0x2, 0x4]), ReplayState::Playing)));
    let mut engine = Engine { frame: 0, keys: 0 };
    frontend.send_state_change(EmuStateChange::PlayPause);
    let mut applied = Vec::new();
    for _ in 0..6 {
        if tick(&mut frontend, &mut engine, vec![]) == TickAction::RunFrame {
            applied.push(engine.keys);
        }
    }
    assert_eq!(applied, vec![0x1, 0x2, 0x4]);
    assert_eq!(engine.frame, 3);
    assert_eq!(frontend.state, EmuState::Paused);
}

#[test]
fn a_recording_takes_the_live_keys_down_frame_by_frame() {
    let mut frontend = frontend_with(Some((replay("a", vec![]), ReplayState::Recording)));
    let mut engine = Engine { frame: 0, keys: 0 };
    frontend.send_state_change(EmuStateChange::PlayPause);
    tick(&mut frontend, &mut engine, vec![InputEvent::KeyDown(KEY_W)]);
    tick(&mut frontend, &mut engine, vec![InputEvent::KeyDown(KEY_L)]);
    tick(&mut frontend, &mut engine, vec![InputEvent::KeyUp(KEY_W)]);
    tick(&mut frontend, &mut engine, vec![]);
    assert_eq!(frontend.replay.as_ref().unwrap().0.inputs, vec![0x040, 0x041, 0x001, 0x001]);
    assert_eq!(frontend.state, EmuState::Running);
}

#[test]
fn run_frame_gives_the_chosen_keys_with_live_touch_and_lid() {
    let mut frontend = frontend_with(Some((replay("a", vec![0x3, 0x5]), ReplayState::Playing)));
    frontend.handle_input_event(InputEvent::KeyDown(KEY_W));
    frontend.handle_input_event(InputEvent::CursorMove(Some((1, 2))));
    frontend.handle_input_event(InputEvent::MouseDown);
    frontend.handle_input_event(InputEvent::KeyDown(KEY_SLASH));
    assert_eq!(
        frontend.run_frame(1),
        FrameInputs {
            keys: NdsKeyMask::from_bits_retain(0x5),
            touch: Some((1, 2)),
            lid_changed: true,
            force_pause: true,
            warning: None,
        }
    );
    assert_eq!(
        frontend.run_frame(2),
        FrameInputs {
            keys: NdsKeyMask::from_bits_retain(0x040),
            touch: Some((1, 2)),
            lid_changed: true,
            force_pause: false,
            warning: Some(ReplayWarning::PlaybackExhausted),
        }
    );
    assert_eq!(frontend.get_nds_inputs(0).keys.bits(), 0x3);
    assert_eq!(frontend.get_nds_inputs(2).keys.bits(), 0x040);
    assert_eq!(frontend.get_nds_inputs(0).touch, Some((1, 2)));
    assert!(frontend.record_replay_nds_input(7));
    assert_eq!(frontend.replay.as_ref().unwrap().0.inputs, vec![0x3, 0x5]);
}

#[test]
fn record_replay_nds_input_records_only_in_a_recording_session() {
    let mut frontend = frontend_with(Some((replay("a", vec![1, 2, 3]), ReplayState::Recording)));
    frontend.handle_input_event(InputEvent::KeyDown(KEY_L));
    assert_eq!(frontend.get_nds_inputs(0).keys.bits(), 0x001);
    assert!(frontend.record_replay_nds_input(1));
    assert_eq!(frontend.replay.as_ref().unwrap().0.inputs, vec![1, 0x001]);
    assert!(!frontend.record_replay_nds_input(5));
    assert_eq!(frontend.replay.as_ref().unwrap().0.inputs, vec![1, 0x001]);
    let mut none = frontend_with(None);
    assert!(none.record_replay_nds_input(5));
    assert_eq!(none.replay, None);
}

#[test]
fn a_savestate_is_bound_to_the_running_replay() {
    let frontend_a = frontend_with(Some((replay("A", vec![1, 2, 3]), ReplayState::Recording)));
    let written = frontend_a.write_savestate();
    assert_eq!(
        written,
        SavestateContext {
            replay: Some(SavestateContextReplay { name: "A".to_string(), inputs: vec![1, 2, 3] })
        }
    );

    let mut frontend_b = frontend_with(Some((replay("B", vec![7]), ReplayState::Recording)));
    assert_eq!(
        frontend_b.read_savestate(Sidecar::Present(written.clone())),
        Err(SavestateError::DifferentReplay)
    );
    assert_eq!(frontend_b.replay, Some((replay("B", vec![7]), ReplayState::Recording)));

    let mut unbound = frontend_with(None);
    assert_eq!(
        unbound.read_savestate(Sidecar::Present(written.clone())),
        Err(SavestateError::NoReplayRunning)
    );
    assert_eq!(unbound.replay, None);

    let mut later_a =
        frontend_with(Some((replay("A", vec![1, 2, 3, 4, 5]), ReplayState::Recording)));
    assert_eq!(later_a.read_savestate(Sidecar::Present(written)), Ok(()));
    assert_eq!(later_a.replay, Some((replay("A", vec![1, 2, 3]), ReplayState::Recording)));
    assert_eq!(later_a.read_savestate(Sidecar::Missing), Err(SavestateError::ContextMissing));
    assert_eq!(
        later_a.read_savestate(Sidecar::Present(SavestateContext { replay: None })),
        Err(SavestateError::NotOfAReplay)
    );
}

#[test]
fn the_key_map_keeps_one_action_per_input() {
    let mut map = KeyMap::new();
    assert_eq!(map.len(), 0);
    let input = EmuInput { key_code: KEY_X, modifiers: MOD_NONE };
    assert_eq!(map.get(input), None);
    map.insert(input, KeyPressAction::NdsAction(NdsAction::Select));
    map.insert(input, KeyPressAction::NdsAction(NdsAction::OpenCloseLid));
    map.insert(EmuInput { key_code: KEY_X, modifiers: MOD_CTRL }, KeyPressAction::Step);
    map.insert(EmuInput { key_code: 0, modifiers: KEY_X }, KeyPressAction::PlayPlause);
    assert_eq!(map.len(), 3);
    assert_eq!(map.get(input), Some(&KeyPressAction::NdsAction(NdsAction::OpenCloseLid)));
    assert_eq!(
        map.get(EmuInput { key_code: KEY_X, modifiers: MOD_CTRL }),
        Some(&KeyPressAction::Step)
    );
    assert_eq!(map.get(EmuInput { key_code: 0, modifiers: KEY_X }), Some(&KeyPressAction::PlayPlause));
    assert_eq!(map.get(EmuInput { key_code: KEY_X, modifiers: MOD_SHIFT }), None);
    let mut entries = map.entries();
    entries.sort_by_key(|entry| (entry.0.key_code, entry.0.modifiers));
    assert_eq!(
        entries,
        vec![
            (EmuInput { key_code: 0, modifiers: KEY_X }, KeyPressAction::PlayPlause),
            (input, KeyPressAction::NdsAction(NdsAction::OpenCloseLid)),
            (EmuInput { key_code: KEY_X, modifiers: MOD_CTRL }, KeyPressAction::Step),
        ]
    );
    let extreme = EmuInput { key_code: u32::MAX, modifiers: u32::MAX };
    map.insert(extreme, KeyPressAction::SaveReplay);
    assert_eq!(map.get(extreme), Some(&KeyPressAction::SaveReplay));
    assert_eq!(map.get(EmuInput { key_code: u32::MAX, modifiers: 0 }), None);
}

#[test]
fn actions_and_requests_clone_as_they_are() {
    let actions = [
        KeyPressAction::NdsAction(NdsAction::R),
        KeyPressAction::PlayPlause,
        KeyPressAction::Step,
        KeyPressAction::Save("a".to_string()),
        KeyPressAction::ReadSavestate("b".to_string()),
        KeyPressAction::WriteSavestate("c".to_string()),
        KeyPressAction::ToggleReplayMode,
        KeyPressAction::SaveReplay,
        KeyPressAction::WriteMainRAM("d".to_string()),
    ];
    for action in actions.iter() {
        assert_eq!(&action.clone(), action);
    }
    let requests = [
        Request::WriteSavestate("a".to_string()),
        Request::ReadSavestate("b".to_string()),
        Request::WriteRam("c".to_string()),
        Request::WriteReplay,
        Request::WriteSavedata("d".to_string()),
    ];
    for request in requests.iter() {
        assert_eq!(&request.clone(), request);
    }
}
