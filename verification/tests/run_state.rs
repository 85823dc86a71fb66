use melon_rs::{EmuState, EmuStateChange, TickAction};

#[test]
fn play_pause_toggles_between_paused_and_running() {
    assert_eq!(EmuState::Paused.apply(EmuStateChange::PlayPause), EmuState::Running);
    assert_eq!(EmuState::Running.apply(EmuStateChange::PlayPause), EmuState::Paused);
    assert_eq!(EmuState::Stepping.apply(EmuStateChange::PlayPause), EmuState::Running);
}

#[test]
fn stopped_is_terminal() {
    for change in [EmuStateChange::PlayPause, EmuStateChange::Step, EmuStateChange::Stop] {
        assert_eq!(EmuState::Stopped.apply(change), EmuState::Stopped);
    }
    assert_eq!(EmuState::Stopped.finish_frame(false), EmuState::Stopped);
    assert_eq!(EmuState::Stopped.finish_frame(true), EmuState::Stopped);
    assert_eq!(EmuState::Stopped.tick_action(), TickAction::Exit);
}

#[test]
fn step_and_stop_commands() {
    for state in [EmuState::Running, EmuState::Paused, EmuState::Stepping] {
        assert_eq!(state.apply(EmuStateChange::Step), EmuState::Stepping);
        assert_eq!(state.apply(EmuStateChange::Stop), EmuState::Stopped);
    }
}

#[test]
fn stepping_returns_to_paused_after_one_frame() {
    assert_eq!(EmuState::Stepping.tick_action(), TickAction::RunFrame);
    assert_eq!(EmuState::Stepping.finish_frame(false), EmuState::Paused);
    assert_eq!(EmuState::Stepping.finish_frame(true), EmuState::Paused);
    assert_eq!(EmuState::Paused.tick_action(), TickAction::Idle);
}

#[test]
fn a_forced_pause_pauses_a_run() {
    assert_eq!(EmuState::Running.tick_action(), TickAction::RunFrame);
    assert_eq!(EmuState::Running.finish_frame(false), EmuState::Running);
    assert_eq!(EmuState::Running.finish_frame(true), EmuState::Paused);
    assert_eq!(EmuState::Paused.finish_frame(true), EmuState::Paused);
}
