//! Real-time coordination core of an emulator frontend: run-state machine,
//! frame-indexed input replay, savestate binding, audio stream synthesis and
//! command dispatch, each with a machine-checked contract.

use vstd::prelude::*;

pub mod args;
pub mod audio;
pub mod config;
pub mod events;
pub mod frontend;
pub mod keys;
pub mod melon;
pub mod replay;
pub mod savestate;

verus! {

/// Run state of the emulator. `Stopped` is terminal.
#[derive(Debug, PartialEq, Eq, Clone, Copy, Structural)]
pub enum EmuState {
    Running,
    Paused,
    Stepping,
    Stopped,
}

/// A command that asks the scheduler to change the run state.
#[derive(Debug, PartialEq, Eq, Clone, Copy, Structural)]
pub enum EmuStateChange {
    PlayPause,
    Step,
    Stop,
}

/// What the scheduler does with the engine in one tick.
#[derive(Debug, PartialEq, Eq, Clone, Copy, Structural)]
pub enum TickAction {
    /// Leave the scheduler loop for good.
    Exit,
    /// Leave the engine alone.
    Idle,
    /// Advance the engine by exactly one frame.
    RunFrame,
}

impl EmuState {
    /// The run state that follows `self` once `change` has been observed.
    pub open spec fn after(self, change: EmuStateChange) -> EmuState {
        match self {
            EmuState::Stopped => EmuState::Stopped,
            _ => match change {
                EmuStateChange::PlayPause => if self == EmuState::Running {
                    EmuState::Paused
                } else {
                    EmuState::Running
                },
                EmuStateChange::Step => EmuState::Stepping,
                EmuStateChange::Stop => EmuState::Stopped,
            },
        }
    }

    /// Whether the engine advances by a frame in a tick that finds this state.
    pub open spec fn advances(self) -> bool {
        self == EmuState::Running || self == EmuState::Stepping
    }

    /// The run state once a frame has been simulated: a single step is
    /// over, and a forced pause pauses a run.
    pub open spec fn after_frame(self, force_pause: bool) -> EmuState {
        match self {
            EmuState::Stepping => EmuState::Paused,
            EmuState::Running => if force_pause {
                EmuState::Paused
            } else {
                EmuState::Running
            },
            _ => self,
        }
    }

    /// What a tick does that finds this state.
    pub open spec fn action(self) -> TickAction {
        match self {
            EmuState::Stopped => TickAction::Exit,
            EmuState::Paused => TickAction::Idle,
            _ => TickAction::RunFrame,
        }
    }

    /// Tells the scheduler what to do in a tick that finds this state.
    pub fn tick_action(self) -> (action: TickAction)
        ensures
            action == self.action(),
            action == TickAction::RunFrame <==> self.advances(),
    {
        match self {
            EmuState::Stopped => TickAction::Exit,
            EmuState::Paused => TickAction::Idle,
            EmuState::Running => TickAction::RunFrame,
            EmuState::Stepping => TickAction::RunFrame,
        }
    }

    /// The run state once a frame has been simulated.
    pub fn finish_frame(self, force_pause: bool) -> (next: EmuState)
        ensures
            next == self.after_frame(force_pause),
    {
        match self {
            EmuState::Stepping => EmuState::Paused,
            EmuState::Running => if force_pause {
                EmuState::Paused
            } else {
                EmuState::Running
            },
            EmuState::Paused => EmuState::Paused,
            EmuState::Stopped => EmuState::Stopped,
        }
    }

    /// Applies a state-change command.
    pub fn apply(self, change: EmuStateChange) -> (next: EmuState)
        ensures
            next == self.after(change),
    {
        match change {
            EmuStateChange::PlayPause => match self {
                EmuState::Running => EmuState::Paused,
                EmuState::Paused => EmuState::Running,
                EmuState::Stepping => EmuState::Running,
                EmuState::Stopped => EmuState::Stopped,
            },
            EmuStateChange::Step => match self {
                EmuState::Stopped => EmuState::Stopped,
                _ => EmuState::Stepping,
            },
            EmuStateChange::Stop => EmuState::Stopped,
        }
    }
}

/// A play-pause command starts a paused emulator and pauses a running one.
pub proof fn lemma_play_pause()
    ensures
        EmuState::Paused.after(EmuStateChange::PlayPause) == EmuState::Running,
        EmuState::Running.after(EmuStateChange::PlayPause) == EmuState::Paused,
{
}

/// No command changes the state of a stopped emulator, and a tick that
/// finds it stopped leaves the loop without a frame.
pub proof fn lemma_stopped_is_terminal(change: EmuStateChange, force_pause: bool)
    ensures
        EmuState::Stopped.after(change) == EmuState::Stopped,
        EmuState::Stopped.after_frame(force_pause) == EmuState::Stopped,
        EmuState::Stopped.action() == TickAction::Exit,
        !EmuState::Stopped.advances(),
{
}

/// A step simulates exactly one frame: the tick that finds the emulator
/// stepping runs a frame, after which the emulator is paused, and a paused
/// emulator runs no frame.
pub proof fn lemma_step_runs_one_frame(force_pause: bool)
    ensures
        EmuState::Stepping.action() == TickAction::RunFrame,
        EmuState::Stepping.after_frame(force_pause) == EmuState::Paused,
        EmuState::Paused.action() == TickAction::Idle,
        !EmuState::Paused.advances(),
{
}

/// A step command makes every emulator that is not stopped step.
pub proof fn lemma_step_command(state: EmuState)
    requires
        state != EmuState::Stopped,
    ensures
        state.after(EmuStateChange::Step) == EmuState::Stepping,
{
}

} // verus!
