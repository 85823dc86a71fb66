//! Keeps savestates and replays consistent: a savestate carries the name
//! and input log of the replay it was written under, and is only applied
//! to a session of that replay.

use crate::replay::{
    session_view, BindingView, Replay, ReplayState, ReplayView, SavestateContext,
    SavestateContextReplay,
};
use vstd::prelude::*;
use vstd::string::StringExecFns;

verus! {

/// What was found where the context of a savestate is kept.
#[derive(Debug, PartialEq, Eq)]
pub enum Sidecar {
    /// Nothing could be read there.
    Missing,
    /// What was read there is no context.
    Corrupt,
    /// The context.
    Present(SavestateContext),
}

/// Mathematical value of a [`Sidecar`].
pub enum SidecarView {
    Missing,
    Corrupt,
    Present(Option<BindingView>),
}

impl View for Sidecar {
    type V = SidecarView;

    open spec fn view(&self) -> SidecarView {
        match *self {
            Sidecar::Missing => SidecarView::Missing,
            Sidecar::Corrupt => SidecarView::Corrupt,
            Sidecar::Present(context) => SidecarView::Present(context@),
        }
    }
}

/// Why a savestate was not applied. None of these is fatal: the session
/// and the engine stay as they were.
#[derive(Debug, PartialEq, Eq, Clone, Copy, Structural)]
pub enum SavestateError {
    /// The context of the savestate could not be read.
    ContextMissing,
    /// The context of the savestate could not be understood.
    ContextCorrupt,
    /// The savestate belongs to another replay than the running one.
    DifferentReplay,
    /// A replay is running and the savestate belongs to none.
    NotOfAReplay,
    /// No replay is running and the savestate belongs to one.
    NoReplayRunning,
}

/// The context that a savestate gets when it is written under `session`.
pub open spec fn binding_of(session: Option<(ReplayView, ReplayState)>) -> Option<BindingView> {
    match session {
        Some((replay, _)) => Some(BindingView { name: replay.name, inputs: replay.inputs }),
        None => None,
    }
}

/// Whether a savestate with the given sidecar may be applied under
/// `session`, and why not where it may not.
pub open spec fn verdict(
    session: Option<(ReplayView, ReplayState)>,
    sidecar: SidecarView,
) -> Result<(), SavestateError> {
    match sidecar {
        SidecarView::Missing => Err(SavestateError::ContextMissing),
        SidecarView::Corrupt => Err(SavestateError::ContextCorrupt),
        SidecarView::Present(binding) => match (session, binding) {
            (Some((replay, _)), Some(bound)) => if bound.name == replay.name {
                Ok(())
            } else {
                Err(SavestateError::DifferentReplay)
            },
            (Some(_), None) => Err(SavestateError::NotOfAReplay),
            (None, Some(_)) => Err(SavestateError::NoReplayRunning),
            (None, None) => Ok(()),
        },
    }
}

/// The session after a savestate with the given sidecar has been asked
/// for: where it may be applied to a running replay, the input log is the
/// one of the sidecar; in every other case the session is as before.
pub open spec fn restored(
    session: Option<(ReplayView, ReplayState)>,
    sidecar: SidecarView,
) -> Option<(ReplayView, ReplayState)> {
    match (session, sidecar) {
        (Some((replay, mode)), SidecarView::Present(Some(bound))) => if bound.name
            == replay.name {
            Some((ReplayView { inputs: bound.inputs, ..replay }, mode))
        } else {
            session
        },
        _ => session,
    }
}

/// The context to keep beside a savestate that is written under `session`.
pub fn context_of(session: &Option<(Replay, ReplayState)>) -> (context: SavestateContext)
    ensures
        context@ == binding_of(session_view(*session)),
{
    match session {
        Some((replay, _)) => SavestateContext {
            replay: Some(
                SavestateContextReplay { name: replay.name.clone(), inputs: replay.inputs.clone() },
            ),
        },
        None => SavestateContext { replay: None },
    }
}

/// Decides whether a savestate with the given sidecar may be applied under
/// `session`. Where it may and a replay is running, the replay's input log
/// is replaced by the one of the sidecar, so that it is in place before
/// the engine's state is swapped. Where it may not, the session is left as it is.
pub fn restore(session: &mut Option<(Replay, ReplayState)>, sidecar: Sidecar) -> (outcome: Result<
    (),
    SavestateError,
>)
    ensures
        outcome == verdict(session_view(*old(session)), sidecar@),
        session_view(*final(session)) == restored(session_view(*old(session)), sidecar@),
        outcome is Err ==> *final(session) == *old(session),
{
    let context: SavestateContext = match sidecar {
        Sidecar::Missing => {
            return Err(SavestateError::ContextMissing);
        },
        Sidecar::Corrupt => {
            return Err(SavestateError::ContextCorrupt);
        },
        Sidecar::Present(context) => context,
    };
    match session {
        Some((replay, _)) => match context.replay {
            Some(bound) => {
                if bound.name == replay.name {
                    replay.inputs = bound.inputs;
                    Ok(())
                } else {
                    Err(SavestateError::DifferentReplay)
                }
            },
            None => Err(SavestateError::NotOfAReplay),
        },
        None => match context.replay {
            Some(_) => Err(SavestateError::NoReplayRunning),
            None => Ok(()),
        },
    }
}

/// The path at which the context of the savestate at `path` is kept: the
/// path itself with `.context` behind it.
pub fn context_path(path: &str) -> (sidecar: String)
    ensures
        sidecar@ == path@ + ".context"@,
{
    String::from_str(path).concat(".context")
}

/// A savestate written under one replay is refused under another replay
/// and where no replay runs, and the session is then left as it was; under
/// a session of the replay it was written under it is accepted, and the
/// session's input log becomes the one the savestate was written with.
pub proof fn lemma_savestate_binding(
    written_under: (ReplayView, ReplayState),
    loaded_under: Option<(ReplayView, ReplayState)>,
)
    ensures
        ({
            let sidecar = SidecarView::Present(binding_of(Some(written_under)));
            match loaded_under {
                None => {
                    &&& verdict(loaded_under, sidecar) == Err::<(), SavestateError>(
                        SavestateError::NoReplayRunning,
                    )
                    &&& restored(loaded_under, sidecar) == loaded_under
                },
                Some((replay, mode)) => if replay.name == written_under.0.name {
                    &&& verdict(loaded_under, sidecar) is Ok
                    &&& restored(loaded_under, sidecar) == Some(
                        (ReplayView { inputs: written_under.0.inputs, ..replay }, mode),
                    )
                } else {
                    &&& verdict(loaded_under, sidecar) == Err::<(), SavestateError>(
                        SavestateError::DifferentReplay,
                    )
                    &&& restored(loaded_under, sidecar) == loaded_under
                },
            }
        }),
{
}

/// A savestate written while no replay ran is accepted exactly where no
/// replay runs, and never changes the session.
pub proof fn lemma_unbound_savestate(loaded_under: Option<(ReplayView, ReplayState)>)
    ensures
        verdict(loaded_under, SidecarView::Present(binding_of(None))) is Ok
            <==> loaded_under is None,
        restored(loaded_under, SidecarView::Present(binding_of(None))) == loaded_under,
{
}

} // verus!
