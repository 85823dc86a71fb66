//! Recorded sessions: the data of a replay, the per-frame choice between
//! recorded and live input, and the record that ties a savestate to a replay.

pub use crate::frontend::ReplayState;
use vstd::prelude::*;

verus! {

/// An instant of UTC: whole seconds since the Unix epoch and the
/// nanoseconds into that second.
#[derive(Debug, PartialEq, Eq, Clone, Copy, Structural)]
pub struct Timestamp {
    pub secs: i64,
    pub nanos: u32,
}

/// Where a replay starts from.
#[derive(Debug, PartialEq, Eq)]
pub enum ReplaySource {
    /// From power-on, with an optional save file and the clock set to `timestamp`.
    SaveFile { path: Option<String>, timestamp: Timestamp },
}

/// A named, authored recording of one frame-indexed input sequence:
/// `inputs[i]` is the key mask applied during frame `i`.
#[derive(Debug, PartialEq, Eq)]
pub struct Replay {
    pub name: String,
    pub author: String,
    pub source: ReplaySource,
    pub inputs: Vec<u32>,
}

/// The replay a savestate was written under, kept beside the savestate.
#[derive(Debug, PartialEq, Eq)]
pub struct SavestateContext {
    pub replay: Option<SavestateContextReplay>,
}

/// Name and input log of the replay that was active when a savestate was written.
#[derive(Debug, PartialEq, Eq)]
pub struct SavestateContextReplay {
    pub name: String,
    pub inputs: Vec<u32>,
}

/// Mathematical value of a [`ReplaySource`].
pub struct ReplaySourceView {
    pub path: Option<Seq<char>>,
    pub timestamp: Timestamp,
}

/// Mathematical value of a [`Replay`].
pub struct ReplayView {
    pub name: Seq<char>,
    pub author: Seq<char>,
    pub source: ReplaySourceView,
    pub inputs: Seq<u32>,
}

/// Mathematical value of a [`SavestateContext`]: the bound replay's name
/// and input log, if the savestate is bound to one.
pub struct BindingView {
    pub name: Seq<char>,
    pub inputs: Seq<u32>,
}

impl View for ReplaySource {
    type V = ReplaySourceView;

    open spec fn view(&self) -> ReplaySourceView {
        match *self {
            ReplaySource::SaveFile { path, timestamp } => ReplaySourceView {
                path: match path {
                    Some(p) => Some(p@),
                    None => None,
                },
                timestamp,
            },
        }
    }
}

impl View for Replay {
    type V = ReplayView;

    open spec fn view(&self) -> ReplayView {
        ReplayView {
            name: self.name@,
            author: self.author@,
            source: self.source@,
            inputs: self.inputs@,
        }
    }
}

impl View for SavestateContextReplay {
    type V = BindingView;

    open spec fn view(&self) -> BindingView {
        BindingView { name: self.name@, inputs: self.inputs@ }
    }
}

impl View for SavestateContext {
    type V = Option<BindingView>;

    open spec fn view(&self) -> Option<BindingView> {
        match self.replay {
            Some(bound) => Some(bound@),
            None => None,
        }
    }
}

impl Clone for ReplaySource {
    fn clone(&self) -> (copy: ReplaySource)
        ensures
            copy@ == self@,
    {
        match self {
            ReplaySource::SaveFile { path, timestamp } => ReplaySource::SaveFile {
                path: match path {
                    Some(path) => Some(path.clone()),
                    None => None,
                },
                timestamp: *timestamp,
            },
        }
    }
}

impl Clone for Replay {
    fn clone(&self) -> (copy: Replay)
        ensures
            copy@ == self@,
    {
        Replay {
            name: self.name.clone(),
            author: self.author.clone(),
            source: self.source.clone(),
            inputs: self.inputs.clone(),
        }
    }
}

impl Clone for SavestateContextReplay {
    fn clone(&self) -> (copy: SavestateContextReplay)
        ensures
            copy@ == self@,
    {
        SavestateContextReplay { name: self.name.clone(), inputs: self.inputs.clone() }
    }
}

impl Clone for SavestateContext {
    fn clone(&self) -> (copy: SavestateContext)
        ensures
            copy@ == self@,
    {
        SavestateContext {
            replay: match &self.replay {
                Some(bound) => Some(bound.clone()),
                None => None,
            },
        }
    }
}

/// Mathematical value of a session: the replay's value and the mode,
/// `None` where there is no session.
pub open spec fn session_view(session: Option<(Replay, ReplayState)>) -> Option<
    (ReplayView, ReplayState),
> {
    match session {
        Some((replay, mode)) => Some((replay@, mode)),
        None => None,
    }
}

/// Something worth a warning that happened while the input of a frame was chosen.
#[derive(Debug, PartialEq, Eq, Clone, Copy, Structural)]
pub enum ReplayWarning {
    /// Playback asked for a frame at or after the end of the recording.
    PlaybackExhausted,
    /// Recording was asked for a frame beyond the first unrecorded one.
    FrameBeyondRecording,
}

/// The outcome of choosing the input of one frame.
#[derive(Debug, PartialEq, Eq, Clone, Copy)]
pub struct FrameInput {
    /// The key mask to apply during the frame.
    pub input: u32,
    /// Whether the scheduler must pause once the frame has run.
    pub force_pause: bool,
    /// A condition to report, if any.
    pub warning: Option<ReplayWarning>,
}

/// The input log after `live` has been recorded at `frame`: everything from
/// `frame` on is discarded and `live` is appended. A frame beyond the first
/// unrecorded one leaves the log as it is.
pub open spec fn recorded(inputs: Seq<u32>, frame: nat, live: u32) -> Seq<u32> {
    if frame <= inputs.len() {
        inputs.take(frame as int).push(live)
    } else {
        inputs
    }
}

/// The key mask that playback applies at `frame`: the recorded one while
/// the recording lasts, the live one after it.
pub open spec fn played(inputs: Seq<u32>, frame: nat, live: u32) -> u32 {
    if frame < inputs.len() {
        inputs[frame as int]
    } else {
        live
    }
}

/// The outcome of choosing the input of `frame`, for a session given by
/// its input log and its mode (`None`: no session).
pub open spec fn resolved(
    session: Option<(Seq<u32>, ReplayState)>,
    frame: nat,
    live: u32,
) -> FrameInput {
    match session {
        None => FrameInput { input: live, force_pause: false, warning: None },
        Some((inputs, ReplayState::Playing)) => FrameInput {
            input: played(inputs, frame, live),
            force_pause: frame + 1 == inputs.len(),
            warning: if frame < inputs.len() {
                None
            } else {
                Some(ReplayWarning::PlaybackExhausted)
            },
        },
        Some((inputs, ReplayState::Recording)) => FrameInput {
            input: live,
            force_pause: false,
            warning: if frame <= inputs.len() {
                None
            } else {
                Some(ReplayWarning::FrameBeyondRecording)
            },
        },
    }
}

/// The input log of a session after the input of `frame` has been chosen.
pub open spec fn log_after(
    session: Option<(Seq<u32>, ReplayState)>,
    frame: nat,
    live: u32,
) -> Option<Seq<u32>> {
    match session {
        None => None,
        Some((inputs, ReplayState::Playing)) => Some(inputs),
        Some((inputs, ReplayState::Recording)) => Some(recorded(inputs, frame, live)),
    }
}

/// Whether `after` is the session that `before` becomes once the input of
/// `frame` has been chosen: the same replay in the same mode, with the
/// input log that [`log_after`] gives.
pub open spec fn session_follows(
    before: Option<(Replay, ReplayState)>,
    after: Option<(Replay, ReplayState)>,
    frame: nat,
    live: u32,
) -> bool {
    match (before, after) {
        (None, None) => true,
        (Some((was, mode_was)), Some((is, mode_is))) => {
            &&& mode_is == mode_was
            &&& Some(is.inputs@) == log_after(session_log(before), frame, live)
            &&& is.name == was.name
            &&& is.author == was.author
            &&& is.source == was.source
        },
        _ => false,
    }
}

/// Input log and mode of a session, `None` where there is none.
pub open spec fn session_log(session: Option<(Replay, ReplayState)>) -> Option<
    (Seq<u32>, ReplayState),
> {
    match session {
        Some((replay, mode)) => Some((replay.inputs@, mode)),
        None => None,
    }
}

impl Replay {
    /// Records `live` as the input of `frame`, discarding what was recorded
    /// for that frame and all later ones. Returns whether it was recorded:
    /// a frame beyond the first unrecorded one cannot be.
    pub fn record(&mut self, frame: usize, live: u32) -> (done: bool)
        ensures
            done == (frame <= old(self).inputs@.len()),
            final(self).inputs@ == recorded(old(self).inputs@, frame as nat, live),
            final(self).name == old(self).name,
            final(self).author == old(self).author,
            final(self).source == old(self).source,
    {
        if frame <= self.inputs.len() {
            self.inputs.truncate(frame);
            self.inputs.push(live);
            assert(self.inputs@ =~= recorded(old(self).inputs@, frame as nat, live));
            true
        } else {
            false
        }
    }

    /// The recorded input of `frame`, if the recording reaches that far.
    pub fn recorded_at(&self, frame: usize) -> (input: Option<u32>)
        ensures
            input == if frame < self.inputs@.len() {
                Some(self.inputs@[frame as int])
            } else {
                None
            },
    {
        if frame < self.inputs.len() {
            Some(self.inputs[frame])
        } else {
            None
        }
    }
}

/// Chooses the key mask to apply during frame `current_frame`.
///
/// Without a session the live input is applied. A playing session applies
/// the recorded input of the frame and asks for a pause when that frame is
/// the last recorded one; past the end it falls back on the live input.
/// A recording session applies the live input and records it at the frame.
pub fn resolve_frame_input(
    current_frame: u32,
    live_input: u32,
    session: &mut Option<(Replay, ReplayState)>,
) -> (chosen: FrameInput)
    ensures
        chosen == resolved(session_log(*old(session)), current_frame as nat, live_input),
        session_follows(*old(session), *final(session), current_frame as nat, live_input),
{
    let frame: usize = current_frame as usize;
    match session {
        None => FrameInput { input: live_input, force_pause: false, warning: None },
        Some((replay, mode)) => match *mode {
            ReplayState::Playing => {
                let len: usize = replay.inputs.len();
                if frame < len {
                    FrameInput {
                        input: replay.inputs[frame],
                        force_pause: frame == len - 1,
                        warning: None,
                    }
                } else {
                    FrameInput {
                        input: live_input,
                        force_pause: false,
                        warning: Some(ReplayWarning::PlaybackExhausted),
                    }
                }
            },
            ReplayState::Recording => {
                let done: bool = replay.record(frame, live_input);
                FrameInput {
                    input: live_input,
                    force_pause: false,
                    warning: if done {
                        None
                    } else {
                        Some(ReplayWarning::FrameBeyondRecording)
                    },
                }
            },
        },
    }
}

/// The input log of a session that started with an empty log and recorded
/// the first `frames` key masks of `live`, one per frame, from frame 0 on.
pub open spec fn recording_of(live: Seq<u32>, frames: nat) -> Seq<u32>
    decreases frames,
{
    if frames == 0 {
        Seq::empty()
    } else {
        recorded(recording_of(live, (frames - 1) as nat), (frames - 1) as nat, live[frames - 1])
    }
}

/// Playback is deterministic: at a recorded frame a playing session gives
/// the recorded key mask and the same outcome whatever the live input is,
/// and it leaves the input log untouched.
pub proof fn lemma_playback_is_deterministic(inputs: Seq<u32>, frame: nat, live: u32, other: u32)
    requires
        frame < inputs.len(),
    ensures
        resolved(Some((inputs, ReplayState::Playing)), frame, live).input == inputs[frame as int],
        resolved(Some((inputs, ReplayState::Playing)), frame, live) == resolved(
            Some((inputs, ReplayState::Playing)),
            frame,
            other,
        ),
        log_after(Some((inputs, ReplayState::Playing)), frame, live) == Some(inputs),
{
}

/// Recording at a frame inside the log truncates and appends: the log
/// keeps the frames before it, holds the new key mask at it, and ends there.
pub proof fn lemma_record_truncates_and_appends(inputs: Seq<u32>, frame: nat, live: u32)
    requires
        frame < inputs.len(),
    ensures
        recorded(inputs, frame, live).len() == frame + 1,
        recorded(inputs, frame, live)[frame as int] == live,
        forall|i: int| 0 <= i < frame ==> recorded(inputs, frame, live)[i] == inputs[i],
        log_after(Some((inputs, ReplayState::Recording)), frame, live) == Some(
            recorded(inputs, frame, live),
        ),
{
}

/// Recording frame after frame from an empty log takes the live inputs
/// down as they are.
pub proof fn lemma_recording_takes_down(live: Seq<u32>, frames: nat)
    requires
        frames <= live.len(),
    ensures
        recording_of(live, frames) == live.take(frames as int),
    decreases frames,
{
    if frames > 0 {
        lemma_recording_takes_down(live, (frames - 1) as nat);
        assert(live.take(frames - 1).take(frames - 1).push(live[frames - 1]) =~= live.take(
            frames as int,
        ));
    } else {
        assert(live.take(0) =~= Seq::<u32>::empty());
    }
}

/// A recorded session plays back as it was recorded: the log that
/// recording the inputs `live` from frame 0 on leaves gives, in playback,
/// the recorded key mask at every frame, whatever the live input is then,
/// and asks for a pause at the last recorded frame and at no other.
pub proof fn lemma_record_then_play(live: Seq<u32>, frame: nat, later_live: u32)
    requires
        frame < live.len(),
    ensures
        resolved(
            Some((recording_of(live, live.len()), ReplayState::Playing)),
            frame,
            later_live,
        ).input == live[frame as int],
        resolved(
            Some((recording_of(live, live.len()), ReplayState::Playing)),
            frame,
            later_live,
        ).force_pause == (frame == live.len() - 1),
{
    lemma_recording_takes_down(live, live.len());
    assert(live.take(live.len() as int) =~= live);
}

/// Past the end of the recording, playback falls back on the live input
/// and asks for no pause.
pub proof fn lemma_playback_exhausted(inputs: Seq<u32>, frame: nat, live: u32)
    requires
        frame >= inputs.len(),
    ensures
        resolved(Some((inputs, ReplayState::Playing)), frame, live) == (FrameInput {
            input: live,
            force_pause: false,
            warning: Some(ReplayWarning::PlaybackExhausted),
        }),
{
}

} // verus!
