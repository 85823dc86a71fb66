//! The audio stream: an endless sequence of samples, fed in bursts through
//! a shared queue and padded where the bursts fall short.

use crate::melon::nds::{AUDIO_CHANNELS, AUDIO_SAMPLE_RATE};
use std::sync::{Arc, Mutex, MutexGuard};
use vstd::prelude::*;

verus! {

/// The mutex of the standard library. Nothing is known here of what one holds.
#[verifier::external_type_specification]
#[verifier::external_body]
#[verifier::reject_recursive_types(T)]
pub struct ExMutex<T: ?Sized>(Mutex<T>);

/// The guard of a locked mutex of the standard library.
#[verifier::external_type_specification]
#[verifier::external_body]
#[verifier::reject_recursive_types(T)]
pub struct ExMutexGuard<'a, T: ?Sized + 'a>(MutexGuard<'a, T>);

/// Calls `Mutex::lock` on the queue and gives the guard, or `None` where
/// the mutex is poisoned. Nothing is claimed of the outcome.
#[verifier::external_body]
pub(crate) fn lock_queue<'a>(queue: &'a Arc<Mutex<Vec<i16>>>) -> (guard: Option<
    MutexGuard<'a, Vec<i16>>,
>) {
    match queue.lock() {
        Ok(guard) => Some(guard),
        Err(_) => None,
    }
}

/// The samples that the queue behind a guard holds, oldest first. While
/// the guard is held nobody else reaches the queue, so this is a matter
/// of the guard alone.
pub uninterp spec fn queued(guard: MutexGuard<Vec<i16>>) -> Seq<i16>;

/// Calls `std::mem::take` on the locked queue, which puts an empty vector
/// in the place of the queue's and gives out the one that was there.
#[verifier::external_body]
pub(crate) fn take_samples(guard: &mut MutexGuard<'_, Vec<i16>>) -> (samples: Vec<i16>)
    ensures
        samples@ == queued(*old(guard)),
        queued(*final(guard)) == Seq::<i16>::empty(),
{
    std::mem::take(&mut **guard)
}

/// Calls `Vec::extend` on the locked queue with `samples`, which puts
/// them behind what the queue holds, in their order.
#[verifier::external_body]
pub(crate) fn append_samples(guard: &mut MutexGuard<'_, Vec<i16>>, samples: Vec<i16>)
    ensures
        queued(*final(guard)) == queued(*old(guard)) + samples@,
{
    guard.extend(samples)
}

/// Hands `samples` to the queue, given what locking the queue gave:
/// behind a guard the samples join what the queue holds, in their order;
/// without one (`None`: the queue could not be locked) they are lost.
/// Says whether they were handed over.
pub fn deliver_samples(locked: &mut Option<MutexGuard<'_, Vec<i16>>>, samples: Vec<i16>) -> (delivered:
    bool)
    ensures
        delivered == (*old(locked) is Some),
        match (*old(locked), *final(locked)) {
            (Some(before), Some(after)) => queued(after) == queued(before) + samples@,
            (None, None) => true,
            _ => false,
        },
{
    match locked {
        Some(guard) => {
            append_samples(guard, samples);
            true
        },
        None => false,
    }
}

/// Samples of one stereo frame.
pub const CHANNELS: usize = 2;

/// Samples per second and channel.
pub const SAMPLE_RATE: usize = 32824;

/// How often the tail of the last burst is repeated.
pub const TAIL_REPEATS: usize = 10;

/// Samples played from the tail of the last burst: the tail, repeated.
pub const EXTRA_SAMPLES: usize = CHANNELS * TAIL_REPEATS;

/// Samples of silence played at a time: one video frame's worth, a
/// sixtieth of a second on every channel.
pub const SILENCE_SAMPLES: usize = CHANNELS * SAMPLE_RATE / 60;

/// What the stream is playing.
#[derive(Debug, PartialEq, Eq)]
pub enum PlaybackMode {
    /// The latest burst taken from the queue.
    Regular(Vec<i16>),
    /// The last stereo frame of the burst before, repeated.
    Extra([i16; CHANNELS]),
    /// Silence.
    Empty,
}

/// Mathematical value of a [`PlaybackMode`].
pub enum ModeView {
    Regular(Seq<i16>),
    Extra(Seq<i16>),
    Empty,
}

impl View for PlaybackMode {
    type V = ModeView;

    open spec fn view(&self) -> ModeView {
        match *self {
            PlaybackMode::Regular(block) => ModeView::Regular(block@),
            PlaybackMode::Extra(tail) => ModeView::Extra(tail@),
            PlaybackMode::Empty => ModeView::Empty,
        }
    }
}

/// Mathematical value of a [`Stream`]: what is played and how many samples
/// of it have been played.
pub struct StreamView {
    pub position: nat,
    pub mode: ModeView,
}

impl StreamView {
    /// The number of samples that the mode plays before the next mode is chosen.
    pub open spec fn budget(self) -> nat {
        match self.mode {
            ModeView::Regular(block) => block.len(),
            ModeView::Extra(_) => EXTRA_SAMPLES as nat,
            ModeView::Empty => SILENCE_SAMPLES as nat,
        }
    }

    /// Whether the value is one a stream can have: an `Extra` tail is one
    /// stereo frame, and the position lies within the budget.
    pub open spec fn wf(self) -> bool {
        &&& self.position < self.budget()
        &&& self.mode matches ModeView::Extra(tail) ==> tail.len() == CHANNELS
    }

    /// The sample that is played next.
    pub open spec fn sample(self) -> i16 {
        match self.mode {
            ModeView::Regular(block) => block[self.position as int],
            ModeView::Extra(tail) => tail[(self.position % CHANNELS as nat) as int],
            ModeView::Empty => 0,
        }
    }

    /// Whether the next sample uses the budget up.
    pub open spec fn exhausted(self) -> bool {
        self.position + 1 >= self.budget()
    }

    /// The stream after one sample that does not use the budget up.
    pub open spec fn advanced(self) -> StreamView {
        StreamView { position: self.position + 1, ..self }
    }

    /// The mode that follows when the queue has nothing to give: the tail
    /// of a burst that is at least one stereo frame long, silence otherwise.
    pub open spec fn fallback(self) -> ModeView {
        match self.mode {
            ModeView::Regular(block) => if block.len() >= CHANNELS {
                ModeView::Extra(block.subrange(block.len() - CHANNELS, block.len() as int))
            } else {
                ModeView::Empty
            },
            _ => ModeView::Empty,
        }
    }

    /// The stream after the budget is used up and the queue has given
    /// `taken` (`None`: the queue could not be locked).
    pub open spec fn switched(self, taken: Option<Seq<i16>>) -> StreamView {
        StreamView {
            position: 0,
            mode: match taken {
                Some(burst) => if burst.len() > 0 {
                    ModeView::Regular(burst)
                } else {
                    self.fallback()
                },
                None => ModeView::Empty,
            },
        }
    }

    /// The stream after one sample, where the queue gives `taken` if asked.
    pub open spec fn after_sample(self, taken: Option<Seq<i16>>) -> StreamView {
        if self.exhausted() {
            self.switched(taken)
        } else {
            self.advanced()
        }
    }
}

impl StreamView {
    /// The stream after `count` samples during which the queue has nothing
    /// to give.
    pub open spec fn starved(self, count: nat) -> StreamView
        decreases count,
    {
        if count == 0 {
            self
        } else {
            self.starved((count - 1) as nat).after_sample(Some(Seq::empty()))
        }
    }

    /// The last stereo frame of a burst.
    pub open spec fn tail_of(block: Seq<i16>) -> Seq<i16> {
        block.subrange(block.len() - CHANNELS, block.len() as int)
    }
}

/// While the queue has nothing to give, a stream that has played a burst
/// to its last sample goes on with the last stereo frame of that burst.
proof fn lemma_tail_phase(stream: StreamView, block: Seq<i16>, played: nat)
    requires
        stream.mode == ModeView::Regular(block),
        block.len() >= CHANNELS,
        stream.exhausted(),
        played < EXTRA_SAMPLES,
    ensures
        stream.starved(1 + played) == (StreamView {
            position: played,
            mode: ModeView::Extra(StreamView::tail_of(block)),
        }),
    decreases played,
{
    if played > 0 {
        lemma_tail_phase(stream, block, (played - 1) as nat);
    } else {
        assert(stream.starved(0) == stream);
    }
}

/// Once the tail has been repeated, the stream plays silence for as long
/// as the queue has nothing to give.
proof fn lemma_silence_phase(stream: StreamView, block: Seq<i16>, played: nat)
    requires
        stream.mode == ModeView::Regular(block),
        block.len() >= CHANNELS,
        stream.exhausted(),
    ensures
        stream.starved(1 + EXTRA_SAMPLES as nat + played).mode == ModeView::Empty,
        stream.starved(1 + EXTRA_SAMPLES as nat + played).position < SILENCE_SAMPLES,
    decreases played,
{
    if played > 0 {
        lemma_silence_phase(stream, block, (played - 1) as nat);
    } else {
        lemma_tail_phase(stream, block, (EXTRA_SAMPLES - 1) as nat);
    }
}

/// An underrun is padded without a gap. A stream that is at the last
/// sample of a burst of at least one stereo frame, and whose queue has
/// nothing to give from then on, plays that sample, then the last stereo
/// frame of the burst ten times over, and silence ever after.
pub proof fn lemma_underrun_is_padded(stream: StreamView, block: Seq<i16>, later: nat)
    requires
        stream.mode == ModeView::Regular(block),
        block.len() >= CHANNELS,
        stream.exhausted(),
    ensures
        later < EXTRA_SAMPLES ==> stream.starved(1 + later).sample() == block[block.len() - CHANNELS
            + later % CHANNELS as nat],
        later >= EXTRA_SAMPLES ==> stream.starved(1 + later).sample() == 0,
        stream.starved(1 + later).wf(),
{
    if later < EXTRA_SAMPLES {
        lemma_tail_phase(stream, block, later);
    } else {
        lemma_silence_phase(stream, block, (later - EXTRA_SAMPLES) as nat);
    }
}

/// A stream that plays silence goes on playing silence for as long as the
/// queue has nothing to give.
pub proof fn lemma_silence_lasts(stream: StreamView, later: nat)
    requires
        stream.mode == ModeView::Empty,
        stream.wf(),
    ensures
        stream.starved(later).mode == ModeView::Empty,
        stream.starved(later).wf(),
        stream.starved(later).sample() == 0,
    decreases later,
{
    if later > 0 {
        lemma_silence_lasts(stream, (later - 1) as nat);
    }
}

/// A continuously playing source of samples. It plays the bursts that
/// arrive through the queue; between bursts it repeats the last stereo
/// frame for a while, and after that it plays silence.
pub struct Stream {
    position: usize,
    playback_mode: PlaybackMode,
    queue: Arc<Mutex<Vec<i16>>>,
}

impl View for Stream {
    type V = StreamView;

    closed spec fn view(&self) -> StreamView {
        StreamView { position: self.position as nat, mode: self.playback_mode@ }
    }
}

/// The view of what the queue gave.
pub open spec fn taken_view(taken: Option<Vec<i16>>) -> Option<Seq<i16>> {
    match taken {
        Some(burst) => Some(burst@),
        None => None,
    }
}

impl Stream {
    #[verifier::type_invariant]
    spec fn inv(self) -> bool {
        self@.wf()
    }

    /// A stream on `queue` that starts with silence.
    pub fn new(queue: Arc<Mutex<Vec<i16>>>) -> (stream: Stream)
        ensures
            stream@ == (StreamView { position: 0, mode: ModeView::Empty }),
            stream@.wf(),
    {
        Stream { position: 0, playback_mode: PlaybackMode::Empty, queue }
    }

    /// Chooses the next mode from what the queue gave (`None`: the queue
    /// could not be locked) and starts it from its first sample.
    pub fn switch_mode(&mut self, taken: Option<Vec<i16>>)
        ensures
            final(self)@ == old(self)@.switched(taken_view(taken)),
            final(self)@.wf(),
    {
        proof {
            use_type_invariant(&*self);
        }
        let next: PlaybackMode = match taken {
            Some(burst) => {
                if burst.len() > 0 {
                    PlaybackMode::Regular(burst)
                } else {
                    self.tail_mode()
                }
            },
            None => PlaybackMode::Empty,
        };
        self.set(next);
    }

    /// The mode to fall back on.
    fn tail_mode(&self) -> (mode: PlaybackMode)
        ensures
            mode@ == self@.fallback(),
    {
        match &self.playback_mode {
            PlaybackMode::Regular(block) => {
                let len: usize = block.len();
                if len >= CHANNELS {
                    let tail: [i16; CHANNELS] = [block[len - 2], block[len - 1]];
                    assert(tail@ =~= block@.subrange(len - CHANNELS, len as int));
                    PlaybackMode::Extra(tail)
                } else {
                    PlaybackMode::Empty
                }
            },
            _ => PlaybackMode::Empty,
        }
    }

    /// Starts `mode` from its first sample.
    fn set(&mut self, mode: PlaybackMode)
        requires
            (StreamView { position: 0, mode: mode@ }).wf(),
        ensures
            final(self)@ == (StreamView { position: 0, mode: mode@ }),
    {
        proof {
            use_type_invariant(&*self);
        }
        self.position = 0;
        self.playback_mode = mode;
    }

    /// Asks the queue for a burst and chooses the next mode from the answer.
    fn change_mode(&mut self)
        ensures
            exists|taken: Option<Seq<i16>>| final(self)@ == #[trigger] old(self)@.switched(taken),
    {
        let taken: Option<Vec<i16>> = match lock_queue(&self.queue) {
            Some(mut guard) => Some(take_samples(&mut guard)),
            None => None,
        };
        self.switch_mode(taken);
        assert(self@ == old(self)@.switched(taken_view(taken)));
    }

    /// The next sample. There always is one.
    ///
    /// The sample is the one at the position in what is played. Where it is
    /// not the last of the mode's budget, the position moves on by one;
    /// where it is, the queue is asked for a burst and the next mode starts.
    pub fn next(&mut self) -> (sample: Option<i16>)
        ensures
            sample == Some(old(self)@.sample()),
            exists|taken: Option<Seq<i16>>|
                final(self)@ == #[trigger] old(self)@.after_sample(taken),
            !old(self)@.exhausted() ==> final(self)@ == old(self)@.advanced(),
            old(self)@.wf(),
            final(self)@.wf(),
    {
        proof {
            use_type_invariant(&*self);
        }
        let position: usize = self.position;
        let (sample, exhausted): (i16, bool) = match &self.playback_mode {
            PlaybackMode::Regular(block) => {
                let len: usize = block.len();
                (block[position], position + 1 >= len)
            },
            PlaybackMode::Extra(tail) => (tail[position % CHANNELS], position + 1 >= EXTRA_SAMPLES),
            PlaybackMode::Empty => (0, position + 1 >= SILENCE_SAMPLES),
        };
        if exhausted {
            self.change_mode();
        } else {
            self.position = position + 1;
            assert(self@ == old(self)@.after_sample(None));
        }
        Some(sample)
    }

    /// The number of interleaved channels.
    pub fn channels(&self) -> (count: u16)
        ensures
            count == CHANNELS,
    {
        AUDIO_CHANNELS
    }

    /// The number of samples per second and channel.
    pub fn sample_rate(&self) -> (rate: u32)
        ensures
            rate == SAMPLE_RATE,
    {
        AUDIO_SAMPLE_RATE
    }
}

} // verus!
