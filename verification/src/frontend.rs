//! The state that the scheduler and the user interface share, and the
//! changes that raw events of the interface make to that state.

use crate::audio::{deliver_samples, lock_queue};
use crate::melon::nds::input::{NdsInput, NdsInputState, NdsKey, NdsKeyMask, NdsKeyboardInput};
use crate::replay::{
    played, recorded, resolve_frame_input, resolved, session_view, FrameInput, Replay, ReplayView,
    ReplayWarning, SavestateContext,
};
use crate::savestate::{binding_of, context_of, restore, restored, verdict, SavestateError, Sidecar};
use crate::{EmuState, EmuStateChange, TickAction};
use std::collections::HashMap;
use std::sync::{Arc, Mutex};
use vstd::prelude::*;
use vstd::std_specs::convert::FromSpecImpl;

verus! {

broadcast use vstd::std_specs::hash::group_hash_axioms;

/// Whether a replay session takes live input down or plays recorded input back.
#[derive(Debug, PartialEq, Eq, Clone, Copy, Structural)]
pub enum ReplayState {
    Recording,
    Playing,
}

/// Something a key can do to the console itself.
#[derive(Debug, PartialEq, Eq, Clone, Copy, Structural)]
pub enum NdsAction {
    A,
    B,
    Select,
    Start,
    Right,
    Left,
    Up,
    Down,
    R,
    L,
    X,
    Y,
    OpenCloseLid,
}

/// Something a key can be bound to. The paths say where the file of a
/// file action lies.
#[derive(Debug, PartialEq, Eq)]
pub enum KeyPressAction {
    NdsAction(NdsAction),
    PlayPlause,
    Step,
    Save(String),
    ReadSavestate(String),
    WriteSavestate(String),
    ToggleReplayMode,
    SaveReplay,
    WriteMainRAM(String),
}

/// Mathematical value of a [`KeyPressAction`].
pub enum ActionView {
    NdsAction(NdsAction),
    PlayPlause,
    Step,
    Save(Seq<char>),
    ReadSavestate(Seq<char>),
    WriteSavestate(Seq<char>),
    ToggleReplayMode,
    SaveReplay,
    WriteMainRAM(Seq<char>),
}

impl View for KeyPressAction {
    type V = ActionView;

    open spec fn view(&self) -> ActionView {
        match *self {
            KeyPressAction::NdsAction(action) => ActionView::NdsAction(action),
            KeyPressAction::PlayPlause => ActionView::PlayPlause,
            KeyPressAction::Step => ActionView::Step,
            KeyPressAction::Save(path) => ActionView::Save(path@),
            KeyPressAction::ReadSavestate(path) => ActionView::ReadSavestate(path@),
            KeyPressAction::WriteSavestate(path) => ActionView::WriteSavestate(path@),
            KeyPressAction::ToggleReplayMode => ActionView::ToggleReplayMode,
            KeyPressAction::SaveReplay => ActionView::SaveReplay,
            KeyPressAction::WriteMainRAM(path) => ActionView::WriteMainRAM(path@),
        }
    }
}

impl Clone for KeyPressAction {
    fn clone(&self) -> (copy: KeyPressAction)
        ensures
            copy == *self,
    {
        match self {
            KeyPressAction::NdsAction(action) => KeyPressAction::NdsAction(*action),
            KeyPressAction::PlayPlause => KeyPressAction::PlayPlause,
            KeyPressAction::Step => KeyPressAction::Step,
            KeyPressAction::Save(path) => KeyPressAction::Save(path.clone()),
            KeyPressAction::ReadSavestate(path) => KeyPressAction::ReadSavestate(path.clone()),
            KeyPressAction::WriteSavestate(path) => KeyPressAction::WriteSavestate(path.clone()),
            KeyPressAction::ToggleReplayMode => KeyPressAction::ToggleReplayMode,
            KeyPressAction::SaveReplay => KeyPressAction::SaveReplay,
            KeyPressAction::WriteMainRAM(path) => KeyPressAction::WriteMainRAM(path.clone()),
        }
    }
}

impl From<NdsAction> for NdsKeyboardInput {
    fn from(value: NdsAction) -> (input: NdsKeyboardInput) {
        match value {
            NdsAction::A => NdsKeyboardInput::Key(NdsKey::A),
            NdsAction::B => NdsKeyboardInput::Key(NdsKey::B),
            NdsAction::Select => NdsKeyboardInput::Key(NdsKey::Select),
            NdsAction::Start => NdsKeyboardInput::Key(NdsKey::Start),
            NdsAction::Right => NdsKeyboardInput::Key(NdsKey::Right),
            NdsAction::Left => NdsKeyboardInput::Key(NdsKey::Left),
            NdsAction::Up => NdsKeyboardInput::Key(NdsKey::Up),
            NdsAction::Down => NdsKeyboardInput::Key(NdsKey::Down),
            NdsAction::R => NdsKeyboardInput::Key(NdsKey::R),
            NdsAction::L => NdsKeyboardInput::Key(NdsKey::L),
            NdsAction::X => NdsKeyboardInput::Key(NdsKey::X),
            NdsAction::Y => NdsKeyboardInput::Key(NdsKey::Y),
            NdsAction::OpenCloseLid => NdsKeyboardInput::OpenCloseLid,
        }
    }
}

/// What the console-facing action `action` stands for on the console.
pub open spec fn keyboard_input(action: NdsAction) -> NdsKeyboardInput {
    match action {
        NdsAction::A => NdsKeyboardInput::Key(NdsKey::A),
        NdsAction::B => NdsKeyboardInput::Key(NdsKey::B),
        NdsAction::Select => NdsKeyboardInput::Key(NdsKey::Select),
        NdsAction::Start => NdsKeyboardInput::Key(NdsKey::Start),
        NdsAction::Right => NdsKeyboardInput::Key(NdsKey::Right),
        NdsAction::Left => NdsKeyboardInput::Key(NdsKey::Left),
        NdsAction::Up => NdsKeyboardInput::Key(NdsKey::Up),
        NdsAction::Down => NdsKeyboardInput::Key(NdsKey::Down),
        NdsAction::R => NdsKeyboardInput::Key(NdsKey::R),
        NdsAction::L => NdsKeyboardInput::Key(NdsKey::L),
        NdsAction::X => NdsKeyboardInput::Key(NdsKey::X),
        NdsAction::Y => NdsKeyboardInput::Key(NdsKey::Y),
        NdsAction::OpenCloseLid => NdsKeyboardInput::OpenCloseLid,
    }
}

impl FromSpecImpl<NdsAction> for NdsKeyboardInput {
    open spec fn obeys_from_spec() -> bool {
        true
    }

    open spec fn from_spec(value: NdsAction) -> NdsKeyboardInput {
        keyboard_input(value)
    }
}

/// A key together with the modifiers that are held with it. `key_code` is
/// the window system's number of the key, `modifiers` its modifier bits.
#[derive(Debug, PartialEq, Eq, Hash, Clone, Copy, Structural)]
pub struct EmuInput {
    pub key_code: u32,
    pub modifiers: u32,
}

/// A raw event of the user interface.
#[derive(Debug, PartialEq, Eq, Clone, Copy)]
pub enum InputEvent {
    KeyDown(u32),
    KeyUp(u32),
    CursorMove(Option<(u8, u8)>),
    MouseDown,
    MouseUp,
    KeyModifierChange(u32),
}

/// A file operation for the scheduler to carry out.
#[derive(Debug, PartialEq, Eq)]
pub enum Request {
    WriteSavestate(String),
    ReadSavestate(String),
    WriteRam(String),
    WriteReplay,
    WriteSavedata(String),
}

impl Clone for Request {
    fn clone(&self) -> (copy: Request)
        ensures
            copy == *self,
    {
        match self {
            Request::WriteSavestate(path) => Request::WriteSavestate(path.clone()),
            Request::ReadSavestate(path) => Request::ReadSavestate(path.clone()),
            Request::WriteRam(path) => Request::WriteRam(path.clone()),
            Request::WriteReplay => Request::WriteReplay,
            Request::WriteSavedata(path) => Request::WriteSavedata(path.clone()),
        }
    }
}

/// The bindings of keys to actions: at most one action for each key with
/// its modifiers.
pub struct KeyMap {
    bindings: HashMap<u64, KeyPressAction>,
}

impl View for KeyMap {
    type V = Map<EmuInput, KeyPressAction>;

    closed spec fn view(&self) -> Map<EmuInput, KeyPressAction> {
        Map::new(
            |input: EmuInput| self.bindings@.contains_key(KeyMap::slot(input)),
            |input: EmuInput| self.bindings@[KeyMap::slot(input)],
        )
    }
}

impl KeyMap {
    /// The number under which the binding of `input` is kept: no two
    /// inputs share one.
    closed spec fn slot(input: EmuInput) -> u64 {
        (input.key_code as u64 * 0x1_0000_0000 + input.modifiers as u64) as u64
    }

    fn slot_of(input: EmuInput) -> (slot: u64)
        ensures
            slot == KeyMap::slot(input),
    {
        input.key_code as u64 * 0x1_0000_0000 + input.modifiers as u64
    }

    proof fn lemma_slot_injective(a: EmuInput, b: EmuInput)
        requires
            KeyMap::slot(a) == KeyMap::slot(b),
        ensures
            a == b,
    {
    }

    /// The bindings with each action taken by its value.
    pub open spec fn actions(&self) -> Map<EmuInput, ActionView> {
        self@.map_values(|action: KeyPressAction| action@)
    }

    /// A map without bindings.
    pub fn new() -> (map: KeyMap)
        ensures
            map@ == Map::<EmuInput, KeyPressAction>::empty(),
    {
        let map = KeyMap { bindings: HashMap::new() };
        assert(map@ =~= Map::<EmuInput, KeyPressAction>::empty());
        map
    }

    /// Binds `input` to `action`, in place of what it was bound to.
    pub fn insert(&mut self, input: EmuInput, action: KeyPressAction)
        ensures
            final(self)@ == old(self)@.insert(input, action),
    {
        let slot = KeyMap::slot_of(input);
        self.bindings.insert(slot, action);
        assert forall|other: EmuInput| KeyMap::slot(other) == slot implies other == input by {
            KeyMap::lemma_slot_injective(other, input);
        }
        assert(self@ =~= old(self)@.insert(input, action));
    }

    /// The action that `input` is bound to, if it is bound.
    pub fn get(&self, input: EmuInput) -> (action: Option<&KeyPressAction>)
        ensures
            match action {
                Some(found) => self@.contains_key(input) && *found == self@[input],
                None => !self@.contains_key(input),
            },
    {
        let slot = KeyMap::slot_of(input);
        self.bindings.get(&slot)
    }

    /// The bindings, each once, in no particular order.
    pub fn entries(&self) -> (entries: Vec<(EmuInput, KeyPressAction)>)
        ensures
            self@.dom().finite(),
            entries@.len() == self@.dom().len(),
            forall|i: int|
                0 <= i < entries@.len() ==> self@.contains_key(#[trigger] entries@[i].0)
                    && self@[entries@[i].0] == entries@[i].1,
            forall|i: int, j: int| 0 <= i < j < entries@.len() ==> entries@[i].0 != entries@[j].0,
    {
        proof {
            self.lemma_same_size();
        }
        let mut entries: Vec<(EmuInput, KeyPressAction)> = Vec::new();
        for pair in it: self.bindings.iter()
            invariant
                entries@.len() == it.index(),
                it.seq().len() == self.bindings@.dom().len(),
                it.seq().no_duplicates(),
                forall|i: int|
                    0 <= i < it.seq().len() ==> self.bindings@.contains_key(
                        *(#[trigger] it.seq()[i]).0,
                    ) && self.bindings@[*it.seq()[i].0] == *it.seq()[i].1,
                forall|i: int|
                    0 <= i < entries@.len() ==> KeyMap::slot(#[trigger] entries@[i].0)
                        == *it.seq()[i].0 && entries@[i].1 == *it.seq()[i].1,
        {
            let slot: u64 = *pair.0;
            let input = EmuInput {
                key_code: (slot / 0x1_0000_0000) as u32,
                modifiers: (slot % 0x1_0000_0000) as u32,
            };
            entries.push((input, pair.1.clone()));
        }
        entries
    }

    /// The number of bindings.
    pub fn len(&self) -> (count: usize)
        ensures
            self@.dom().finite(),
            count == self@.dom().len(),
    {
        proof {
            self.lemma_same_size();
        }
        self.bindings.len()
    }

    proof fn lemma_same_size(&self)
        ensures
            self@.dom().finite(),
            self@.dom().len() == self.bindings@.dom().len(),
    {
        let slots = self.bindings@.dom();
        let inputs = self@.dom();
        let back = |slot: u64|
            EmuInput {
                key_code: (slot / 0x1_0000_0000) as u32,
                modifiers: (slot % 0x1_0000_0000) as u32,
            };
        assert forall|slot: u64| KeyMap::slot(#[trigger] back(slot)) == slot by {}
        assert(slots.map(back) =~= inputs) by {
            assert forall|input: EmuInput| inputs.contains(input) implies slots.map(back).contains(
                input,
            ) by {
                let slot = KeyMap::slot(input);
                assert(slots.contains(slot));
                assert(back(slot) == input);
            }
            assert forall|input: EmuInput| slots.map(back).contains(input) implies inputs.contains(
                input,
            ) by {
                let slot = choose|slot: u64| slots.contains(slot) && back(slot) == input;
                assert(KeyMap::slot(back(slot)) == slot);
            }
        }
        vstd::set_lib::lemma_map_size_bound(slots, inputs, back);
        slots.lemma_map_finite(back);
        // and the other way round
        let forth = |input: EmuInput| KeyMap::slot(input);
        assert(inputs.map(forth) =~= slots) by {
            assert forall|slot: u64| slots.contains(slot) implies inputs.map(forth).contains(
                slot,
            ) by {
                assert(KeyMap::slot(back(slot)) == slot);
                assert(inputs.contains(back(slot)));
                assert(forth(back(slot)) == slot);
            }
        }
        vstd::set_lib::lemma_map_size_bound(inputs, slots, forth);
    }
}

/// Bytes of one display surface: 256 by 192 pixels of four bytes.
pub const FRAME_BYTES: usize = 196608;

/// The number of file requests that can wait for the scheduler; one that
/// arrives while as many are waiting is dropped.
pub const REQUEST_CAPACITY: usize = 16;

/// The state that the scheduler and the user interface share.
pub struct Frontend {
    pub top_frame: [u8; FRAME_BYTES],
    pub bottom_frame: [u8; FRAME_BYTES],
    /// The queue through which audio samples reach the output stream.
    pub audio: Arc<Mutex<Vec<i16>>>,
    pub key_map: KeyMap,
    pub key_modifiers: u32,
    /// The action that each key fired when it went down, until it comes up.
    pub held_actions: HashMap<u32, KeyPressAction>,
    pub nds_input: NdsInputState,
    pub cursor: Option<(u8, u8)>,
    pub replay: Option<(Replay, ReplayState)>,
    pub state: EmuState,
    /// The latest state-change command that the scheduler has not yet seen.
    pub state_change: Option<EmuStateChange>,
    /// The file requests that wait for the scheduler, oldest first.
    pub requests: Vec<Request>,
}

/// Mathematical value of a [`Frontend`]. The audio queue is shared with
/// the output stream and is no part of it.
#[verifier::ext_equal]
pub struct FrontendView {
    pub top_frame: Seq<u8>,
    pub bottom_frame: Seq<u8>,
    pub key_map: Map<EmuInput, KeyPressAction>,
    pub key_modifiers: u32,
    pub held_actions: Map<u32, KeyPressAction>,
    pub nds_input: NdsInputState,
    pub cursor: Option<(u8, u8)>,
    pub replay: Option<(ReplayView, ReplayState)>,
    pub state: EmuState,
    pub state_change: Option<EmuStateChange>,
    pub requests: Seq<Request>,
}

impl View for Frontend {
    type V = FrontendView;

    open spec fn view(&self) -> FrontendView {
        FrontendView {
            top_frame: self.top_frame@,
            bottom_frame: self.bottom_frame@,
            key_map: self.key_map@,
            key_modifiers: self.key_modifiers,
            held_actions: self.held_actions@,
            nds_input: self.nds_input,
            cursor: self.cursor,
            replay: session_view(self.replay),
            state: self.state,
            state_change: self.state_change,
            requests: self.requests@,
        }
    }
}

/// What the scheduler does in one tick, as far as the shared state decides it.
#[derive(Debug, PartialEq, Eq)]
pub struct TickPlan {
    /// The file requests to carry out, oldest first.
    pub requests: Vec<Request>,
    /// What to do with the engine after that.
    pub action: TickAction,
}

/// What is applied to the engine for one frame.
#[derive(Debug, PartialEq, Eq, Clone, Copy)]
pub struct FrameInputs {
    /// The buttons that are held during the frame.
    pub keys: NdsKeyMask,
    /// Where the touch screen is touched, if it is.
    pub touch: Option<(u8, u8)>,
    /// Whether the lid is to be opened or closed.
    pub lid_changed: bool,
    /// Whether the scheduler must pause once the frame has run.
    pub force_pause: bool,
    /// A condition to report, if any.
    pub warning: Option<ReplayWarning>,
}

/// The other mode of a replay session.
pub open spec fn toggled(mode: ReplayState) -> ReplayState {
    match mode {
        ReplayState::Playing => ReplayState::Recording,
        ReplayState::Recording => ReplayState::Playing,
    }
}

impl FrontendView {
    /// The state once `request` has been handed to the scheduler: it joins
    /// the waiting requests, or is dropped where no more can wait.
    pub open spec fn enqueue(self, request: Request) -> FrontendView {
        if self.requests.len() < REQUEST_CAPACITY {
            FrontendView { requests: self.requests.push(request), ..self }
        } else {
            self
        }
    }

    /// The state once `action` has fired on a key going down.
    pub open spec fn fire(self, action: KeyPressAction) -> FrontendView {
        match action {
            KeyPressAction::NdsAction(button) => match keyboard_input(button) {
                NdsKeyboardInput::Key(key) => FrontendView {
                    nds_input: self.nds_input.after(NdsInput::KeyPress(key)),
                    ..self
                },
                NdsKeyboardInput::OpenCloseLid => FrontendView {
                    nds_input: self.nds_input.after(NdsInput::OpenCloseLid),
                    ..self
                },
            },
            KeyPressAction::PlayPlause => FrontendView {
                state_change: Some(EmuStateChange::PlayPause),
                ..self
            },
            KeyPressAction::Step => FrontendView {
                state_change: Some(EmuStateChange::Step),
                ..self
            },
            KeyPressAction::Save(path) => self.enqueue(Request::WriteSavedata(path)),
            KeyPressAction::ReadSavestate(path) => self.enqueue(Request::ReadSavestate(path)),
            KeyPressAction::WriteSavestate(path) => self.enqueue(Request::WriteSavestate(path)),
            KeyPressAction::ToggleReplayMode => FrontendView {
                replay: match self.replay {
                    Some((replay, mode)) => Some((replay, toggled(mode))),
                    None => None,
                },
                ..self
            },
            KeyPressAction::SaveReplay => self.enqueue(Request::WriteReplay),
            KeyPressAction::WriteMainRAM(path) => self.enqueue(Request::WriteRam(path)),
        }
    }

    /// The state once the key `key_code` has gone down: what it is bound
    /// to under the held modifiers is remembered as held and fires; an
    /// unbound key changes nothing.
    pub open spec fn key_down(self, key_code: u32) -> FrontendView {
        let input = EmuInput { key_code, modifiers: self.key_modifiers };
        if self.key_map.contains_key(input) {
            let action = self.key_map[input];
            FrontendView { held_actions: self.held_actions.insert(key_code, action), ..self }.fire(
                action,
            )
        } else {
            self
        }
    }

    /// The state once the key `key_code` has come up: the action it fired
    /// is no longer held, and a button of the console is released. The
    /// other actions do not react to a key coming up.
    pub open spec fn key_up(self, key_code: u32) -> FrontendView {
        if self.held_actions.contains_key(key_code) {
            let released = FrontendView {
                held_actions: self.held_actions.remove(key_code),
                ..self
            };
            match self.held_actions[key_code] {
                KeyPressAction::NdsAction(button) => match keyboard_input(button) {
                    NdsKeyboardInput::Key(key) => FrontendView {
                        nds_input: self.nds_input.after(NdsInput::KeyRelease(key)),
                        ..released
                    },
                    NdsKeyboardInput::OpenCloseLid => released,
                },
                _ => released,
            }
        } else {
            self
        }
    }

    /// The state once the events of `events` have been handled in order.
    pub open spec fn after_events(self, events: Seq<InputEvent>) -> FrontendView
        decreases events.len(),
    {
        if events.len() == 0 {
            self
        } else {
            self.after_events(events.drop_last()).after_event(events.last())
        }
    }

    /// The state once the scheduler has seen the waiting state-change
    /// command: the command has taken effect and no command waits.
    pub open spec fn observed(self) -> FrontendView {
        FrontendView {
            state: match self.state_change {
                Some(change) => self.state.after(change),
                None => self.state,
            },
            state_change: None,
            ..self
        }
    }

    /// The state in which a tick arrives at its file requests: the waiting
    /// command has been seen and the events of the tick have been handled.
    pub open spec fn drained(self, events: Seq<InputEvent>) -> FrontendView {
        self.observed().after_events(events)
    }

    /// The log and mode of the replay session.
    pub open spec fn log(self) -> Option<(Seq<u32>, ReplayState)> {
        match self.replay {
            Some((replay, mode)) => Some((replay.inputs, mode)),
            None => None,
        }
    }

    /// What is applied to the engine for frame `frame`: the key mask that
    /// the replay engine chooses, with the live touch screen and lid.
    pub open spec fn frame_inputs(self, frame: nat) -> FrameInputs {
        let chosen = resolved(self.log(), frame, self.nds_input.keys.bits);
        FrameInputs {
            keys: NdsKeyMask { bits: chosen.input },
            touch: self.nds_input.touch,
            lid_changed: self.nds_input.lid_changed,
            force_pause: chosen.force_pause,
            warning: chosen.warning,
        }
    }

    /// The state once the input of frame `frame` has been chosen: a
    /// recording session has recorded the live key mask at that frame.
    pub open spec fn frame_started(self, frame: nat) -> FrontendView {
        FrontendView {
            replay: match self.replay {
                Some((replay, ReplayState::Recording)) => Some(
                    (
                        ReplayView {
                            inputs: recorded(replay.inputs, frame, self.nds_input.keys.bits),
                            ..replay
                        },
                        ReplayState::Recording,
                    ),
                ),
                other => other,
            },
            ..self
        }
    }

    /// The state once a frame has been simulated: the lid request has been
    /// served, and the run state has moved on.
    pub open spec fn frame_finished(self, force_pause: bool) -> FrontendView {
        FrontendView {
            nds_input: NdsInputState { lid_changed: false, ..self.nds_input },
            state: self.state.after_frame(force_pause),
            ..self
        }
    }

    /// The state once `event` has been handled.
    pub open spec fn after_event(self, event: InputEvent) -> FrontendView {
        match event {
            InputEvent::KeyDown(key_code) => self.key_down(key_code),
            InputEvent::KeyUp(key_code) => self.key_up(key_code),
            InputEvent::CursorMove(at) => FrontendView { cursor: at, ..self },
            InputEvent::MouseDown => FrontendView {
                nds_input: NdsInputState { touch: self.cursor, ..self.nds_input },
                ..self
            },
            InputEvent::MouseUp => FrontendView {
                nds_input: NdsInputState { touch: None, ..self.nds_input },
                ..self
            },
            InputEvent::KeyModifierChange(modifiers) => FrontendView {
                key_modifiers: modifiers,
                ..self
            },
        }
    }
}

impl Frontend {
    /// The shared state at the start of a session: paused, nothing held,
    /// nothing waiting, both display surfaces black.
    pub fn new(
        audio: Arc<Mutex<Vec<i16>>>,
        key_map: KeyMap,
        replay: Option<(Replay, ReplayState)>,
    ) -> (frontend: Frontend)
        ensures
            frontend@ == (FrontendView {
                top_frame: Seq::new(FRAME_BYTES as nat, |i: int| 0u8),
                bottom_frame: Seq::new(FRAME_BYTES as nat, |i: int| 0u8),
                key_map: key_map@,
                key_modifiers: 0,
                held_actions: Map::empty(),
                nds_input: NdsInputState {
                    keys: NdsKeyMask { bits: 0 },
                    touch: None,
                    lid_changed: false,
                },
                cursor: None,
                replay: session_view(replay),
                state: EmuState::Paused,
                state_change: None,
                requests: Seq::empty(),
            }),
            frontend.audio == audio,
            frontend.replay == replay,
    {
        let frontend = Frontend {
            top_frame: [0u8; FRAME_BYTES],
            bottom_frame: [0u8; FRAME_BYTES],
            audio,
            key_map,
            key_modifiers: 0,
            held_actions: HashMap::new(),
            nds_input: NdsInputState::new(),
            cursor: None,
            replay,
            state: EmuState::Paused,
            state_change: None,
            requests: Vec::new(),
        };
        assert(frontend@.top_frame =~= Seq::new(FRAME_BYTES as nat, |i: int| 0u8));
        assert(frontend@.bottom_frame =~= Seq::new(FRAME_BYTES as nat, |i: int| 0u8));
        frontend
    }

    /// Leaves a state-change command for the scheduler. A command that the
    /// scheduler has not yet seen is overwritten: the latest one wins.
    pub fn send_state_change(&mut self, change: EmuStateChange)
        ensures
            final(self)@ == (FrontendView { state_change: Some(change), ..old(self)@ }),
            final(self).audio == old(self).audio,
    {
        self.state_change = Some(change);
    }

    /// Opens a tick of the scheduler. The waiting state-change command
    /// takes effect, the events are handled in order, and the waiting file
    /// requests are handed out. The action says whether the engine is to
    /// advance by a frame, to be left alone, or the loop is over.
    pub fn begin_tick(&mut self, events: Vec<InputEvent>) -> (plan: TickPlan)
        ensures
            plan.requests@ == old(self)@.drained(events@).requests,
            plan.action == old(self)@.drained(events@).state.action(),
            final(self)@ == (FrontendView {
                requests: Seq::empty(),
                ..old(self)@.drained(events@)
            }),
            final(self).audio == old(self).audio,
    {
        match self.state_change {
            Some(change) => {
                self.state = self.state.apply(change);
                self.state_change = None;
            },
            None => {},
        }
        let mut handled: usize = 0;
        while handled < events.len()
            invariant
                handled <= events.len(),
                self@ == old(self)@.observed().after_events(events@.take(handled as int)),
                self.audio == old(self).audio,
            decreases events.len() - handled,
        {
            self.handle_input_event(events[handled]);
            handled += 1;
            assert(events@.take(handled as int).drop_last() =~= events@.take(handled - 1));
        }
        assert(events@.take(handled as int) =~= events@);
        let mut requests: Vec<Request> = Vec::new();
        std::mem::swap(&mut requests, &mut self.requests);
        TickPlan { requests, action: self.state.tick_action() }
    }

    /// The input to apply to the engine for frame `current_frame` as far as
    /// playback decides it: the recorded key mask while a playing session
    /// has one for the frame, the live one otherwise; touch screen and lid
    /// always live.
    pub fn get_nds_inputs(&self, current_frame: u32) -> (inputs: NdsInputState)
        ensures
            inputs == (NdsInputState {
                keys: NdsKeyMask {
                    bits: match self@.log() {
                        Some((log, ReplayState::Playing)) => played(
                            log,
                            current_frame as nat,
                            self.nds_input.keys.bits,
                        ),
                        _ => self.nds_input.keys.bits,
                    },
                },
                ..self.nds_input
            }),
    {
        let live = self.nds_input;
        match &self.replay {
            Some((replay, ReplayState::Playing)) => match replay.recorded_at(
                current_frame as usize,
            ) {
                Some(bits) => NdsInputState {
                    keys: NdsKeyMask::from_bits_retain(bits),
                    touch: live.touch,
                    lid_changed: live.lid_changed,
                },
                None => live,
            },
            _ => live,
        }
    }

    /// Lets a recording session record the live key mask at frame
    /// `current_frame`, in place of what it had from that frame on. Returns
    /// `false` where a recording session could not record because the frame
    /// lies beyond the first unrecorded one.
    pub fn record_replay_nds_input(&mut self, current_frame: u32) -> (done: bool)
        ensures
            final(self)@ == old(self)@.frame_started(current_frame as nat),
            final(self).audio == old(self).audio,
            done == !(old(self)@.log() matches Some((log, ReplayState::Recording))
                && current_frame > log.len()),
    {
        let live: u32 = self.nds_input.keys.bits();
        match &mut self.replay {
            Some((replay, ReplayState::Recording)) => replay.record(current_frame as usize, live),
            _ => true,
        }
    }

    /// Opens frame `current_frame`: chooses the input to apply to the
    /// engine and, in a recording session, records it.
    pub fn run_frame(&mut self, current_frame: u32) -> (inputs: FrameInputs)
        ensures
            inputs == old(self)@.frame_inputs(current_frame as nat),
            final(self)@ == old(self)@.frame_started(current_frame as nat),
            final(self).audio == old(self).audio,
    {
        let live = self.nds_input;
        let chosen: FrameInput = resolve_frame_input(
            current_frame,
            live.keys.bits(),
            &mut self.replay,
        );
        FrameInputs {
            keys: NdsKeyMask::from_bits_retain(chosen.input),
            touch: live.touch,
            lid_changed: live.lid_changed,
            force_pause: chosen.force_pause,
            warning: chosen.warning,
        }
    }

    /// Closes a frame that the engine has simulated: the lid request is
    /// served, a single step is over, and a forced pause pauses a run.
    pub fn finish_frame(&mut self, force_pause: bool)
        ensures
            final(self)@ == old(self)@.frame_finished(force_pause),
            final(self).audio == old(self).audio,
    {
        self.nds_input.lid_changed = false;
        self.state = self.state.finish_frame(force_pause);
    }

    /// Hands the samples of a frame to the audio stream: locks the queue and
    /// lets [`deliver_samples`] do the rest, which says what becomes of the
    /// samples for either outcome of the lock. Returns `false` where the
    /// queue could not be locked; the samples are then lost.
    pub fn update_audio(&mut self, samples: Vec<i16>) -> (delivered: bool)
        ensures
            final(self)@ == old(self)@,
            final(self).audio == old(self).audio,
    {
        let mut locked = lock_queue(&self.audio);
        deliver_samples(&mut locked, samples)
    }

    /// Takes over the pixels of both display surfaces.
    pub fn update_framebuffers(&mut self, top: &[u8; FRAME_BYTES], bottom: &[u8; FRAME_BYTES])
        ensures
            final(self)@ == (FrontendView {
                top_frame: top@,
                bottom_frame: bottom@,
                ..old(self)@
            }),
            final(self).audio == old(self).audio,
    {
        self.top_frame = *top;
        self.bottom_frame = *bottom;
    }

    /// Decides whether the savestate with the given sidecar may be applied
    /// and, where it may, puts the input log of the sidecar in place. The
    /// engine's state may be swapped exactly where this returns `Ok`.
    pub fn read_savestate(&mut self, sidecar: Sidecar) -> (outcome: Result<(), SavestateError>)
        ensures
            outcome == verdict(old(self)@.replay, sidecar@),
            final(self)@ == (FrontendView {
                replay: restored(old(self)@.replay, sidecar@),
                ..old(self)@
            }),
            outcome is Err ==> final(self)@ == old(self)@,
            final(self).audio == old(self).audio,
    {
        restore(&mut self.replay, sidecar)
    }

    /// The context to keep beside a savestate that is written now.
    pub fn write_savestate(&self) -> (context: SavestateContext)
        ensures
            context@ == binding_of(self@.replay),
    {
        context_of(&self.replay)
    }

    /// Hands `request` to the scheduler, unless no more requests can wait.
    fn enqueue(&mut self, request: Request)
        ensures
            final(self)@ == old(self)@.enqueue(request),
            final(self).audio == old(self).audio,
    {
        if self.requests.len() < REQUEST_CAPACITY {
            self.requests.push(request);
        }
    }

    /// Lets `action` fire on a key going down.
    fn fire(&mut self, action: KeyPressAction)
        ensures
            final(self)@ == old(self)@.fire(action),
            final(self).audio == old(self).audio,
    {
        match action {
            KeyPressAction::NdsAction(button) => {
                match NdsKeyboardInput::from(button).press() {
                    Some(input) => self.nds_input.register_input(input),
                    None => {},
                }
            },
            KeyPressAction::PlayPlause => {
                self.state_change = Some(EmuStateChange::PlayPause);
            },
            KeyPressAction::Step => {
                self.state_change = Some(EmuStateChange::Step);
            },
            KeyPressAction::Save(path) => self.enqueue(Request::WriteSavedata(path)),
            KeyPressAction::ReadSavestate(path) => self.enqueue(Request::ReadSavestate(path)),
            KeyPressAction::WriteSavestate(path) => self.enqueue(Request::WriteSavestate(path)),
            KeyPressAction::ToggleReplayMode => {
                match &mut self.replay {
                    Some((_, mode)) => {
                        *mode = match *mode {
                            ReplayState::Playing => ReplayState::Recording,
                            ReplayState::Recording => ReplayState::Playing,
                        };
                    },
                    None => {},
                }
            },
            KeyPressAction::SaveReplay => self.enqueue(Request::WriteReplay),
            KeyPressAction::WriteMainRAM(path) => self.enqueue(Request::WriteRam(path)),
        }
    }

    /// Handles one raw event of the user interface.
    ///
    /// A key going down fires the action it is bound to under the held
    /// modifiers; an unbound key is ignored. A key coming up releases the
    /// console button it pressed. Cursor, mouse and modifier events update
    /// the cursor, the touch screen and the held modifiers.
    pub fn handle_input_event(&mut self, event: InputEvent)
        ensures
            final(self)@ == old(self)@.after_event(event),
            final(self).audio == old(self).audio,
    {
        match event {
            InputEvent::KeyDown(key_code) => {
                let input = EmuInput { key_code, modifiers: self.key_modifiers };
                let action = match self.key_map.get(input) {
                    Some(action) => action.clone(),
                    None => {
                        return ;
                    },
                };
                self.held_actions.insert(key_code, action.clone());
                self.fire(action);
            },
            InputEvent::KeyUp(key_code) => {
                let action = match self.held_actions.remove(&key_code) {
                    Some(action) => action,
                    None => {
                        return ;
                    },
                };
                match action {
                    KeyPressAction::NdsAction(button) => {
                        match NdsKeyboardInput::from(button).release() {
                            Some(input) => self.nds_input.register_input(input),
                            None => {},
                        }
                    },
                    _ => {},
                }
            },
            InputEvent::CursorMove(at) => self.cursor = at,
            InputEvent::MouseDown => self.nds_input.touch = self.cursor,
            InputEvent::MouseUp => self.nds_input.touch = None,
            InputEvent::KeyModifierChange(modifiers) => self.key_modifiers = modifiers,
        }
    }
}

/// A key that is bound to stepping steps a paused emulator by exactly one
/// frame: the tick in which the key goes down runs no frame, the tick
/// after it runs one, and the tick after that finds the emulator paused
/// again and runs none.
pub proof fn lemma_step_key_steps_once(
    before: FrontendView,
    key_code: u32,
    frame: nat,
    force_pause: bool,
)
    requires
        before.state == EmuState::Paused,
        before.state_change is None,
        before.key_map.contains_key(EmuInput { key_code, modifiers: before.key_modifiers }),
        before.key_map[EmuInput { key_code, modifiers: before.key_modifiers }]
            == KeyPressAction::Step,
    ensures
        ({
            let pressed = before.drained(seq![InputEvent::KeyDown(key_code)]);
            let stepping = pressed.drained(Seq::empty());
            let stepped = stepping.frame_started(frame).frame_finished(force_pause).drained(
                Seq::empty(),
            );
            &&& pressed.state.action() == TickAction::Idle
            &&& stepping.state.action() == TickAction::RunFrame
            &&& stepped.state == EmuState::Paused
            &&& stepped.state.action() == TickAction::Idle
        }),
{
    let events = seq![InputEvent::KeyDown(key_code)];
    assert(events.drop_last() =~= Seq::<InputEvent>::empty());
    assert(before.observed().after_events(events) == before.observed().after_events(
        events.drop_last(),
    ).after_event(events.last()));
    assert(before.observed().after_events(Seq::<InputEvent>::empty()) == before.observed());
}

/// Toggling the mode of a replay session leaves its input log untouched.
pub proof fn lemma_toggle_keeps_log(before: FrontendView)
    ensures
        before.fire(KeyPressAction::ToggleReplayMode).log() == match before.log() {
            Some((log, mode)) => Some((log, toggled(mode))),
            None => None,
        },
        toggled(toggled(ReplayState::Playing)) == ReplayState::Playing,
        toggled(toggled(ReplayState::Recording)) == ReplayState::Recording,
{
}

/// A replay session lasts: no event, no tick, no frame and no savestate
/// ends a session that is there or starts one where there is none. An
/// event changes of a session at most its mode, and a frame changes
/// nothing of a playing session.
pub proof fn lemma_session_lasts(
    before: FrontendView,
    event: InputEvent,
    frame: nat,
    force_pause: bool,
    sidecar: crate::savestate::SidecarView,
)
    ensures
        match (before.replay, before.after_event(event).replay) {
            (Some((was, _)), Some((is, _))) => is == was,
            (None, None) => true,
            _ => false,
        },
        before.observed().replay == before.replay,
        before.frame_started(frame).replay is Some <==> before.replay is Some,
        before.frame_finished(force_pause).replay == before.replay,
        restored(before.replay, sidecar) is Some <==> before.replay is Some,
        before.replay matches Some((_, ReplayState::Playing)) ==> before.frame_started(
            frame,
        ).replay == before.replay,
{
}

} // verus!
