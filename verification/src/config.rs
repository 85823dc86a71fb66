//! The configuration: default paths, the clock to start from and the key
//! bindings; and what a start of the program makes of it and the command line.

use crate::args::{Args, Commands};
use crate::frontend::{ActionView, EmuInput, KeyMap, KeyPressAction, NdsAction};
use crate::keys::{
    KEY_A, KEY_COMMA, KEY_D, KEY_I, KEY_J, KEY_K, KEY_L, KEY_P, KEY_PERIOD, KEY_Q, KEY_S,
    KEY_SLASH, KEY_SPACE, KEY_W, KEY_X, MOD_CTRL, MOD_NONE,
};
use crate::replay::{
    session_view, Replay, ReplaySource, ReplaySourceView, ReplayState, ReplayView, Timestamp,
};
use vstd::prelude::*;
use vstd::std_specs::convert::FromSpecImpl;
use vstd::string::StringExecFns;

verus! {

/// What `chrono::DateTime::parse_from_str` makes of `text` under `format`:
/// the seconds since the Unix epoch and the nanoseconds into the second of
/// the instant it reads, `None` where it reads none.
pub uninterp spec fn parsed_datetime(text: Seq<char>, format: Seq<char>) -> Option<(i64, u32)>;

/// Calls `chrono::DateTime::parse_from_str` and hands the instant out as
/// plain numbers, taken from the result by `timestamp` and
/// `timestamp_subsec_nanos`. The result depends on the two strings alone.
#[verifier::external_body]
fn parse_datetime(text: &str, format: &str) -> (instant: Option<(i64, u32)>)
    ensures
        instant == parsed_datetime(text@, format@),
{
    match chrono::DateTime::parse_from_str(text, format) {
        Ok(parsed) => Some((parsed.timestamp(), parsed.timestamp_subsec_nanos())),
        Err(_) => None,
    }
}

/// Calls `chrono::Utc::now` and hands the instant out as plain numbers.
/// It is the reading of a clock: nothing is claimed of it.
#[verifier::external_body]
fn current_time() -> (now: Timestamp) {
    let now = chrono::Utc::now();
    Timestamp { secs: now.timestamp(), nanos: now.timestamp_subsec_nanos() }
}

/// The format in which the command line gives a time.
pub open spec fn datetime_format() -> Seq<char> {
    "%Y-%m-%dT%H:%M:%S%.f%z"@
}

/// The instant that `text` names on the command line, if it names one.
pub open spec fn named_instant(text: Seq<char>) -> Option<Timestamp> {
    match parsed_datetime(text, datetime_format()) {
        Some((secs, nanos)) => Some(Timestamp { secs, nanos }),
        None => None,
    }
}

/// Reads a time as the command line gives it.
pub fn parse_timestamp(text: &str) -> (instant: Option<Timestamp>)
    ensures
        instant == named_instant(text@),
{
    match parse_datetime(text, "%Y-%m-%dT%H:%M:%S%.f%z") {
        Some((secs, nanos)) => Some(Timestamp { secs, nanos }),
        None => None,
    }
}

/// The settings that outlive a session.
pub struct Config {
    pub default_game_path: Option<String>,
    pub default_save_path: Option<String>,
    pub timestamp: Option<Timestamp>,
    pub key_map: KeyMap,
}

/// What a session starts with.
#[derive(Debug, PartialEq, Eq)]
pub struct StartParams {
    pub replay: Option<(Replay, ReplayState)>,
    pub game_name: String,
    pub save_name: Option<String>,
    pub start_time: Timestamp,
}

/// Mathematical value of a [`StartParams`].
pub struct StartParamsView {
    pub replay: Option<(ReplayView, ReplayState)>,
    pub game_name: Seq<char>,
    pub save_name: Option<Seq<char>>,
    pub start_time: Timestamp,
}

impl View for StartParams {
    type V = StartParamsView;

    open spec fn view(&self) -> StartParamsView {
        StartParamsView {
            replay: session_view(self.replay),
            game_name: self.game_name@,
            save_name: text(self.save_name),
            start_time: self.start_time,
        }
    }
}

/// Why a session cannot start.
#[derive(Debug, PartialEq, Eq, Clone, Copy, Structural)]
pub enum StartError {
    /// Neither the command line nor the configuration names a game.
    NoGame,
    /// A replay is to be played and none was loaded.
    NoReplay,
    /// The time given on the command line cannot be read.
    BadTimestamp,
}

/// The characters of an optional string.
pub open spec fn text(string: Option<String>) -> Option<Seq<char>> {
    match string {
        Some(s) => Some(s@),
        None => None,
    }
}

/// The first of two optional values that is there.
pub open spec fn or<T>(first: Option<T>, second: Option<T>) -> Option<T> {
    if first is Some {
        first
    } else {
        second
    }
}

impl Config {
    /// Why a session cannot start from these settings, this command line
    /// and this loaded replay; `None` where it can.
    pub open spec fn start_error(&self, args: Args, loaded: Option<Replay>) -> Option<StartError> {
        if args.game is None && self.default_game_path is None {
            Some(StartError::NoGame)
        } else {
            match args.command {
                Commands::Play(_) => None,
                Commands::Replay(_) => if loaded is None {
                    Some(StartError::NoReplay)
                } else {
                    None
                },
                Commands::Record(record) => match record.timestamp {
                    Some(given) => if named_instant(given@) is None {
                        Some(StartError::BadTimestamp)
                    } else {
                        None
                    },
                    None => None,
                },
            }
        }
    }

    /// What a session starts with, given these settings, the command line,
    /// the replay that was loaded for a `replay` command and the current time.
    ///
    /// The game is the one of the command line, else the default one.
    /// Playing loads the save file of the command line, else the default
    /// one, unless it is told to load none, and starts the clock at the
    /// configured time, else now. A replay, played or recorded, decides
    /// both: its save file is loaded and the clock starts at its time. A
    /// new recording is empty, and its time is the one of the command
    /// line, else now.
    pub open spec fn start_params(
        &self,
        args: Args,
        loaded: Option<Replay>,
        now: Timestamp,
    ) -> StartParamsView {
        let game_name = or(text(args.game), text(self.default_game_path)).unwrap();
        match args.command {
            Commands::Play(play) => StartParamsView {
                replay: None,
                game_name,
                save_name: if play.no_save {
                    None
                } else {
                    or(text(play.save), text(self.default_save_path))
                },
                start_time: or(self.timestamp, Some(now)).unwrap(),
            },
            Commands::Replay(_) => {
                let replay = loaded.unwrap()@;
                StartParamsView {
                    replay: Some((replay, ReplayState::Playing)),
                    game_name,
                    save_name: replay.source.path,
                    start_time: replay.source.timestamp,
                }
            },
            Commands::Record(record) => {
                let start_time = match record.timestamp {
                    Some(given) => named_instant(given@).unwrap(),
                    None => now,
                };
                StartParamsView {
                    replay: Some(
                        (
                            ReplayView {
                                name: record.name@,
                                author: match record.author {
                                    Some(author) => author@,
                                    None => Seq::empty(),
                                },
                                source: ReplaySourceView {
                                    path: text(record.save),
                                    timestamp: start_time,
                                },
                                inputs: Seq::empty(),
                            },
                            ReplayState::Recording,
                        ),
                    ),
                    game_name,
                    save_name: text(record.save),
                    start_time,
                }
            },
        }
    }

    /// What a session starts with at the time `now`; see [`Config::start_params`].
    /// A session that cannot start is left out: see [`Config::start_error`]
    /// and [`Config::try_get_start_params`].
    pub fn get_start_params(&self, args: Args, loaded: Option<Replay>, now: Timestamp) -> (params:
        StartParams)
        requires
            self.start_error(args, loaded) is None,
        ensures
            params@ == self.start_params(args, loaded, now),
    {
        let game_name: String = match args.game {
            Some(game) => game,
            None => match &self.default_game_path {
                Some(game) => game.clone(),
                None => vstd::pervasive::unreached(),
            },
        };
        match args.command {
            Commands::Play(play) => {
                let save_name: Option<String> = if play.no_save {
                    None
                } else {
                    match play.save {
                        Some(save) => Some(save),
                        None => match &self.default_save_path {
                            Some(save) => Some(save.clone()),
                            None => None,
                        },
                    }
                };
                let start_time: Timestamp = match self.timestamp {
                    Some(configured) => configured,
                    None => now,
                };
                StartParams { replay: None, game_name, save_name, start_time }
            },
            Commands::Replay(_) => {
                let replay: Replay = loaded.unwrap();
                let (save_name, start_time): (Option<String>, Timestamp) = match &replay.source {
                    ReplaySource::SaveFile { path, timestamp } => (
                        match path {
                            Some(save) => Some(save.clone()),
                            None => None,
                        },
                        *timestamp,
                    ),
                };
                StartParams {
                    replay: Some((replay, ReplayState::Playing)),
                    game_name,
                    save_name,
                    start_time,
                }
            },
            Commands::Record(record) => {
                let start_time: Timestamp = match &record.timestamp {
                    Some(given) => parse_timestamp(given.as_str()).unwrap(),
                    None => now,
                };
                let save_name: Option<String> = match &record.save {
                    Some(save) => Some(save.clone()),
                    None => None,
                };
                let author: String = match record.author {
                    Some(author) => author,
                    None => String::new(),
                };
                let replay = Replay {
                    name: record.name,
                    author,
                    source: ReplaySource::SaveFile { path: record.save, timestamp: start_time },
                    inputs: Vec::new(),
                };
                StartParams {
                    replay: Some((replay, ReplayState::Recording)),
                    game_name,
                    save_name,
                    start_time,
                }
            },
        }
    }

    /// What a session starts with at the current time, or why it cannot
    /// start. The time is read from the system clock, so the parameters
    /// are those of [`Config::start_params`] at some instant.
    pub fn try_get_start_params(&self, args: Args, loaded: Option<Replay>) -> (outcome: Result<
        StartParams,
        StartError,
    >)
        ensures
            match outcome {
                Ok(params) => self.start_error(args, loaded) is None && exists|now: Timestamp|
                    params@ == #[trigger] self.start_params(args, loaded, now),
                Err(error) => self.start_error(args, loaded) == Some(error),
            },
    {
        if args.game.is_none() && self.default_game_path.is_none() {
            return Err(StartError::NoGame);
        }
        match &args.command {
            Commands::Play(_) => {},
            Commands::Replay(_) => {
                if loaded.is_none() {
                    return Err(StartError::NoReplay);
                }
            },
            Commands::Record(record) => match &record.timestamp {
                Some(given) => {
                    if parse_timestamp(given.as_str()).is_none() {
                        return Err(StartError::BadTimestamp);
                    }
                },
                None => {},
            },
        }
        let now: Timestamp = current_time();
        let ghost before = (args, loaded);
        let params = self.get_start_params(args, loaded, now);
        assert(params@ == self.start_params(before.0, before.1, now));
        Ok(params)
    }
}

/// The input that stands for `key_code` with no modifier held.
pub open spec fn plain(key_code: u32) -> EmuInput {
    EmuInput { key_code, modifiers: MOD_NONE }
}

/// The bindings of a configuration that was not told otherwise.
///
/// The directions lie on W, A, S and D, the face buttons on I, J, K and L,
/// the shoulder buttons on Q and P, Start on the space bar; X and the
/// slash open and close the lid; the comma plays and pauses, the period
/// steps by a frame, and S with the control key writes the save data to
/// `save.bin`. Select is not bound.
pub open spec fn default_bindings() -> Map<EmuInput, ActionView> {
    Map::<EmuInput, ActionView>::empty().insert(
        plain(KEY_W),
        ActionView::NdsAction(NdsAction::Up),
    ).insert(plain(KEY_A), ActionView::NdsAction(NdsAction::Left)).insert(
        plain(KEY_S),
        ActionView::NdsAction(NdsAction::Down),
    ).insert(plain(KEY_D), ActionView::NdsAction(NdsAction::Right)).insert(
        plain(KEY_I),
        ActionView::NdsAction(NdsAction::X),
    ).insert(plain(KEY_J), ActionView::NdsAction(NdsAction::Y)).insert(
        plain(KEY_K),
        ActionView::NdsAction(NdsAction::B),
    ).insert(plain(KEY_L), ActionView::NdsAction(NdsAction::A)).insert(
        plain(KEY_Q),
        ActionView::NdsAction(NdsAction::L),
    ).insert(plain(KEY_P), ActionView::NdsAction(NdsAction::R)).insert(
        plain(KEY_SPACE),
        ActionView::NdsAction(NdsAction::Start),
    ).insert(plain(KEY_X), ActionView::NdsAction(NdsAction::OpenCloseLid)).insert(
        plain(KEY_SLASH),
        ActionView::NdsAction(NdsAction::OpenCloseLid),
    ).insert(plain(KEY_COMMA), ActionView::PlayPlause).insert(
        plain(KEY_PERIOD),
        ActionView::Step,
    ).insert(EmuInput { key_code: KEY_S, modifiers: MOD_CTRL }, ActionView::Save("save.bin"@))
}

impl Default for Config {
    /// No default paths, no configured time, and the default bindings.
    fn default() -> (config: Config)
        ensures
            config.default_game_path is None,
            config.default_save_path is None,
            config.timestamp is None,
            config.key_map.actions() == default_bindings(),
    {
        let mut key_map = KeyMap::new();
        key_map.insert(
            EmuInput { key_code: KEY_W, modifiers: MOD_NONE },
            KeyPressAction::NdsAction(NdsAction::Up),
        );
        key_map.insert(
            EmuInput { key_code: KEY_A, modifiers: MOD_NONE },
            KeyPressAction::NdsAction(NdsAction::Left),
        );
        key_map.insert(
            EmuInput { key_code: KEY_S, modifiers: MOD_NONE },
            KeyPressAction::NdsAction(NdsAction::Down),
        );
        key_map.insert(
            EmuInput { key_code: KEY_D, modifiers: MOD_NONE },
            KeyPressAction::NdsAction(NdsAction::Right),
        );
        key_map.insert(
            EmuInput { key_code: KEY_I, modifiers: MOD_NONE },
            KeyPressAction::NdsAction(NdsAction::X),
        );
        key_map.insert(
            EmuInput { key_code: KEY_J, modifiers: MOD_NONE },
            KeyPressAction::NdsAction(NdsAction::Y),
        );
        key_map.insert(
            EmuInput { key_code: KEY_K, modifiers: MOD_NONE },
            KeyPressAction::NdsAction(NdsAction::B),
        );
        key_map.insert(
            EmuInput { key_code: KEY_L, modifiers: MOD_NONE },
            KeyPressAction::NdsAction(NdsAction::A),
        );
        key_map.insert(
            EmuInput { key_code: KEY_Q, modifiers: MOD_NONE },
            KeyPressAction::NdsAction(NdsAction::L),
        );
        key_map.insert(
            EmuInput { key_code: KEY_P, modifiers: MOD_NONE },
            KeyPressAction::NdsAction(NdsAction::R),
        );
        key_map.insert(
            EmuInput { key_code: KEY_SPACE, modifiers: MOD_NONE },
            KeyPressAction::NdsAction(NdsAction::Start),
        );
        key_map.insert(
            EmuInput { key_code: KEY_X, modifiers: MOD_NONE },
            KeyPressAction::NdsAction(NdsAction::OpenCloseLid),
        );
        key_map.insert(
            EmuInput { key_code: KEY_SLASH, modifiers: MOD_NONE },
            KeyPressAction::NdsAction(NdsAction::OpenCloseLid),
        );
        key_map.insert(
            EmuInput { key_code: KEY_COMMA, modifiers: MOD_NONE },
            KeyPressAction::PlayPlause,
        );
        key_map.insert(
            EmuInput { key_code: KEY_PERIOD, modifiers: MOD_NONE },
            KeyPressAction::Step,
        );
        key_map.insert(
            EmuInput { key_code: KEY_S, modifiers: MOD_CTRL },
            KeyPressAction::Save(String::from_str("save.bin")),
        );
        assert(key_map.actions() =~= default_bindings());
        Config { default_game_path: None, default_save_path: None, timestamp: None, key_map }
    }
}

/// A key with its modifiers as a configuration file gives it: the
/// modifiers may be left out where none is held.
#[derive(Debug, PartialEq, Eq, Clone, Copy)]
pub struct EmuInputEntry {
    pub key_code: u32,
    pub modifiers: Option<u32>,
}

/// One binding of a configuration file.
#[derive(Debug, PartialEq, Eq)]
pub struct ConfigKeyMapEntry {
    pub input: EmuInputEntry,
    pub action: KeyPressAction,
}

/// The settings as a configuration file holds them. The bindings are a
/// list; of two bindings of one input the later one counts.
#[derive(Debug, PartialEq, Eq)]
pub struct ConfigFile {
    pub default_game_path: Option<String>,
    pub default_save_path: Option<String>,
    pub timestamp: Option<Timestamp>,
    pub key_map: Vec<ConfigKeyMapEntry>,
}

/// The input that an entry of a configuration file stands for.
pub open spec fn input_of(entry: EmuInputEntry) -> EmuInput {
    EmuInput {
        key_code: entry.key_code,
        modifiers: match entry.modifiers {
            Some(modifiers) => modifiers,
            None => MOD_NONE,
        },
    }
}

/// The entry by which a configuration file gives an input.
pub open spec fn entry_of(input: EmuInput) -> EmuInputEntry {
    EmuInputEntry {
        key_code: input.key_code,
        modifiers: if input.modifiers == MOD_NONE {
            None
        } else {
            Some(input.modifiers)
        },
    }
}

/// The bindings that a list of entries stands for.
pub open spec fn bindings_of(entries: Seq<ConfigKeyMapEntry>) -> Map<EmuInput, KeyPressAction>
    decreases entries.len(),
{
    if entries.len() == 0 {
        Map::empty()
    } else {
        bindings_of(entries.drop_last()).insert(
            input_of(entries.last().input),
            entries.last().action,
        )
    }
}

impl From<EmuInputEntry> for EmuInput {
    fn from(value: EmuInputEntry) -> (input: EmuInput) {
        EmuInput {
            key_code: value.key_code,
            modifiers: match value.modifiers {
                Some(modifiers) => modifiers,
                None => MOD_NONE,
            },
        }
    }
}

impl FromSpecImpl<EmuInputEntry> for EmuInput {
    open spec fn obeys_from_spec() -> bool {
        true
    }

    open spec fn from_spec(value: EmuInputEntry) -> EmuInput {
        input_of(value)
    }
}

impl From<EmuInput> for EmuInputEntry {
    fn from(value: EmuInput) -> (entry: EmuInputEntry) {
        EmuInputEntry {
            key_code: value.key_code,
            modifiers: if value.modifiers == MOD_NONE {
                None
            } else {
                Some(value.modifiers)
            },
        }
    }
}

impl FromSpecImpl<EmuInput> for EmuInputEntry {
    open spec fn obeys_from_spec() -> bool {
        true
    }

    open spec fn from_spec(value: EmuInput) -> EmuInputEntry {
        entry_of(value)
    }
}

/// An input comes back from its entry as it was.
pub proof fn lemma_entry_keeps_input(input: EmuInput)
    ensures
        input_of(entry_of(input)) == input,
{
}

impl Config {
    /// The settings that a configuration file holds.
    pub fn from_file(value: ConfigFile) -> (config: Config)
        ensures
            config.default_game_path == value.default_game_path,
            config.default_save_path == value.default_save_path,
            config.timestamp == value.timestamp,
            config.key_map@ == bindings_of(value.key_map@),
    {
        let mut key_map = KeyMap::new();
        let entries = value.key_map;
        let ghost all = entries@;
        assert(all.take(0) =~= Seq::<ConfigKeyMapEntry>::empty());
        for entry in it: entries
            invariant
                it.seq() == all,
                key_map@ == bindings_of(all.take(it.index() as int)),
        {
            assert(all.take(it.index() + 1).drop_last() =~= all.take(it.index() as int));
            key_map.insert(EmuInput::from(entry.input), entry.action);
        }
        assert(all.take(all.len() as int) =~= all);
        Config {
            default_game_path: value.default_game_path,
            default_save_path: value.default_save_path,
            timestamp: value.timestamp,
            key_map,
        }
    }

    /// The settings as a configuration file holds them: every binding once,
    /// so that reading the file gives the same bindings again.
    pub fn into_file(self) -> (file: ConfigFile)
        ensures
            file.default_game_path == self.default_game_path,
            file.default_save_path == self.default_save_path,
            file.timestamp == self.timestamp,
            bindings_of(file.key_map@) == self.key_map@,
            self.key_map@.dom().finite(),
            file.key_map@.len() == self.key_map@.dom().len(),
    {
        let bindings = self.key_map.entries();
        let ghost all = bindings@;
        let mut key_map: Vec<ConfigKeyMapEntry> = Vec::new();
        for binding in it: bindings
            invariant
                it.seq() == all,
                key_map@.len() == it.index(),
                forall|i: int|
                    0 <= i < key_map@.len() ==> input_of((#[trigger] key_map@[i]).input) == all[i].0
                        && key_map@[i].action == all[i].1,
        {
            key_map.push(
                ConfigKeyMapEntry { input: EmuInputEntry::from(binding.0), action: binding.1 },
            );
        }
        proof {
            lemma_distinct_entries(key_map@, key_map@.len());
            assert(bindings_of(key_map@.take(key_map@.len() as int)) =~= self.key_map@) by {
                assert forall|input: EmuInput| self.key_map@.contains_key(input) implies bindings_of(
                    key_map@.take(key_map@.len() as int),
                ).contains_key(input) by {
                    lemma_covers(self.key_map@, all, input);
                    let i = choose|i: int| 0 <= i < all.len() && #[trigger] all[i].0 == input;
                    assert(input_of(key_map@[i].input) == input);
                }
            }
            assert(key_map@.take(key_map@.len() as int) =~= key_map@);
        }
        ConfigFile {
            default_game_path: self.default_game_path,
            default_save_path: self.default_save_path,
            timestamp: self.timestamp,
            key_map,
        }
    }
}

/// A list that names as many distinct keys of a finite map as the map has
/// names every key of it.
proof fn lemma_covers(
    map: Map<EmuInput, KeyPressAction>,
    entries: Seq<(EmuInput, KeyPressAction)>,
    input: EmuInput,
)
    requires
        map.dom().finite(),
        entries.len() == map.dom().len(),
        forall|i: int| 0 <= i < entries.len() ==> map.contains_key(#[trigger] entries[i].0),
        forall|i: int, j: int| 0 <= i < j < entries.len() ==> entries[i].0 != entries[j].0,
        map.contains_key(input),
    ensures
        exists|i: int| 0 <= i < entries.len() && #[trigger] entries[i].0 == input,
{
    let keys = entries.map_values(|entry: (EmuInput, KeyPressAction)| entry.0);
    assert(keys.no_duplicates());
    keys.unique_seq_to_set();
    assert(keys.to_set().subset_of(map.dom())) by {
        assert forall|key: EmuInput| keys.to_set().contains(key) implies map.dom().contains(
            key,
        ) by {
            let i = choose|i: int| 0 <= i < keys.len() && keys[i] == key;
            assert(keys[i] == entries[i].0);
        }
    }
    vstd::set_lib::lemma_subset_equality(keys.to_set(), map.dom());
    assert(keys.to_set().contains(input));
    let i = choose|i: int| 0 <= i < keys.len() && keys[i] == input;
    assert(entries[i].0 == input);
}

/// Entries with distinct inputs stand for exactly the bindings they list.
proof fn lemma_distinct_entries(entries: Seq<ConfigKeyMapEntry>, count: nat)
    requires
        count <= entries.len(),
        forall|i: int, j: int|
            0 <= i < j < entries.len() ==> input_of(entries[i].input) != input_of(entries[j].input),
    ensures
        forall|input: EmuInput|
            bindings_of(entries.take(count as int)).contains_key(input) <==> exists|i: int|
                0 <= i < count && input_of(#[trigger] entries[i].input) == input,
        forall|i: int|
            0 <= i < count ==> bindings_of(entries.take(count as int))[input_of(
                #[trigger] entries[i].input,
            )] == entries[i].action,
    decreases count,
{
    if count > 0 {
        lemma_distinct_entries(entries, (count - 1) as nat);
        assert(entries.take(count as int).drop_last() =~= entries.take(count - 1));
        assert(entries.take(count as int).last() == entries[count - 1]);
    }
}

impl FromSpecImpl<ConfigFile> for Config {
    /// The conversion is stated by the contract of `from`, over the value
    /// of the bindings: no settings can be written down here.
    open spec fn obeys_from_spec() -> bool {
        false
    }

    open spec fn from_spec(value: ConfigFile) -> Config {
        arbitrary()
    }
}

impl FromSpecImpl<Config> for ConfigFile {
    /// The conversion is stated by the contract of `from`: the order of
    /// the entries is left open.
    open spec fn obeys_from_spec() -> bool {
        false
    }

    open spec fn from_spec(value: Config) -> ConfigFile {
        arbitrary()
    }
}

impl From<ConfigFile> for Config {
    fn from(value: ConfigFile) -> (config: Config)
        ensures
            config.default_game_path == value.default_game_path,
            config.default_save_path == value.default_save_path,
            config.timestamp == value.timestamp,
            config.key_map@ == bindings_of(value.key_map@),
    {
        Config::from_file(value)
    }
}

impl From<Config> for ConfigFile {
    fn from(value: Config) -> (file: ConfigFile)
        ensures
            file.default_game_path == value.default_game_path,
            file.default_save_path == value.default_save_path,
            file.timestamp == value.timestamp,
            bindings_of(file.key_map@) == value.key_map@,
    {
        value.into_file()
    }
}

} // verus!
