//! Building an audio tool: every descriptor is checked, then loaded one after
//! the other, and the tool exists only once all of them are loaded.

use crate::audio_tool::OxAgAudioTool;
use crate::error::OxAgAudioToolError;
use crate::event::{Event, TileType, WeatherType};
use crate::model::ToolModel;
use crate::sound_config::{ConfigIssue, OxAgSoundConfig};
use crate::sounds::{SoundKey, Sounds, SoundsModel};
use vstd::prelude::*;

verus! {

/// A registry under construction: what is loaded so far, the key whose
/// descriptor the backend is loading, and the entries that follow.
pub struct LoadingModel<A> {
    pub sounds: SoundsModel<A>,
    pub current: SoundKey,
    pub rest: Seq<(SoundKey, OxAgSoundConfig)>,
}

/// The next thing to do in a build, as a model: load a descriptor, or stop
/// with a tool or an error.
pub enum BuildModel<A, H, E> {
    Load(OxAgSoundConfig, LoadingModel<A>),
    Done(Result<ToolModel<A, H>, OxAgAudioToolError<E>>),
}

/// The registry entry that an entry of the event mapping stands for: the
/// sound counts for the kind of the event.
pub open spec fn event_entry(entry: (Event, OxAgSoundConfig)) -> (SoundKey, OxAgSoundConfig) {
    (SoundKey::Event(entry.0.spec_kind()), entry.1)
}

/// The registry entry that an entry of the tile mapping stands for.
pub open spec fn tile_entry(entry: (TileType, OxAgSoundConfig)) -> (SoundKey, OxAgSoundConfig) {
    (SoundKey::Tile(entry.0), entry.1)
}

/// The registry entry that an entry of the weather mapping stands for.
pub open spec fn weather_entry(entry: (WeatherType, OxAgSoundConfig)) -> (
    SoundKey,
    OxAgSoundConfig,
) {
    (SoundKey::Weather(entry.0), entry.1)
}

/// The entries of the three mappings as one queue: the event sounds, then
/// the tile sounds, then the weather sounds.
pub open spec fn sound_queue(
    events: Seq<(Event, OxAgSoundConfig)>,
    tiles: Seq<(TileType, OxAgSoundConfig)>,
    weathers: Seq<(WeatherType, OxAgSoundConfig)>,
) -> Seq<(SoundKey, OxAgSoundConfig)> {
    Seq::new(events.len(), |i: int| event_entry(events[i])) + Seq::new(
        tiles.len(),
        |i: int| tile_entry(tiles[i]),
    ) + Seq::new(weathers.len(), |i: int| weather_entry(weathers[i]))
}

/// The first entry of a queue whose descriptor cannot be loaded, with the
/// reason.
pub open spec fn first_issue(queue: Seq<(SoundKey, OxAgSoundConfig)>) -> Option<
    (SoundKey, ConfigIssue),
>
    decreases queue.len(),
{
    if queue.len() == 0 {
        None
    } else {
        match queue[0].1@.issue() {
            Some(issue) => Some((queue[0].0, issue)),
            None => first_issue(queue.skip(1)),
        }
    }
}

/// Goes on to the next entry: its descriptor is to be loaded, or, where none
/// is left, the tool is done, with nothing playing.
pub open spec fn load_next<A, H, E>(
    sounds: SoundsModel<A>,
    rest: Seq<(SoundKey, OxAgSoundConfig)>,
) -> BuildModel<A, H, E> {
    if rest.len() == 0 {
        BuildModel::Done(Ok(ToolModel::silent(sounds)))
    } else {
        BuildModel::Load(
            rest[0].1,
            LoadingModel { sounds, current: rest[0].0, rest: rest.skip(1) },
        )
    }
}

/// The first step of a build. One descriptor that cannot be loaded fails the
/// build before anything is loaded.
pub open spec fn begin_build<A, H, E>(queue: Seq<(SoundKey, OxAgSoundConfig)>) -> BuildModel<
    A,
    H,
    E,
> {
    match first_issue(queue) {
        Some((key, issue)) => BuildModel::Done(Err(OxAgAudioToolError::ConfigError(Some(key), issue))),
        None => load_next(SoundsModel::empty(), queue),
    }
}

/// A build carried out against a scripted backend: the descriptors whose
/// load was asked for, in order, and the result. The result is absent where
/// the script ended before the build did.
pub struct BuildRun<A, H, E> {
    pub loads: Seq<OxAgSoundConfig>,
    pub result: Option<Result<ToolModel<A, H>, OxAgAudioToolError<E>>>,
}

impl<A, H, E> BuildModel<A, H, E> {
    /// How many loads can at most follow, this step's own included.
    pub open spec fn pending(self) -> nat {
        match self {
            BuildModel::Load(_, loading) => loading.rest.len() + 1,
            BuildModel::Done(_) => 0,
        }
    }

    /// Carries a build on from this step against a backend that answers the
    /// load requests with `answers`, in order.
    pub open spec fn run(self, answers: Seq<Result<A, E>>) -> BuildRun<A, H, E>
        decreases self.pending(),
    {
        match self {
            BuildModel::Done(result) => BuildRun { loads: Seq::empty(), result: Some(result) },
            BuildModel::Load(config, loading) => {
                if answers.len() == 0 {
                    BuildRun { loads: seq![config], result: None }
                } else {
                    let rest = loading.after_load::<H, E>(answers[0]).run(answers.skip(1));
                    BuildRun { loads: seq![config] + rest.loads, result: rest.result }
                }
            },
        }
    }
}

/// A whole build from a queue of entries against a scripted backend.
pub open spec fn build<A, H, E>(
    queue: Seq<(SoundKey, OxAgSoundConfig)>,
    answers: Seq<Result<A, E>>,
) -> BuildRun<A, H, E> {
    begin_build::<A, H, E>(queue).run(answers)
}

/// The registry once every entry of the queue is loaded: each asset, in the
/// order of the answers, is put under the key of its entry.
pub open spec fn filled<A, E>(
    sounds: SoundsModel<A>,
    queue: Seq<(SoundKey, OxAgSoundConfig)>,
    answers: Seq<Result<A, E>>,
) -> SoundsModel<A>
    decreases queue.len(),
{
    if queue.len() == 0 || answers.len() == 0 {
        sounds
    } else {
        match answers[0] {
            Ok(asset) => filled(sounds.insert(queue[0].0, asset), queue.skip(1), answers.skip(1)),
            Err(_) => sounds,
        }
    }
}

impl<A> LoadingModel<A> {
    /// The step after a load. The asset goes under the current key, in place
    /// of an earlier one; a failure ends the build, and what was loaded
    /// before is given up.
    pub open spec fn after_load<H, E>(self, outcome: Result<A, E>) -> BuildModel<A, H, E> {
        match outcome {
            Ok(asset) => load_next(self.sounds.insert(self.current, asset), self.rest),
            Err(error) => BuildModel::Done(
                Err(OxAgAudioToolError::FileError(Some(self.current), error)),
            ),
        }
    }
}

/// A registry under construction. It is meant to be resumed with the answer
/// to the load request it came with.
pub struct Loading<A> {
    sounds: Sounds<A>,
    current: SoundKey,
    queue: Vec<(SoundKey, OxAgSoundConfig)>,
    next: usize,
}

/// The next thing for the caller of a build to do.
///
/// - `Load`: load the sound of the descriptor, then call `after_load` on what
///   comes with it, with the asset or the backend's error.
/// - `Done`: the build is over, with the tool or the reason it failed.
pub enum BuildStep<A, H, E> {
    Load(OxAgSoundConfig, Loading<A>),
    Done(Result<OxAgAudioTool<A, H>, OxAgAudioToolError<E>>),
}

impl<A: Copy> View for Loading<A> {
    type V = LoadingModel<A>;

    closed spec fn view(&self) -> LoadingModel<A> {
        LoadingModel {
            sounds: self.sounds@,
            current: self.current,
            rest: if self.next <= self.queue@.len() {
                self.queue@.skip(self.next as int)
            } else {
                Seq::empty()
            },
        }
    }
}

impl<A: Copy, H, E> View for BuildStep<A, H, E> {
    type V = BuildModel<A, H, E>;

    open spec fn view(&self) -> BuildModel<A, H, E> {
        match *self {
            BuildStep::Load(config, loading) => BuildModel::Load(config, loading@),
            BuildStep::Done(Ok(tool)) => BuildModel::Done(Ok(tool@)),
            BuildStep::Done(Err(error)) => BuildModel::Done(Err(error)),
        }
    }
}

fn next_step<A: Copy, H, E>(
    sounds: Sounds<A>,
    queue: Vec<(SoundKey, OxAgSoundConfig)>,
    next: usize,
) -> (step: BuildStep<A, H, E>)
    requires
        next <= queue@.len(),
    ensures
        step@ == load_next::<A, H, E>(sounds@, queue@.skip(next as int)),
{
    if next < queue.len() {
        let key = queue[next].0;
        let config = queue[next].1.clone();
        proof {
            assert(queue@.skip(next as int).skip(1) =~= queue@.skip(next + 1));
        }
        BuildStep::Load(config, Loading { sounds, current: key, queue, next: next + 1 })
    } else {
        BuildStep::Done(Ok(OxAgAudioTool::with_sounds(sounds)))
    }
}

fn find_issue(queue: &Vec<(SoundKey, OxAgSoundConfig)>) -> (found: Option<(SoundKey, ConfigIssue)>)
    ensures
        found == first_issue(queue@),
{
    let mut i: usize = 0;
    assert(queue@.skip(0) =~= queue@);
    while i < queue.len()
        invariant
            i <= queue@.len(),
            first_issue(queue@) == first_issue(queue@.skip(i as int)),
        decreases queue@.len() - i,
    {
        proof {
            assert(queue@.skip(i as int).skip(1) =~= queue@.skip(i + 1));
        }
        match queue[i].1.check() {
            Err(issue) => {
                return Some((queue[i].0, issue));
            },
            Ok(()) => {},
        }
        i = i + 1;
    }
    None
}

impl<A: Copy> Loading<A> {
    /// Goes on after a load request, with the asset or the backend's error.
    pub fn after_load<H, E>(self, outcome: Result<A, E>) -> (step: BuildStep<A, H, E>)
        ensures
            step@ == self@.after_load::<H, E>(outcome),
    {
        match outcome {
            Ok(asset) => {
                let mut sounds = self.sounds;
                sounds.insert(self.current, asset);
                if self.next <= self.queue.len() {
                    next_step(sounds, self.queue, self.next)
                } else {
                    BuildStep::Done(Ok(OxAgAudioTool::with_sounds(sounds)))
                }
            },
            Err(error) => BuildStep::Done(
                Err(OxAgAudioToolError::FileError(Some(self.current), error)),
            ),
        }
    }

    /// The key whose descriptor is being loaded.
    pub fn current(&self) -> (key: SoundKey)
        ensures
            key == self@.current,
    {
        self.current
    }
}

impl<A: Copy, H> OxAgAudioTool<A, H> {
    /// Begins to build a tool from three mappings of descriptors: the sounds
    /// of events, which count for the kind of the event, of tile types and of
    /// weather types. A later entry for a key takes the place of an earlier
    /// one.
    ///
    /// All descriptors are checked first. Then they are loaded in the order
    /// given, events first, and the first load that fails ends the build.
    pub fn new<E>(
        events: Vec<(Event, OxAgSoundConfig)>,
        tiles: Vec<(TileType, OxAgSoundConfig)>,
        weathers: Vec<(WeatherType, OxAgSoundConfig)>,
    ) -> (step: BuildStep<A, H, E>)
        ensures
            step@ == begin_build::<A, H, E>(sound_queue(events@, tiles@, weathers@)),
    {
        let queue = gather(&events, &tiles, &weathers);
        match find_issue(&queue) {
            Some((key, issue)) => BuildStep::Done(
                Err(OxAgAudioToolError::ConfigError(Some(key), issue)),
            ),
            None => {
                proof {
                    assert(queue@.skip(0) =~= queue@);
                }
                next_step(Sounds::new(), queue, 0)
            },
        }
    }
}

fn gather(
    events: &Vec<(Event, OxAgSoundConfig)>,
    tiles: &Vec<(TileType, OxAgSoundConfig)>,
    weathers: &Vec<(WeatherType, OxAgSoundConfig)>,
) -> (queue: Vec<(SoundKey, OxAgSoundConfig)>)
    ensures
        queue@ == sound_queue(events@, tiles@, weathers@),
{
    let mut queue: Vec<(SoundKey, OxAgSoundConfig)> = Vec::new();
    let mut i: usize = 0;
    while i < events.len()
        invariant
            i <= events@.len(),
            queue@.len() == i,
            forall|n: int| 0 <= n < i ==> queue@[n] == event_entry(#[trigger] events@[n]),
        decreases events@.len() - i,
    {
        queue.push((SoundKey::Event(events[i].0.kind()), events[i].1.clone()));
        i = i + 1;
    }
    let mut j: usize = 0;
    while j < tiles.len()
        invariant
            j <= tiles@.len(),
            queue@.len() == events@.len() + j,
            forall|n: int|
                0 <= n < events@.len() ==> queue@[n] == event_entry(#[trigger] events@[n]),
            forall|n: int|
                0 <= n < j ==> queue@[events@.len() + n] == tile_entry(#[trigger] tiles@[n]),
        decreases tiles@.len() - j,
    {
        queue.push((SoundKey::Tile(tiles[j].0), tiles[j].1.clone()));
        j = j + 1;
    }
    let mut k: usize = 0;
    while k < weathers.len()
        invariant
            k <= weathers@.len(),
            queue@.len() == events@.len() + tiles@.len() + k,
            forall|n: int|
                0 <= n < events@.len() ==> queue@[n] == event_entry(#[trigger] events@[n]),
            forall|n: int|
                0 <= n < tiles@.len() ==> queue@[events@.len() + n] == tile_entry(
                    #[trigger] tiles@[n],
                ),
            forall|n: int|
                0 <= n < k ==> queue@[events@.len() + tiles@.len() + n] == weather_entry(
                    #[trigger] weathers@[n],
                ),
        decreases weathers@.len() - k,
    {
        queue.push((SoundKey::Weather(weathers[k].0), weathers[k].1.clone()));
        k = k + 1;
    }
    assert(queue@ =~= sound_queue(events@, tiles@, weathers@));
    queue
}

} // verus!
