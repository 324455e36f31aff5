//! The playback state machine as a mathematical model: what the registry
//! maps, what plays in each ambience category, and how every step of an
//! operation changes that.

use crate::backend::{AfterPlay, Call, Step};
use crate::error::OxAgAudioToolError;
use crate::event::{AmbienceKey, Category, ClassifiedEvent, Event, TileType, WeatherType};
use crate::event::spec_classify;
use crate::sound_config::OxAgSoundConfig;
use crate::sounds::{SoundKey, SoundsModel};
use vstd::prelude::*;

verus! {

/// The state of an audio tool: the registry, and for each ambience category
/// the key and the handle of what plays in it. Key and handle of a category
/// are there together or not at all.
pub struct ToolModel<A, H> {
    pub sounds: SoundsModel<A>,
    pub tile: Option<(TileType, H)>,
    pub weather: Option<(WeatherType, H)>,
}

/// How a backend answers: its outcomes for the loads and for the playbacks
/// asked of it, each in the order of the requests.
pub struct Script<A, H, E> {
    pub loads: Seq<Result<A, E>>,
    pub plays: Seq<Result<H, E>>,
}

/// An operation carried out against a scripted backend: the state it left,
/// the backend calls it made, in order, and its result. The result is absent
/// where the script ended before the operation did.
pub struct Run<A, H, E> {
    pub tool: ToolModel<A, H>,
    pub calls: Seq<Call<A, H>>,
    pub result: Option<Result<(), OxAgAudioToolError<E>>>,
}

impl<A, H> ToolModel<A, H> {
    /// The tool that maps `sounds` and plays nothing.
    pub open spec fn silent(sounds: SoundsModel<A>) -> Self {
        ToolModel { sounds, tile: None, weather: None }
    }

    /// The key of what plays in a category.
    pub open spec fn active_key(self, category: Category) -> Option<AmbienceKey> {
        match category {
            Category::TileAmbience => match self.tile {
                Some((tile, _)) => Some(AmbienceKey::Tile(tile)),
                None => None,
            },
            Category::WeatherAmbience => match self.weather {
                Some((weather, _)) => Some(AmbienceKey::Weather(weather)),
                None => None,
            },
        }
    }

    /// The handle of what plays in a category.
    pub open spec fn active_handle(self, category: Category) -> Option<H> {
        match category {
            Category::TileAmbience => match self.tile {
                Some((_, handle)) => Some(handle),
                None => None,
            },
            Category::WeatherAmbience => match self.weather {
                Some((_, handle)) => Some(handle),
                None => None,
            },
        }
    }

    /// The same tool with nothing playing in a category.
    pub open spec fn cleared(self, category: Category) -> Self {
        match category {
            Category::TileAmbience => ToolModel { tile: None, ..self },
            Category::WeatherAmbience => ToolModel { weather: None, ..self },
        }
    }

    /// The same tool with `handle` playing under `key` in the key's category.
    pub open spec fn playing(self, key: AmbienceKey, handle: H) -> Self {
        match key {
            AmbienceKey::Tile(tile) => ToolModel { tile: Some((tile, handle)), ..self },
            AmbienceKey::Weather(weather) => ToolModel { weather: Some((weather, handle)), ..self },
        }
    }

    /// The asset that the registry maps an ambience key to.
    pub open spec fn ambience_sound(self, key: AmbienceKey) -> Option<A> {
        match key {
            AmbienceKey::Tile(tile) => self.sounds.get(SoundKey::Tile(tile)),
            AmbienceKey::Weather(weather) => self.sounds.get(SoundKey::Weather(weather)),
        }
    }

    /// The asset that the registry maps the kind of an event to.
    pub open spec fn event_sound(self, event: Event) -> Option<A> {
        self.sounds.get(SoundKey::Event(event.spec_kind()))
    }

    /// The first step of a dispatch. An event whose kind has a sound has it
    /// played, whatever plays already; the ambience is settled after that.
    pub open spec fn on_event<E>(self, event: Event) -> (Self, Step<A, H, E>) {
        match self.event_sound(event) {
            Some(asset) => (self, Step::Play(asset, AfterPlay::OneShot(event))),
            None => self.settle(event),
        }
    }

    /// Settles the ambience that an event reports. Nothing happens for a
    /// one-shot event, nor where the category plays under the reported key
    /// already. Otherwise the category is emptied: what played in it is
    /// handed out to be stopped, and the sound of the new key starts next.
    pub open spec fn settle<E>(self, event: Event) -> (Self, Step<A, H, E>) {
        match spec_classify(event) {
            ClassifiedEvent::OneShot(_) => (self, Step::Done(Ok(()))),
            ClassifiedEvent::Ambience(key) => {
                let category = key.spec_category();
                if self.active_key(category) == Some(key) {
                    (self, Step::Done(Ok(())))
                } else {
                    match self.active_handle(category) {
                        Some(handle) => (self.cleared(category), Step::Stop(handle, key)),
                        None => self.start(key),
                    }
                }
            },
        }
    }

    /// Starts the sound of an ambience key in its emptied category. A key
    /// without a sound leaves the category silent, which is no error.
    pub open spec fn start<E>(self, key: AmbienceKey) -> (Self, Step<A, H, E>) {
        let emptied = self.cleared(key.spec_category());
        match self.ambience_sound(key) {
            Some(asset) => (emptied, Step::Play(asset, AfterPlay::Ambience(key))),
            None => (emptied, Step::Done(Ok(()))),
        }
    }

    /// The step after a stop, whether or not the backend could stop.
    pub open spec fn after_stop<E>(self, key: AmbienceKey) -> (Self, Step<A, H, E>) {
        self.start(key)
    }

    /// The step after a playback request. A failure ends the operation with
    /// the backend's error; a failed ambience leaves its category empty. The
    /// handle of a started ambience is kept under its key; other handles are
    /// let go.
    pub open spec fn after_play<E>(self, then: AfterPlay, outcome: Result<H, E>) -> (
        Self,
        Step<A, H, E>,
    ) {
        match then {
            AfterPlay::OneShot(event) => match outcome {
                Ok(_) => self.settle(event),
                Err(error) => (self, Step::Done(Err(OxAgAudioToolError::PlaySoundError(error)))),
            },
            AfterPlay::Ambience(key) => match outcome {
                Ok(handle) => (self.playing(key, handle), Step::Done(Ok(()))),
                Err(error) => (
                    self.cleared(key.spec_category()),
                    Step::Done(Err(OxAgAudioToolError::PlaySoundError(error))),
                ),
            },
            AfterPlay::Direct => match outcome {
                Ok(_) => (self, Step::Done(Ok(()))),
                Err(error) => (self, Step::Done(Err(OxAgAudioToolError::PlaySoundError(error)))),
            },
        }
    }

    /// The first step of playing a descriptor directly: it is checked, then
    /// loaded.
    pub open spec fn on_direct<E>(self, config: OxAgSoundConfig) -> (Self, Step<A, H, E>) {
        match config@.issue() {
            Some(issue) => (self, Step::Done(Err(OxAgAudioToolError::ConfigError(None, issue)))),
            None => (self, Step::Load(config)),
        }
    }

    /// The step after a load: the asset is played, or the backend's error
    /// ends the operation.
    pub open spec fn after_load<E>(self, outcome: Result<A, E>) -> (Self, Step<A, H, E>) {
        match outcome {
            Ok(asset) => (self, Step::Play(asset, AfterPlay::Direct)),
            Err(error) => (self, Step::Done(Err(OxAgAudioToolError::FileError(None, error)))),
        }
    }

    /// Carries an operation on from `step` against a scripted backend, as a
    /// caller that follows the protocol does: each request is made, and the
    /// operation resumed with the script's next answer of that kind.
    pub open spec fn run<E>(self, step: Step<A, H, E>, script: Script<A, H, E>) -> Run<A, H, E>
        decreases step.rank(),
    {
        match step {
            Step::Done(result) => Run { tool: self, calls: Seq::empty(), result: Some(result) },
            Step::Stop(handle, key) => {
                let (tool, next) = self.after_stop::<E>(key);
                tool.run(next, script).preceded_by(Call::Stop(handle))
            },
            Step::Play(asset, then) => {
                if script.plays.len() == 0 {
                    Run { tool: self, calls: seq![Call::Play(asset)], result: None }
                } else {
                    let (tool, next) = self.after_play(then, script.plays[0]);
                    let rest = Script { loads: script.loads, plays: script.plays.skip(1) };
                    tool.run(next, rest).preceded_by(Call::Play(asset))
                }
            },
            Step::Load(config) => {
                if script.loads.len() == 0 {
                    Run { tool: self, calls: seq![Call::Load(config)], result: None }
                } else {
                    let (tool, next) = self.after_load(script.loads[0]);
                    let rest = Script { loads: script.loads.skip(1), plays: script.plays };
                    tool.run(next, rest).preceded_by(Call::Load(config))
                }
            },
        }
    }

    /// A whole dispatch of an event against a scripted backend.
    pub open spec fn dispatch<E>(self, event: Event, script: Script<A, H, E>) -> Run<A, H, E> {
        let (tool, step) = self.on_event::<E>(event);
        tool.run(step, script)
    }

    /// The whole of playing a descriptor directly against a scripted backend.
    pub open spec fn play_direct<E>(self, config: OxAgSoundConfig, script: Script<A, H, E>) -> Run<
        A,
        H,
        E,
    > {
        let (tool, step) = self.on_direct::<E>(config);
        tool.run(step, script)
    }
}

impl<A, H, E> Run<A, H, E> {
    /// The same run with one more call made before the others.
    pub open spec fn preceded_by(self, call: Call<A, H>) -> Self {
        Run { tool: self.tool, calls: seq![call] + self.calls, result: self.result }
    }
}

} // verus!
