//! The audio tool: the registry of loaded sounds together with what plays in
//! each ambience category, and the operations that react to events.

use crate::backend::{AfterPlay, Step};
use crate::error::OxAgAudioToolError;
use crate::event::{classify, AmbienceKey, Category, ClassifiedEvent, Event, TileType, WeatherType};
use crate::model::ToolModel;
use crate::sound_config::OxAgSoundConfig;
use crate::sounds::{SoundKey, Sounds};
use vstd::prelude::*;

verus! {

/// Decides which sounds play as the simulation goes on.
///
/// `A` is the backend's token for a loaded sound, `H` its token for a running
/// playback. The tool keeps one handle per ambience category at most, and
/// gives a handle away in the very step that asks for its playback to stop.
pub struct OxAgAudioTool<A, H> {
    /// Maps event kinds, tile types and weather types to their sounds.
    sounds: Sounds<A>,
    /// The playing sound that depends on the tile type, with that type.
    current_tile_sound: Option<(TileType, H)>,
    /// The playing sound that depends on the weather type, with that type.
    current_weather_sound: Option<(WeatherType, H)>,
}

impl<A: Copy, H> View for OxAgAudioTool<A, H> {
    type V = ToolModel<A, H>;

    closed spec fn view(&self) -> ToolModel<A, H> {
        ToolModel {
            sounds: self.sounds@,
            tile: self.current_tile_sound,
            weather: self.current_weather_sound,
        }
    }
}

impl<A: Copy, H> OxAgAudioTool<A, H> {
    /// A tool over a finished registry, with nothing playing.
    pub(crate) fn with_sounds(sounds: Sounds<A>) -> (tool: Self)
        ensures
            tool@ == ToolModel::<A, H>::silent(sounds@),
    {
        OxAgAudioTool { sounds, current_tile_sound: None, current_weather_sound: None }
    }

    /// Begins the reaction to an event.
    ///
    /// If the kind of the event has a sound, that sound is played first, on
    /// its own. A move then settles the tile ambience and a change of time or
    /// day the weather ambience: where the category plays under another key,
    /// or not at all, what plays is stopped and the sound of the reported key
    /// is started, if it has one.
    pub fn play_audio_based_on_event<E>(&mut self, event: &Event) -> (step: Step<A, H, E>)
        ensures
            (final(self)@, step) == old(self)@.on_event::<E>(*event),
    {
        match self.sounds.get(SoundKey::Event(event.kind())) {
            Some(asset) => Step::Play(asset, AfterPlay::OneShot(*event)),
            None => self.settle(*event),
        }
    }

    /// Goes on after a playback request, with the handle of the playback or
    /// the backend's error. `then` is what came with the request.
    pub fn after_play<E>(&mut self, then: AfterPlay, outcome: Result<H, E>) -> (step: Step<A, H, E>)
        ensures
            (final(self)@, step) == old(self)@.after_play(then, outcome),
    {
        match then {
            AfterPlay::OneShot(event) => match outcome {
                Ok(_) => self.settle(event),
                Err(error) => Step::Done(Err(OxAgAudioToolError::PlaySoundError(error))),
            },
            AfterPlay::Ambience(key) => match outcome {
                Ok(handle) => {
                    match key {
                        AmbienceKey::Tile(tile) => {
                            self.current_tile_sound = Some((tile, handle));
                        },
                        AmbienceKey::Weather(weather) => {
                            self.current_weather_sound = Some((weather, handle));
                        },
                    }
                    Step::Done(Ok(()))
                },
                Err(error) => {
                    self.clear(key.category());
                    Step::Done(Err(OxAgAudioToolError::PlaySoundError(error)))
                },
            },
            AfterPlay::Direct => match outcome {
                Ok(_) => Step::Done(Ok(())),
                Err(error) => Step::Done(Err(OxAgAudioToolError::PlaySoundError(error))),
            },
        }
    }

    /// Goes on after a stop request, whether or not the backend could stop
    /// the playback. `key` is what came with the request.
    pub fn after_stop<E>(&mut self, key: AmbienceKey) -> (step: Step<A, H, E>)
        ensures
            (final(self)@, step) == old(self)@.after_stop::<E>(key),
    {
        self.start(key)
    }

    /// Begins to play a sound given by its descriptor, apart from the
    /// ambience categories: the descriptor is checked, loaded and played.
    pub fn play_audio<E>(&mut self, sound_config: &OxAgSoundConfig) -> (step: Step<A, H, E>)
        ensures
            (final(self)@, step) == old(self)@.on_direct::<E>(*sound_config),
    {
        match sound_config.check() {
            Err(issue) => Step::Done(Err(OxAgAudioToolError::ConfigError(None, issue))),
            Ok(()) => Step::Load(sound_config.clone()),
        }
    }

    /// Goes on after the load request of `play_audio`, with the asset or the
    /// backend's error.
    pub fn after_load<E>(&mut self, outcome: Result<A, E>) -> (step: Step<A, H, E>)
        ensures
            (final(self)@, step) == old(self)@.after_load(outcome),
    {
        match outcome {
            Ok(asset) => Step::Play(asset, AfterPlay::Direct),
            Err(error) => Step::Done(Err(OxAgAudioToolError::FileError(None, error))),
        }
    }

    /// The key under which a category plays, if it plays.
    pub fn active_key(&self, category: Category) -> (key: Option<AmbienceKey>)
        ensures
            key == self@.active_key(category),
    {
        match category {
            Category::TileAmbience => match &self.current_tile_sound {
                Some((tile, _)) => Some(AmbienceKey::Tile(*tile)),
                None => None,
            },
            Category::WeatherAmbience => match &self.current_weather_sound {
                Some((weather, _)) => Some(AmbienceKey::Weather(*weather)),
                None => None,
            },
        }
    }

    /// The handle of what plays in a category, if it plays.
    pub fn active_handle(&self, category: Category) -> (handle: Option<&H>)
        ensures
            handle == match self@.active_handle(category) {
                Some(handle) => Some(&handle),
                None => None,
            },
    {
        match category {
            Category::TileAmbience => match &self.current_tile_sound {
                Some((_, handle)) => Some(handle),
                None => None,
            },
            Category::WeatherAmbience => match &self.current_weather_sound {
                Some((_, handle)) => Some(handle),
                None => None,
            },
        }
    }

    /// The asset that the registry holds for a key, if it holds one.
    pub fn sound(&self, key: SoundKey) -> (asset: Option<A>)
        ensures
            asset == self@.sounds.get(key),
    {
        self.sounds.get(key)
    }

    fn settle<E>(&mut self, event: Event) -> (step: Step<A, H, E>)
        ensures
            (final(self)@, step) == old(self)@.settle::<E>(event),
    {
        match classify(event) {
            ClassifiedEvent::OneShot(_) => Step::Done(Ok(())),
            ClassifiedEvent::Ambience(key) => {
                if self.plays_under(key) {
                    Step::Done(Ok(()))
                } else {
                    match self.take(key.category()) {
                        Some(handle) => Step::Stop(handle, key),
                        None => self.start(key),
                    }
                }
            },
        }
    }

    fn start<E>(&mut self, key: AmbienceKey) -> (step: Step<A, H, E>)
        ensures
            (final(self)@, step) == old(self)@.start::<E>(key),
    {
        self.clear(key.category());
        let sound = match key {
            AmbienceKey::Tile(tile) => self.sounds.get(SoundKey::Tile(tile)),
            AmbienceKey::Weather(weather) => self.sounds.get(SoundKey::Weather(weather)),
        };
        match sound {
            Some(asset) => Step::Play(asset, AfterPlay::Ambience(key)),
            None => Step::Done(Ok(())),
        }
    }

    fn plays_under(&self, key: AmbienceKey) -> (same: bool)
        ensures
            same == (self@.active_key(key.spec_category()) == Some(key)),
    {
        match key {
            AmbienceKey::Tile(tile) => match &self.current_tile_sound {
                Some((current, _)) => *current == tile,
                None => false,
            },
            AmbienceKey::Weather(weather) => match &self.current_weather_sound {
                Some((current, _)) => *current == weather,
                None => false,
            },
        }
    }

    fn take(&mut self, category: Category) -> (handle: Option<H>)
        ensures
            handle == old(self)@.active_handle(category),
            final(self)@ == old(self)@.cleared(category),
    {
        match category {
            Category::TileAmbience => match self.current_tile_sound.take() {
                Some((_, handle)) => Some(handle),
                None => None,
            },
            Category::WeatherAmbience => match self.current_weather_sound.take() {
                Some((_, handle)) => Some(handle),
                None => None,
            },
        }
    }

    fn clear(&mut self, category: Category)
        ensures
            final(self)@ == old(self)@.cleared(category),
    {
        match category {
            Category::TileAmbience => {
                self.current_tile_sound = None;
            },
            Category::WeatherAmbience => {
                self.current_weather_sound = None;
            },
        }
    }
}

} // verus!
