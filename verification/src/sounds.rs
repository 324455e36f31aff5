//! The registry of loaded sounds: which asset plays for an event kind, a tile
//! type or a weather type.

use crate::event::{EventKind, TileType, WeatherType};
use vstd::prelude::*;

verus! {

/// Names one entry of the registry.
#[derive(Clone, Copy, Debug, PartialEq, Eq, Hash, Structural)]
pub enum SoundKey {
    Event(EventKind),
    Tile(TileType),
    Weather(WeatherType),
}

/// The registry as three finite maps. A key without an asset is silent.
pub struct SoundsModel<A> {
    pub events: Map<EventKind, A>,
    pub tiles: Map<TileType, A>,
    pub weathers: Map<WeatherType, A>,
}

impl<A> SoundsModel<A> {
    /// The registry in which every key is silent.
    pub open spec fn empty() -> Self {
        SoundsModel { events: Map::empty(), tiles: Map::empty(), weathers: Map::empty() }
    }

    /// The asset of a key, if it has one.
    pub open spec fn get(self, key: SoundKey) -> Option<A> {
        match key {
            SoundKey::Event(kind) => if self.events.contains_key(kind) {
                Some(self.events[kind])
            } else {
                None
            },
            SoundKey::Tile(tile) => if self.tiles.contains_key(tile) {
                Some(self.tiles[tile])
            } else {
                None
            },
            SoundKey::Weather(weather) => if self.weathers.contains_key(weather) {
                Some(self.weathers[weather])
            } else {
                None
            },
        }
    }

    /// The registry with `asset` under `key`, in place of what was there.
    pub open spec fn insert(self, key: SoundKey, asset: A) -> Self {
        match key {
            SoundKey::Event(kind) => SoundsModel { events: self.events.insert(kind, asset), ..self },
            SoundKey::Tile(tile) => SoundsModel { tiles: self.tiles.insert(tile, asset), ..self },
            SoundKey::Weather(weather) => SoundsModel {
                weathers: self.weathers.insert(weather, asset),
                ..self
            },
        }
    }
}

/// The slot of an event kind in its table.
spec fn event_slot(kind: EventKind) -> int {
    match kind {
        EventKind::Ready => 0,
        EventKind::Terminated => 1,
        EventKind::TimeChanged => 2,
        EventKind::DayChanged => 3,
        EventKind::EnergyRecharged => 4,
        EventKind::EnergyConsumed => 5,
        EventKind::Moved => 6,
        EventKind::TileContentUpdated => 7,
        EventKind::AddedToBackpack => 8,
        EventKind::RemovedFromBackpack => 9,
    }
}

/// The slot of a tile type in its table. The two states of a teleport have a
/// slot each.
spec fn tile_slot(tile: TileType) -> int {
    match tile {
        TileType::DeepWater => 0,
        TileType::ShallowWater => 1,
        TileType::Sand => 2,
        TileType::Grass => 3,
        TileType::Street => 4,
        TileType::Hill => 5,
        TileType::Mountain => 6,
        TileType::Snow => 7,
        TileType::Lava => 8,
        TileType::Teleport(false) => 9,
        TileType::Teleport(true) => 10,
        TileType::Wall => 11,
    }
}

/// The slot of a weather type in its table.
spec fn weather_slot(weather: WeatherType) -> int {
    match weather {
        WeatherType::Sunny => 0,
        WeatherType::Rainy => 1,
        WeatherType::Foggy => 2,
        WeatherType::TropicalMonsoon => 3,
        WeatherType::TrentinoSnow => 4,
    }
}

fn event_index(kind: EventKind) -> (slot: usize)
    ensures
        slot == event_slot(kind),
        slot < 10,
{
    match kind {
        EventKind::Ready => 0,
        EventKind::Terminated => 1,
        EventKind::TimeChanged => 2,
        EventKind::DayChanged => 3,
        EventKind::EnergyRecharged => 4,
        EventKind::EnergyConsumed => 5,
        EventKind::Moved => 6,
        EventKind::TileContentUpdated => 7,
        EventKind::AddedToBackpack => 8,
        EventKind::RemovedFromBackpack => 9,
    }
}

fn tile_index(tile: TileType) -> (slot: usize)
    ensures
        slot == tile_slot(tile),
        slot < 12,
{
    match tile {
        TileType::DeepWater => 0,
        TileType::ShallowWater => 1,
        TileType::Sand => 2,
        TileType::Grass => 3,
        TileType::Street => 4,
        TileType::Hill => 5,
        TileType::Mountain => 6,
        TileType::Snow => 7,
        TileType::Lava => 8,
        TileType::Teleport(false) => 9,
        TileType::Teleport(true) => 10,
        TileType::Wall => 11,
    }
}

fn weather_index(weather: WeatherType) -> (slot: usize)
    ensures
        slot == weather_slot(weather),
        slot < 5,
{
    match weather {
        WeatherType::Sunny => 0,
        WeatherType::Rainy => 1,
        WeatherType::Foggy => 2,
        WeatherType::TropicalMonsoon => 3,
        WeatherType::TrentinoSnow => 4,
    }
}

/// The registry of loaded sounds, one table per kind of key.
pub struct Sounds<A> {
    events: [Option<A>; 10],
    tiles: [Option<A>; 12],
    weathers: [Option<A>; 5],
}

impl<A: Copy> View for Sounds<A> {
    type V = SoundsModel<A>;

    closed spec fn view(&self) -> SoundsModel<A> {
        SoundsModel {
            events: Map::new(
                |kind: EventKind| self.events@[event_slot(kind)] is Some,
                |kind: EventKind| self.events@[event_slot(kind)]->0,
            ),
            tiles: Map::new(
                |tile: TileType| self.tiles@[tile_slot(tile)] is Some,
                |tile: TileType| self.tiles@[tile_slot(tile)]->0,
            ),
            weathers: Map::new(
                |weather: WeatherType| self.weathers@[weather_slot(weather)] is Some,
                |weather: WeatherType| self.weathers@[weather_slot(weather)]->0,
            ),
        }
    }
}

impl<A: Copy> Sounds<A> {
    /// A registry in which every key is silent.
    pub fn new() -> (sounds: Self)
        ensures
            sounds@ == SoundsModel::<A>::empty(),
    {
        let sounds = Sounds {
            events: [None, None, None, None, None, None, None, None, None, None],
            tiles: [None, None, None, None, None, None, None, None, None, None, None, None],
            weathers: [None, None, None, None, None],
        };
        assert(sounds@.events =~= Map::<EventKind, A>::empty());
        assert(sounds@.tiles =~= Map::<TileType, A>::empty());
        assert(sounds@.weathers =~= Map::<WeatherType, A>::empty());
        sounds
    }

    /// Puts `asset` under `key`, in place of what was there.
    pub fn insert(&mut self, key: SoundKey, asset: A)
        ensures
            final(self)@ == old(self)@.insert(key, asset),
    {
        match key {
            SoundKey::Event(kind) => {
                let slot = event_index(kind);
                self.events[slot] = Some(asset);
                assert(self@.events =~= old(self)@.events.insert(kind, asset));
            },
            SoundKey::Tile(tile) => {
                let slot = tile_index(tile);
                self.tiles[slot] = Some(asset);
                assert(self@.tiles =~= old(self)@.tiles.insert(tile, asset));
            },
            SoundKey::Weather(weather) => {
                let slot = weather_index(weather);
                self.weathers[slot] = Some(asset);
                assert(self@.weathers =~= old(self)@.weathers.insert(weather, asset));
            },
        }
    }

    /// The asset of a key, if it has one.
    pub fn get(&self, key: SoundKey) -> (asset: Option<A>)
        ensures
            asset == self@.get(key),
    {
        match key {
            SoundKey::Event(kind) => self.events[event_index(kind)],
            SoundKey::Tile(tile) => self.tiles[tile_index(tile)],
            SoundKey::Weather(weather) => self.weathers[weather_index(weather)],
        }
    }
}

} // verus!
