//! The events of the simulation, reduced to what sound selection reads, and
//! their classification into one-shot sounds and exclusive ambience categories.

use vstd::prelude::*;

verus! {

/// The ground type of the tile a robot stands on.
#[derive(Clone, Copy, Debug, PartialEq, Eq, Hash, Structural)]
pub enum TileType {
    DeepWater,
    ShallowWater,
    Sand,
    Grass,
    Street,
    Hill,
    Mountain,
    Snow,
    Lava,
    Teleport(bool),
    Wall,
}

/// The weather condition of the current day.
#[derive(Clone, Copy, Debug, PartialEq, Eq, Hash, Structural)]
pub enum WeatherType {
    Sunny,
    Rainy,
    Foggy,
    TropicalMonsoon,
    TrentinoSnow,
}

/// An event of the simulation. Only the payload that decides which sound
/// plays is kept: the tile type a move ends on and the weather that a change
/// of time or day reports.
#[derive(Clone, Copy, Debug, PartialEq, Eq, Hash, Structural)]
pub enum Event {
    Ready,
    Terminated,
    TimeChanged(WeatherType),
    DayChanged(WeatherType),
    EnergyRecharged,
    EnergyConsumed,
    Moved(TileType),
    TileContentUpdated,
    AddedToBackpack,
    RemovedFromBackpack,
}

/// The kind of an event, with every payload discarded.
#[derive(Clone, Copy, Debug, PartialEq, Eq, Hash, Structural)]
pub enum EventKind {
    Ready,
    Terminated,
    TimeChanged,
    DayChanged,
    EnergyRecharged,
    EnergyConsumed,
    Moved,
    TileContentUpdated,
    AddedToBackpack,
    RemovedFromBackpack,
}

/// An exclusive playback slot: at most one sound of a category plays at a time.
#[derive(Clone, Copy, Debug, PartialEq, Eq, Hash, Structural)]
pub enum Category {
    TileAmbience,
    WeatherAmbience,
}

/// What selects the sound of an ambience category.
#[derive(Clone, Copy, Debug, PartialEq, Eq, Hash, Structural)]
pub enum AmbienceKey {
    Tile(TileType),
    Weather(WeatherType),
}

/// The outcome of classifying an event.
#[derive(Clone, Copy, Debug, PartialEq, Eq, Hash, Structural)]
pub enum ClassifiedEvent {
    /// The event reports the state of an ambience category.
    Ambience(AmbienceKey),
    /// The event is at most the trigger of a one-shot sound.
    OneShot(EventKind),
}

impl Event {
    /// The kind of this event.
    pub open spec fn spec_kind(self) -> EventKind {
        match self {
            Event::Ready => EventKind::Ready,
            Event::Terminated => EventKind::Terminated,
            Event::TimeChanged(_) => EventKind::TimeChanged,
            Event::DayChanged(_) => EventKind::DayChanged,
            Event::EnergyRecharged => EventKind::EnergyRecharged,
            Event::EnergyConsumed => EventKind::EnergyConsumed,
            Event::Moved(_) => EventKind::Moved,
            Event::TileContentUpdated => EventKind::TileContentUpdated,
            Event::AddedToBackpack => EventKind::AddedToBackpack,
            Event::RemovedFromBackpack => EventKind::RemovedFromBackpack,
        }
    }

    /// The kind of this event, whatever it carries.
    #[verifier::when_used_as_spec(spec_kind)]
    pub fn kind(self) -> (kind: EventKind)
        ensures
            kind == self.spec_kind(),
    {
        match self {
            Event::Ready => EventKind::Ready,
            Event::Terminated => EventKind::Terminated,
            Event::TimeChanged(_) => EventKind::TimeChanged,
            Event::DayChanged(_) => EventKind::DayChanged,
            Event::EnergyRecharged => EventKind::EnergyRecharged,
            Event::EnergyConsumed => EventKind::EnergyConsumed,
            Event::Moved(_) => EventKind::Moved,
            Event::TileContentUpdated => EventKind::TileContentUpdated,
            Event::AddedToBackpack => EventKind::AddedToBackpack,
            Event::RemovedFromBackpack => EventKind::RemovedFromBackpack,
        }
    }
}

impl AmbienceKey {
    /// The category whose sound this key selects.
    pub open spec fn spec_category(self) -> Category {
        match self {
            AmbienceKey::Tile(_) => Category::TileAmbience,
            AmbienceKey::Weather(_) => Category::WeatherAmbience,
        }
    }

    /// The category whose sound this key selects.
    #[verifier::when_used_as_spec(spec_category)]
    pub fn category(self) -> (category: Category)
        ensures
            category == self.spec_category(),
    {
        match self {
            AmbienceKey::Tile(_) => Category::TileAmbience,
            AmbienceKey::Weather(_) => Category::WeatherAmbience,
        }
    }
}

/// The canonical key of an event kind, as a sequence of characters.
pub open spec fn key_of(kind: EventKind) -> Seq<char> {
    match kind {
        EventKind::Ready => "ready"@,
        EventKind::Terminated => "terminated"@,
        EventKind::TimeChanged => "time_changed"@,
        EventKind::DayChanged => "day_changed"@,
        EventKind::EnergyRecharged => "energy_recharged"@,
        EventKind::EnergyConsumed => "energy_consumed"@,
        EventKind::Moved => "moved"@,
        EventKind::TileContentUpdated => "tile_content_updated"@,
        EventKind::AddedToBackpack => "added_to_backpack"@,
        EventKind::RemovedFromBackpack => "removed_from_backpack"@,
    }
}

/// The canonical key of an event: the name of its kind, the same for every
/// payload.
pub fn event_key(event: &Event) -> (key: &'static str)
    ensures
        key@ == key_of(event.spec_kind()),
{
    match event {
        Event::Ready => "ready",
        Event::Terminated => "terminated",
        Event::TimeChanged(_) => "time_changed",
        Event::DayChanged(_) => "day_changed",
        Event::EnergyRecharged => "energy_recharged",
        Event::EnergyConsumed => "energy_consumed",
        Event::Moved(_) => "moved",
        Event::TileContentUpdated => "tile_content_updated",
        Event::AddedToBackpack => "added_to_backpack",
        Event::RemovedFromBackpack => "removed_from_backpack",
    }
}

/// Two event kinds with the same canonical key are the same kind: a key
/// names exactly one kind.
pub proof fn law_key_names_one_kind(a: EventKind, b: EventKind)
    requires
        key_of(a) == key_of(b),
    ensures
        a == b,
{
    reveal_strlit("ready");
    reveal_strlit("terminated");
    reveal_strlit("time_changed");
    reveal_strlit("day_changed");
    reveal_strlit("energy_recharged");
    reveal_strlit("energy_consumed");
    reveal_strlit("moved");
    reveal_strlit("tile_content_updated");
    reveal_strlit("added_to_backpack");
    reveal_strlit("removed_from_backpack");
    assert("ready"@.len() == 5 && "ready"@[0] == 'r');
    assert("terminated"@.len() == 10);
    assert("time_changed"@.len() == 12);
    assert("day_changed"@.len() == 11);
    assert("energy_recharged"@.len() == 16);
    assert("energy_consumed"@.len() == 15);
    assert("moved"@.len() == 5 && "moved"@[0] == 'm');
    assert("tile_content_updated"@.len() == 20);
    assert("added_to_backpack"@.len() == 17);
    assert("removed_from_backpack"@.len() == 21);
}

/// The classification of an event: a move reports the tile ambience, a change
/// of time or day reports the weather ambience, and every other event is a
/// one-shot trigger named by its kind.
pub open spec fn spec_classify(event: Event) -> ClassifiedEvent {
    match event {
        Event::Moved(tile) => ClassifiedEvent::Ambience(AmbienceKey::Tile(tile)),
        Event::TimeChanged(weather) => ClassifiedEvent::Ambience(AmbienceKey::Weather(weather)),
        Event::DayChanged(weather) => ClassifiedEvent::Ambience(AmbienceKey::Weather(weather)),
        _ => ClassifiedEvent::OneShot(event.spec_kind()),
    }
}

/// Classifies an event. Every event falls into exactly one class.
#[verifier::when_used_as_spec(spec_classify)]
pub fn classify(event: Event) -> (class: ClassifiedEvent)
    ensures
        class == spec_classify(event),
{
    match event {
        Event::Moved(tile) => ClassifiedEvent::Ambience(AmbienceKey::Tile(tile)),
        Event::TimeChanged(weather) => ClassifiedEvent::Ambience(AmbienceKey::Weather(weather)),
        Event::DayChanged(weather) => ClassifiedEvent::Ambience(AmbienceKey::Weather(weather)),
        other => ClassifiedEvent::OneShot(other.kind()),
    }
}

} // verus!
