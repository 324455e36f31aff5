use oxagaudiotool::event::{
    classify, event_key, AmbienceKey, Category, ClassifiedEvent, Event, EventKind, TileType,
    WeatherType,
};
use oxagaudiotool::world::MyGen;

#[test]
fn event_keys_name_the_kind() {
    assert_eq!(event_key(&Event::Ready), "ready");
    assert_eq!(event_key(&Event::Terminated), "terminated");
    assert_eq!(event_key(&Event::TimeChanged(WeatherType::Sunny)), "time_changed");
    assert_eq!(event_key(&Event::DayChanged(WeatherType::Rainy)), "day_changed");
    assert_eq!(event_key(&Event::EnergyRecharged), "energy_recharged");
    assert_eq!(event_key(&Event::EnergyConsumed), "energy_consumed");
    assert_eq!(event_key(&Event::Moved(TileType::Grass)), "moved");
    assert_eq!(event_key(&Event::TileContentUpdated), "tile_content_updated");
    assert_eq!(event_key(&Event::AddedToBackpack), "added_to_backpack");
    assert_eq!(event_key(&Event::RemovedFromBackpack), "removed_from_backpack");
}

#[test]
fn event_key_ignores_the_payload() {
    assert_eq!(
        event_key(&Event::Moved(TileType::DeepWater)),
        event_key(&Event::Moved(TileType::Teleport(true)))
    );
    assert_eq!(
        event_key(&Event::TimeChanged(WeatherType::Foggy)),
        event_key(&Event::TimeChanged(WeatherType::TrentinoSnow))
    );
    assert_ne!(
        event_key(&Event::TimeChanged(WeatherType::Foggy)),
        event_key(&Event::DayChanged(WeatherType::Foggy))
    );
}

#[test]
fn kind_drops_the_payload() {
    assert_eq!(Event::Moved(TileType::Lava).kind(), EventKind::Moved);
    assert_eq!(Event::DayChanged(WeatherType::Sunny).kind(), EventKind::DayChanged);
    assert_eq!(Event::TimeChanged(WeatherType::Sunny).kind(), EventKind::TimeChanged);
    assert_eq!(Event::AddedToBackpack.kind(), EventKind::AddedToBackpack);
}

#[test]
fn moves_report_the_tile_ambience() {
    let class = classify(Event::Moved(TileType::Mountain));
    assert_eq!(class, ClassifiedEvent::Ambience(AmbienceKey::Tile(TileType::Mountain)));
    assert_eq!(AmbienceKey::Tile(TileType::Mountain).category(), Category::TileAmbience);
}

#[test]
fn time_and_day_changes_report_the_weather_ambience() {
    let key = AmbienceKey::Weather(WeatherType::TropicalMonsoon);
    assert_eq!(classify(Event::TimeChanged(WeatherType::TropicalMonsoon)), ClassifiedEvent::Ambience(key));
    assert_eq!(classify(Event::DayChanged(WeatherType::TropicalMonsoon)), ClassifiedEvent::Ambience(key));
    assert_eq!(key.category(), Category::WeatherAmbience);
}

#[test]
fn other_events_are_one_shots() {
    let others = [
        (Event::Ready, EventKind::Ready),
        (Event::Terminated, EventKind::Terminated),
        (Event::EnergyRecharged, EventKind::EnergyRecharged),
        (Event::EnergyConsumed, EventKind::EnergyConsumed),
        (Event::TileContentUpdated, EventKind::TileContentUpdated),
        (Event::AddedToBackpack, EventKind::AddedToBackpack),
        (Event::RemovedFromBackpack, EventKind::RemovedFromBackpack),
    ];
    for (event, kind) in others {
        assert_eq!(classify(event), ClassifiedEvent::OneShot(kind));
    }
}

#[test]
fn sample_world_is_one_tile_under_a_week_of_weather() {
    let mut generator = MyGen::new();
    let world = generator.gen();
    assert_eq!(world.tiles, vec![vec![TileType::DeepWater]]);
    assert_eq!(world.spawn, (0, 0));
    assert_eq!(
        world.forecast,
        vec![
            WeatherType::Sunny,
            WeatherType::TrentinoSnow,
            WeatherType::TrentinoSnow,
            WeatherType::Rainy,
            WeatherType::Rainy,
            WeatherType::Foggy,
            WeatherType::TropicalMonsoon,
        ]
    );
    assert_eq!(world.minutes_per_tick, 3);
    assert_eq!(world.starting_hour, 3);
}
