use oxagaudiotool::error::OxAgAudioToolError;
use oxagaudiotool::event::{Category, Event, TileType, WeatherType};
use oxagaudiotool::loader::BuildStep;
use oxagaudiotool::sound_config::{ConfigIssue, OxAgSoundConfig};
use oxagaudiotool::sounds::SoundKey;
use oxagaudiotool::OxAgAudioTool;

type Tool = OxAgAudioTool<u32, u32>;

/// Builds a tool, answering the n-th load with asset n, or with an error
/// where the path is `failing`. Returns the paths loaded along with the
/// result.
fn build_with(
    events: Vec<(Event, OxAgSoundConfig)>,
    tiles: Vec<(TileType, OxAgSoundConfig)>,
    weathers: Vec<(WeatherType, OxAgSoundConfig)>,
    failing: &str,
) -> (Vec<String>, Result<Tool, OxAgAudioToolError<String>>) {
    let mut loads = Vec::new();
    let mut step = Tool::new(events, tiles, weathers);
    loop {
        match step {
            BuildStep::Done(result) => return (loads, result),
            BuildStep::Load(config, loading) => {
                loads.push(config.path().to_string());
                let outcome = if config.path() == failing {
                    Err(format!("no such file: {}", failing))
                } else {
                    Ok(loads.len() as u32)
                };
                step = loading.after_load(outcome);
            }
        }
    }
}

#[test]
fn empty_mappings_build_a_silent_tool() {
    let (loads, result) = build_with(Vec::new(), Vec::new(), Vec::new(), "");
    let tool = result.unwrap();
    assert!(loads.is_empty());
    assert_eq!(tool.sound(SoundKey::Tile(TileType::Grass)), None);
    assert_eq!(tool.sound(SoundKey::Weather(WeatherType::Foggy)), None);
    assert_eq!(tool.active_key(Category::TileAmbience), None);
    assert_eq!(tool.active_key(Category::WeatherAmbience), None);
}

#[test]
fn build_loads_events_then_tiles_then_weather() {
    let events = vec![
        (Event::Ready, OxAgSoundConfig::new("ready.ogg")),
        (Event::Terminated, OxAgSoundConfig::new("end.ogg")),
    ];
    let tiles = vec![(TileType::Snow, OxAgSoundConfig::new("snow.ogg"))];
    let weathers = vec![(WeatherType::Foggy, OxAgSoundConfig::new("fog.ogg"))];
    let (loads, result) = build_with(events, tiles, weathers, "");
    let tool = result.unwrap();
    assert_eq!(loads, vec!["ready.ogg", "end.ogg", "snow.ogg", "fog.ogg"]);
    assert_eq!(tool.sound(SoundKey::Event(Event::Ready.kind())), Some(1));
    assert_eq!(tool.sound(SoundKey::Event(Event::Terminated.kind())), Some(2));
    assert_eq!(tool.sound(SoundKey::Tile(TileType::Snow)), Some(3));
    assert_eq!(tool.sound(SoundKey::Weather(WeatherType::Foggy)), Some(4));
    assert_eq!(tool.sound(SoundKey::Event(Event::EnergyConsumed.kind())), None);
    assert_eq!(tool.sound(SoundKey::Tile(TileType::Grass)), None);
}

#[test]
fn event_sounds_count_for_the_kind() {
    let events = vec![
        (Event::Moved(TileType::Grass), OxAgSoundConfig::new("first.ogg")),
        (Event::Moved(TileType::Lava), OxAgSoundConfig::new("second.ogg")),
    ];
    let (loads, result) = build_with(events, Vec::new(), Vec::new(), "");
    let tool = result.unwrap();
    assert_eq!(loads, vec!["first.ogg", "second.ogg"]);
    // the later entry of the kind is the one that counts
    assert_eq!(tool.sound(SoundKey::Event(Event::Moved(TileType::Wall).kind())), Some(2));
}

#[test]
fn one_failing_load_fails_the_whole_build() {
    let tiles = vec![
        (TileType::Grass, OxAgSoundConfig::new("grass.ogg")),
        (TileType::Sand, OxAgSoundConfig::new("sand.ogg")),
        (TileType::Hill, OxAgSoundConfig::new("hill.ogg")),
    ];
    let weathers = vec![(WeatherType::Sunny, OxAgSoundConfig::new("sun.ogg"))];
    let (loads, result) = build_with(Vec::new(), tiles, weathers, "sand.ogg");
    assert_eq!(loads, vec!["grass.ogg", "sand.ogg"]);
    match result {
        Err(error) => assert_eq!(
            error,
            OxAgAudioToolError::FileError(
                Some(SoundKey::Tile(TileType::Sand)),
                "no such file: sand.ogg".to_string()
            )
        ),
        Ok(_) => panic!("the build went through"),
    }
}

#[test]
fn a_failing_event_sound_is_named_by_its_kind() {
    let events = vec![(Event::DayChanged(WeatherType::Foggy), OxAgSoundConfig::new("day.ogg"))];
    let (_, result) = build_with(events, Vec::new(), Vec::new(), "day.ogg");
    match result {
        Err(error) => assert_eq!(
            error,
            OxAgAudioToolError::FileError(
                Some(SoundKey::Event(Event::DayChanged(WeatherType::Sunny).kind())),
                "no such file: day.ogg".to_string()
            )
        ),
        Ok(_) => panic!("the build went through"),
    }
}

#[test]
fn one_faulty_descriptor_fails_the_build_before_any_load() {
    let tiles = vec![
        (TileType::Grass, OxAgSoundConfig::new("grass.ogg")),
        (TileType::Sand, OxAgSoundConfig::new("sand.ogg")),
    ];
    let weathers = vec![
        (WeatherType::Sunny, OxAgSoundConfig::new_with_volume("sun.ogg", f64::NAN.to_bits())),
        (WeatherType::Rainy, OxAgSoundConfig::new("")),
    ];
    let (loads, result) = build_with(Vec::new(), tiles, weathers, "");
    assert!(loads.is_empty());
    match result {
        Err(error) => assert_eq!(
            error,
            OxAgAudioToolError::ConfigError(
                Some(SoundKey::Weather(WeatherType::Sunny)),
                ConfigIssue::InvalidAmplitude
            )
        ),
        Ok(_) => panic!("the build went through"),
    }
}

#[test]
fn an_empty_path_fails_the_build() {
    let events = vec![(Event::Ready, OxAgSoundConfig::new_looped(""))];
    let (loads, result) = build_with(events, Vec::new(), Vec::new(), "");
    assert!(loads.is_empty());
    match result {
        Err(error) => assert_eq!(
            error,
            OxAgAudioToolError::ConfigError(
                Some(SoundKey::Event(Event::Ready.kind())),
                ConfigIssue::EmptyPath
            )
        ),
        Ok(_) => panic!("the build went through"),
    }
}

#[test]
fn loading_names_the_key_it_waits_for() {
    let tiles = vec![(TileType::Street, OxAgSoundConfig::new("street.ogg"))];
    let step: BuildStep<u32, u32, String> = Tool::new(Vec::new(), tiles, Vec::new());
    match step {
        BuildStep::Load(config, loading) => {
            assert_eq!(config.path(), "street.ogg");
            assert_eq!(loading.current(), SoundKey::Tile(TileType::Street));
        }
        BuildStep::Done(_) => panic!("nothing was asked for"),
    }
}
