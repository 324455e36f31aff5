use oxagaudiotool::sound_config::{
    check_amplitude, ConfigIssue, EndMarker, OxAgSoundConfig, Region, SoundSettings, UNIT_AMPLITUDE,
};

#[test]
fn unit_amplitude_is_one() {
    assert_eq!(UNIT_AMPLITUDE, 1.0f64.to_bits());
}

#[test]
fn new_plays_once_at_recorded_volume() {
    let config = OxAgSoundConfig::new("assets/default/event/event_ready.ogg");
    assert_eq!(config.path(), "assets/default/event/event_ready.ogg");
    assert_eq!(
        config.settings(),
        SoundSettings { looped: false, amplitude_bits: UNIT_AMPLITUDE, region: None }
    );
    assert_eq!(config.check(), Ok(()));
}

#[test]
fn new_looped_loops_the_whole_sound() {
    let config = OxAgSoundConfig::new_looped("assets/winter.ogg");
    assert_eq!(config.path(), "assets/winter.ogg");
    assert_eq!(
        config.settings(),
        SoundSettings {
            looped: true,
            amplitude_bits: UNIT_AMPLITUDE,
            region: Some(Region { start_sample: 0, end: EndMarker::EndOfAudio }),
        }
    );
}

#[test]
fn new_with_volume_keeps_the_amplitude() {
    let config = OxAgSoundConfig::new_with_volume("blip.ogg", 0.1f64.to_bits());
    assert_eq!(f64::from_bits(config.settings().amplitude_bits), 0.1);
    assert!(!config.settings().looped);
    assert_eq!(config.settings().region, None);
}

#[test]
fn new_looped_with_volume_sets_both() {
    let config = OxAgSoundConfig::new_looped_with_volume("assets/default/music.ogg", 2.0f64.to_bits());
    assert_eq!(config.path(), "assets/default/music.ogg");
    assert_eq!(
        config.settings(),
        SoundSettings {
            looped: true,
            amplitude_bits: 0x4000_0000_0000_0000,
            region: Some(Region { start_sample: 0, end: EndMarker::EndOfAudio }),
        }
    );
}

#[test]
fn new_with_settings_takes_them_as_given() {
    let settings = SoundSettings {
        looped: false,
        amplitude_bits: 0.5f64.to_bits(),
        region: Some(Region { start_sample: 4410, end: EndMarker::Sample(88200) }),
    };
    let config = OxAgSoundConfig::new_with_settings("clip.wav", settings);
    assert_eq!(config.path(), "clip.wav");
    assert_eq!(config.settings(), settings);
}

#[test]
fn looped_and_volume_give_new_descriptors() {
    let plain = OxAgSoundConfig::new("rain.ogg");
    let louder = plain.clone().volume(3.0f64.to_bits());
    let looped = louder.clone().looped();
    assert_eq!(plain.settings().amplitude_bits, UNIT_AMPLITUDE);
    assert_eq!(f64::from_bits(louder.settings().amplitude_bits), 3.0);
    assert!(!louder.settings().looped);
    assert!(looped.settings().looped);
    assert_eq!(f64::from_bits(looped.settings().amplitude_bits), 3.0);
    assert_eq!(looped.path(), "rain.ogg");
}

#[test]
fn clone_is_equal() {
    let config = OxAgSoundConfig::new_looped_with_volume("a.flac", 0.25f64.to_bits());
    let copy = config.clone();
    assert_eq!(copy.path(), config.path());
    assert_eq!(copy.settings(), config.settings());
}

#[test]
fn finite_amplitudes_from_zero_up_are_usable() {
    for amplitude in [0.0f64, -0.0, 0.1, 1.0, 2.0, f64::MIN_POSITIVE, 5e-324, f64::MAX] {
        assert!(check_amplitude(amplitude.to_bits()), "{} was refused", amplitude);
    }
}

#[test]
fn negative_and_non_finite_amplitudes_are_refused() {
    for amplitude in [-0.1f64, -1.0, -5e-324, f64::MIN, f64::INFINITY, f64::NEG_INFINITY, f64::NAN, -f64::NAN] {
        assert!(!check_amplitude(amplitude.to_bits()), "{} was accepted", amplitude);
    }
    // a NaN with another payload
    assert!(!check_amplitude(0x7FF0_0000_0000_0001));
    assert!(!check_amplitude(u64::MAX));
}

#[test]
fn check_reports_the_path_first() {
    let both = OxAgSoundConfig::new_with_volume("", f64::INFINITY.to_bits());
    assert_eq!(both.check(), Err(ConfigIssue::EmptyPath));
    let amplitude = OxAgSoundConfig::new_with_volume("a.mp3", f64::INFINITY.to_bits());
    assert_eq!(amplitude.check(), Err(ConfigIssue::InvalidAmplitude));
    let fine = OxAgSoundConfig::new_with_volume("a.mp3", 0.0f64.to_bits());
    assert_eq!(fine.check(), Ok(()));
}

#[test]
fn issues_have_a_description() {
    assert_eq!(ConfigIssue::EmptyPath.describe(), "the sound has no path");
    assert_eq!(ConfigIssue::InvalidAmplitude.describe(), "the amplitude is negative or not finite");
}

#[test]
fn a_looped_sound_repeats_its_region_or_the_whole() {
    let whole = Region { start_sample: 0, end: EndMarker::EndOfAudio };
    let part = Region { start_sample: 100, end: EndMarker::Sample(900) };
    let looped = SoundSettings { looped: true, amplitude_bits: UNIT_AMPLITUDE, region: None };
    assert_eq!(looped.loop_region(), Some(whole));
    assert_eq!(looped.playback_region(), None);
    let looped_part = SoundSettings { looped: true, amplitude_bits: UNIT_AMPLITUDE, region: Some(part) };
    assert_eq!(looped_part.loop_region(), Some(part));
    assert_eq!(looped_part.playback_region(), None);
    assert_eq!(OxAgSoundConfig::new_looped("a.ogg").settings().loop_region(), Some(whole));
}

#[test]
fn a_plain_sound_plays_its_region_once() {
    let part = Region { start_sample: 100, end: EndMarker::Sample(900) };
    let once = SoundSettings { looped: false, amplitude_bits: UNIT_AMPLITUDE, region: Some(part) };
    assert_eq!(once.loop_region(), None);
    assert_eq!(once.playback_region(), Some(part));
    let plain = OxAgSoundConfig::new("a.ogg").settings();
    assert_eq!(plain.loop_region(), None);
    assert_eq!(plain.playback_region(), None);
}
