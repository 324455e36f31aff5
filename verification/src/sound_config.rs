//! Sound descriptors: where a sound comes from and how it should play.

use vstd::prelude::*;

verus! {

/// The encoding of the amplitude factor one, which leaves the volume of a
/// sound as it was recorded.
pub const UNIT_AMPLITUDE: u64 = 0x3FF0_0000_0000_0000;

/// Where a region of a sound ends.
#[derive(Clone, Copy, Debug, PartialEq, Eq, Hash, Structural)]
pub enum EndMarker {
    /// The region reaches the end of the sound.
    EndOfAudio,
    /// The region ends before the sample with this number.
    Sample(i64),
}

/// A portion of a sound, in samples.
#[derive(Clone, Copy, Debug, PartialEq, Eq, Hash, Structural)]
pub struct Region {
    pub start_sample: i64,
    pub end: EndMarker,
}

/// How a sound plays.
///
/// The amplitude factor is held as the bits of an IEEE 754 double, sign in
/// the highest bit, then eleven bits of exponent and fifty-two of fraction.
#[derive(Clone, Copy, Debug, PartialEq, Eq, Hash, Structural)]
pub struct SoundSettings {
    /// Whether the sound starts over when it reaches the end of its region.
    pub looped: bool,
    /// The amplitude factor that the volume is multiplied by.
    pub amplitude_bits: u64,
    /// The portion of the sound that plays; the whole sound where absent.
    pub region: Option<Region>,
}

/// Why a descriptor cannot be loaded.
#[derive(Clone, Copy, Debug, PartialEq, Eq, Hash, Structural)]
pub enum ConfigIssue {
    /// The descriptor names no source.
    EmptyPath,
    /// The amplitude factor is negative, infinite or not a number.
    InvalidAmplitude,
}

impl ConfigIssue {
    /// What the issue says of a descriptor, as a sequence of characters.
    pub open spec fn text(self) -> Seq<char> {
        match self {
            ConfigIssue::EmptyPath => "the sound has no path"@,
            ConfigIssue::InvalidAmplitude => "the amplitude is negative or not finite"@,
        }
    }

    /// A short description of the issue, for messages.
    pub fn describe(&self) -> (text: &'static str)
        ensures
            text@ == self.text(),
    {
        match self {
            ConfigIssue::EmptyPath => "the sound has no path",
            ConfigIssue::InvalidAmplitude => "the amplitude is negative or not finite",
        }
    }
}

/// The sign bit of an encoded amplitude.
pub open spec fn sign_of(bits: u64) -> int {
    bits as int / 0x8000_0000_0000_0000
}

/// The biased exponent of an encoded amplitude.
pub open spec fn exponent_of(bits: u64) -> int {
    (bits as int / 0x10_0000_0000_0000) % 0x800
}

/// The fraction of an encoded amplitude.
pub open spec fn fraction_of(bits: u64) -> int {
    bits as int % 0x10_0000_0000_0000
}

/// Whether the bits encode a finite number that is not below zero. An
/// exponent of all ones marks infinities and NaNs; a set sign bit is accepted
/// only on zero.
pub open spec fn amplitude_is_usable(bits: u64) -> bool {
    &&& exponent_of(bits) != 0x7FF
    &&& (sign_of(bits) == 0 || (exponent_of(bits) == 0 && fraction_of(bits) == 0))
}

/// Tells whether the bits encode a finite amplitude that is not below zero.
pub fn check_amplitude(bits: u64) -> (usable: bool)
    ensures
        usable == amplitude_is_usable(bits),
{
    bits < 0x7FF0_0000_0000_0000 || bits == 0x8000_0000_0000_0000
}

/// The settings of a sound that plays once, in full, at its recorded volume.
pub open spec fn plain_settings() -> SoundSettings {
    SoundSettings { looped: false, amplitude_bits: UNIT_AMPLITUDE, region: None }
}

/// The region that spans a whole sound.
pub open spec fn whole_sound() -> Region {
    Region { start_sample: 0, end: EndMarker::EndOfAudio }
}

impl SoundSettings {
    /// The portion that the sound repeats: none unless it is looped, then its
    /// region, or the whole sound where it has none.
    pub open spec fn spec_loop_region(&self) -> Option<Region> {
        if !self.looped {
            None
        } else if self.region is Some {
            self.region
        } else {
            Some(whole_sound())
        }
    }

    /// The portion that a sound that is not looped is cut down to.
    pub open spec fn spec_playback_region(&self) -> Option<Region> {
        if self.looped {
            None
        } else {
            self.region
        }
    }

    /// The portion of the sound that a backend has to repeat, if any.
    #[verifier::when_used_as_spec(spec_loop_region)]
    pub fn loop_region(&self) -> (region: Option<Region>)
        ensures
            region == self.spec_loop_region(),
    {
        if !self.looped {
            None
        } else {
            match self.region {
                Some(region) => Some(region),
                None => Some(Region { start_sample: 0, end: EndMarker::EndOfAudio }),
            }
        }
    }

    /// The portion of the sound that a backend has to cut it down to, if any.
    #[verifier::when_used_as_spec(spec_playback_region)]
    pub fn playback_region(&self) -> (region: Option<Region>)
        ensures
            region == self.spec_playback_region(),
    {
        if self.looped {
            None
        } else {
            self.region
        }
    }
}

/// What a descriptor holds, with its source as a sequence of characters.
pub struct SoundDescriptor {
    pub path: Seq<char>,
    pub settings: SoundSettings,
}

impl SoundDescriptor {
    /// The first reason, if any, for which the descriptor cannot be loaded.
    pub open spec fn issue(self) -> Option<ConfigIssue> {
        if self.path.len() == 0 {
            Some(ConfigIssue::EmptyPath)
        } else if !amplitude_is_usable(self.settings.amplitude_bits) {
            Some(ConfigIssue::InvalidAmplitude)
        } else {
            None
        }
    }
}

/// Configures any sound that should be played: the path of the audio file
/// and the settings it plays with. A descriptor never changes once made.
#[derive(Debug)]
pub struct OxAgSoundConfig {
    path: String,
    settings: SoundSettings,
}

impl View for OxAgSoundConfig {
    type V = SoundDescriptor;

    closed spec fn view(&self) -> SoundDescriptor {
        SoundDescriptor { path: self.path@, settings: self.settings }
    }
}

impl Clone for OxAgSoundConfig {
    fn clone(&self) -> (copy: Self)
        ensures
            copy == *self,
    {
        OxAgSoundConfig { path: self.path.clone(), settings: self.settings }
    }
}

impl OxAgSoundConfig {
    /// A sound that plays once at its recorded volume.
    pub fn new(path: &str) -> (config: OxAgSoundConfig)
        ensures
            config@ == (SoundDescriptor { path: path@, settings: plain_settings() }),
    {
        OxAgSoundConfig {
            path: path.to_owned(),
            settings: SoundSettings { looped: false, amplitude_bits: UNIT_AMPLITUDE, region: None },
        }
    }

    /// A sound that plays with the given settings.
    pub fn new_with_settings(path: &str, settings: SoundSettings) -> (config: OxAgSoundConfig)
        ensures
            config@ == (SoundDescriptor { path: path@, settings }),
    {
        OxAgSoundConfig { path: path.to_owned(), settings }
    }

    /// A sound that starts over whenever it reaches its end.
    pub fn new_looped(path: &str) -> (config: OxAgSoundConfig)
        ensures
            config@ == (SoundDescriptor {
                path: path@,
                settings: SoundSettings {
                    looped: true,
                    amplitude_bits: UNIT_AMPLITUDE,
                    region: Some(whole_sound()),
                },
            }),
    {
        OxAgSoundConfig::new(path).looped()
    }

    /// A sound that plays once, its volume multiplied by the encoded
    /// amplitude.
    pub fn new_with_volume(path: &str, amplitude_bits: u64) -> (config: OxAgSoundConfig)
        ensures
            config@ == (SoundDescriptor {
                path: path@,
                settings: SoundSettings { looped: false, amplitude_bits, region: None },
            }),
    {
        OxAgSoundConfig::new(path).volume(amplitude_bits)
    }

    /// A sound that starts over whenever it reaches its end, its volume
    /// multiplied by the encoded amplitude.
    pub fn new_looped_with_volume(path: &str, amplitude_bits: u64) -> (config: OxAgSoundConfig)
        ensures
            config@ == (SoundDescriptor {
                path: path@,
                settings: SoundSettings {
                    looped: true,
                    amplitude_bits,
                    region: Some(whole_sound()),
                },
            }),
    {
        OxAgSoundConfig::new(path).looped().volume(amplitude_bits)
    }

    /// The same sound, starting over whenever it reaches the end of the
    /// whole recording.
    pub fn looped(self) -> (config: OxAgSoundConfig)
        ensures
            config@ == (SoundDescriptor {
                path: self@.path,
                settings: SoundSettings {
                    looped: true,
                    amplitude_bits: self@.settings.amplitude_bits,
                    region: Some(whole_sound()),
                },
            }),
    {
        OxAgSoundConfig {
            path: self.path,
            settings: SoundSettings {
                looped: true,
                amplitude_bits: self.settings.amplitude_bits,
                region: Some(Region { start_sample: 0, end: EndMarker::EndOfAudio }),
            },
        }
    }

    /// The same sound, its volume multiplied by the encoded amplitude.
    pub fn volume(self, amplitude_bits: u64) -> (config: OxAgSoundConfig)
        ensures
            config@ == (SoundDescriptor {
                path: self@.path,
                settings: SoundSettings {
                    looped: self@.settings.looped,
                    amplitude_bits,
                    region: self@.settings.region,
                },
            }),
    {
        OxAgSoundConfig {
            path: self.path,
            settings: SoundSettings {
                looped: self.settings.looped,
                amplitude_bits,
                region: self.settings.region,
            },
        }
    }

    /// The path of the audio file.
    pub fn path(&self) -> (path: &str)
        ensures
            path@ == self@.path,
    {
        self.path.as_str()
    }

    /// The settings the sound plays with.
    pub fn settings(&self) -> (settings: SoundSettings)
        ensures
            settings == self@.settings,
    {
        self.settings
    }

    /// Checks that the descriptor can be handed to a backend: it names a
    /// source, and its amplitude is a finite number that is not below zero.
    pub fn check(&self) -> (outcome: Result<(), ConfigIssue>)
        ensures
            outcome == match self@.issue() {
                Some(issue) => Err::<(), ConfigIssue>(issue),
                None => Ok(()),
            },
    {
        if self.path.as_str().is_empty() {
            Err(ConfigIssue::EmptyPath)
        } else if !check_amplitude(self.settings.amplitude_bits) {
            Err(ConfigIssue::InvalidAmplitude)
        } else {
            Ok(())
        }
    }
}

} // verus!
