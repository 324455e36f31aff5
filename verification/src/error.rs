//! The errors of the library.

use crate::sound_config::ConfigIssue;
use crate::sounds::SoundKey;
use vstd::prelude::*;

verus! {

/// The one and only error returned by this library. `E` is what the backend
/// reports when it fails; the library hands it on as it came.
///
/// The key names the registry entry whose descriptor was at fault; it is
/// absent for a descriptor that was given to be played directly.
#[derive(Debug, PartialEq, Eq)]
pub enum OxAgAudioToolError<E> {
    /// A descriptor cannot be loaded as it stands.
    ConfigError(Option<SoundKey>, ConfigIssue),
    /// File issue: the backend could not load the sound of a descriptor.
    FileError(Option<SoundKey>, E),
    /// Audio playing issue: the backend could not start a playback.
    PlaySoundError(E),
}

} // verus!
