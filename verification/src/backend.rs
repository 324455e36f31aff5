//! The protocol between the library and a playback backend.
//!
//! The library performs no input or output. An operation returns a [`Step`]:
//! either it is done, or it asks for one backend call. The caller performs
//! the call and resumes the operation with the answer, until it is done.

use crate::error::OxAgAudioToolError;
use crate::event::{AmbienceKey, Event};
use crate::sound_config::OxAgSoundConfig;
use vstd::prelude::*;

verus! {

/// What remains to be done once a playback request has been answered.
#[derive(Clone, Copy, Debug, PartialEq, Eq, Structural)]
pub enum AfterPlay {
    /// The sound of an event was asked for; the event's ambience is still to
    /// be settled.
    OneShot(Event),
    /// The sound of an ambience category was asked for; its handle is to be
    /// kept under this key.
    Ambience(AmbienceKey),
    /// A sound was asked for directly; nothing is kept.
    Direct,
}

/// The next thing for the caller of an operation to do.
///
/// - `Load`: load the sound of the descriptor, then call `after_load` with
///   the asset or the backend's error.
/// - `Play`: start a playback of the asset, then call `after_play` with what
///   comes with the step and the handle or the backend's error.
/// - `Stop`: stop the playback, whether or not that succeeds, then call
///   `after_stop` with the key that comes with the step.
/// - `Done`: the operation is over, with this result.
#[derive(Debug)]
pub enum Step<A, H, E> {
    Load(OxAgSoundConfig),
    Play(A, AfterPlay),
    Stop(H, AmbienceKey),
    Done(Result<(), OxAgAudioToolError<E>>),
}

/// One call to the backend.
pub enum Call<A, H> {
    Load(OxAgSoundConfig),
    Play(A),
    Stop(H),
}

impl<A, H, E> Step<A, H, E> {
    /// How many backend calls can at most follow, this step's own included.
    pub open spec fn rank(self) -> nat {
        match self {
            Step::Load(_) => 2,
            Step::Play(_, AfterPlay::OneShot(_)) => 3,
            Step::Play(_, _) => 1,
            Step::Stop(_, _) => 2,
            Step::Done(_) => 0,
        }
    }
}

} // verus!
