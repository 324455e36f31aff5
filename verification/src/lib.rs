//! Event-reactive audio dispatch for a tile-based robot simulation.
//!
//! # Main features
//! - assign each tile type its own sound: the tool follows the changes of
//!   tile type and has the appropriate sound played
//! - assign each weather type its own sound, in the same way
//! - react to events with sound
//! - play any sound given by a descriptor
//!
//! The crate decides which sound has to start and which has to stop. It never
//! touches an audio device or a file itself: every operation is a small state
//! machine that hands out one backend request at a time (load a descriptor,
//! play an asset, stop a playback) and is resumed with the backend's answer.
//! What the operations do is stated over the models in [`model`] and
//! [`loader`]; [`laws`] holds what follows for whole operations.

pub mod audio_tool;
pub mod backend;
pub mod error;
pub mod event;
pub mod laws;
pub mod loader;
pub mod model;
pub mod sound_config;
pub mod sounds;
pub mod world;

pub use audio_tool::OxAgAudioTool;
