//! A per-guild playback queue engine for a voice chat bot.
//!
//! The crate holds the parts of the bot that decide something: the queue of
//! tracks of one guild and its playback state, the registry that gives every
//! guild its own queue, the store of named playlists, and the rendering of
//! durations and listings. Talking to the chat gateway, the voice connection
//! and the disk is left to the program around it.

pub mod duration;
pub mod error;
pub mod laws;
pub mod listing;
pub mod loading;
pub mod playlist;
pub mod queue;
pub mod registry;
pub mod store;
pub mod text;
pub mod track;

pub use duration::format_duration;
pub use error::PlayerError;
pub use loading::Resolution;
pub use queue::{PlaybackQueue, PlaybackState, QueueSnapshot};
pub use registry::GuildQueueRegistry;
pub use store::PlaylistStore;
pub use track::Track;
