//! The laws of the library: what holds of every queue, registry, playlist
//! and duration, stated over their plain values and proved once.

pub mod duration;
pub mod loading;
pub mod playlist;
pub mod queue;
pub mod registry;
pub mod store;
