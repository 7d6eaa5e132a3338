//! Playback bridge between a multimedia decoding engine and a host
//! application: media byte-source cursor, track snapshots, the video frame
//! handoff protocol, the bounded audio frame queue and the transport state
//! of a playback session.

pub mod audio;
pub mod events;
pub mod media_source;
pub mod session;
pub mod state;
pub mod track;
pub mod util;
pub mod video;
