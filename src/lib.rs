//! Coordination core of a hotkey-driven audio player: a playlist with a
//! wrapping cursor, a session lock that both excludes a second playback and
//! signals cancellation, and the state machine of one playback session.

pub mod lock;
pub mod player;
pub mod playlist;
pub mod session;
