//! Playback control core of a remote-controllable audio jukebox.
//!
//! The library owns the command-driven state machine of one playback
//! session: an ordered playlist with a current-position cursor, the
//! bounded retry/backoff policy that turns a track into a verified
//! stream URL, and the orchestrator that reacts to commands and to
//! end-of-stream events.  The control-plane server, the HTTP calls and
//! the media engine live outside; they hand plain values in and carry
//! the decided actions out.

pub mod audio_player;
pub mod command;
pub mod errors;
pub mod network;
pub mod play_list;
pub mod state;
pub mod verify;
