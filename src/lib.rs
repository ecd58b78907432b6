//! Per-guild voice playback sessions: an ordered track queue per guild,
//! a join/leave state machine, lazy track resolution, an idle-channel
//! watcher and a plain-text queue renderer.
//!
//! The library decides; the caller performs. Every operation is a step on
//! a `SessionTable` that says what the transport is to do next (open a
//! connection, play or stop a track, close a connection), and the caller
//! reports back what happened. Playing a track always takes an explicit
//! `join` first: enqueueing never joins a channel by itself.

pub mod text;
pub mod track;
pub mod queue;
pub mod session;
pub mod render;
pub mod watcher;
pub mod laws;
pub mod config;
