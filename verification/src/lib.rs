//! Orchestration core of a voice-following audio-cast bot.
//!
//! The bot casts audio from a personal streaming session into a voice channel
//! of a group-communication platform, following one designated user between
//! channels. This crate holds the verified core: classification of raw
//! voice-state notifications, the follow state machine that turns voice
//! transitions and playback events into intents for the external
//! collaborators, the connection manager that keeps at most one voice
//! connection per guild, and the presence publisher model. The host process
//! around it performs the actual gateway, transport and playback-session
//! calls and feeds plain values in and out.

use vstd::prelude::*;

pub mod commands;
pub mod config;
pub mod connection;
pub mod follow;
pub mod laws;
pub mod log_config;
pub mod logging;
pub mod presence;
pub mod text;
pub mod transition;

verus! {

/// Marker type under which the tracked user's identity is registered in the
/// host process's shared context at startup.
pub struct UserIdKey;

} // verus!
