//! Stream hub library for a live-media relay server.
//!
//! The hub matches publishers to subscribers by stream identity, owns the
//! lifecycle of each live stream, fans media units out to subscribers and
//! maintains per-stream traffic statistics.

pub mod auth;
pub mod channel;
pub mod config;
pub mod define;
pub mod entrypoint;
pub mod handler;
pub mod hub;
pub mod identifier;
pub mod laws;
pub mod session;
pub mod statistics;
pub mod utils;
pub mod webrtc;

pub use identifier::{ProtocolKind, StreamIdentifier};
pub use utils::Uuid;
