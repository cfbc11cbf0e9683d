//! A bidirectional message bridge between a media-playback engine and a host
//! application.
//!
//! The bridge's protocol core is sequential and fully verified: the inbound
//! command dispatch, the command encoder, the observation registrar, the
//! event translation step and the playback-state cache. The surrounding
//! concurrency plumbing (threads, channels, the engine binding itself) lives
//! outside the library and drives these functions.

pub mod bridge;
pub mod config;
pub mod encoder;
pub mod inbound;
pub mod messages;
pub mod playback;
pub mod registrar;
pub mod translator;
