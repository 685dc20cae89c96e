//! Audio mixing console streaming: the wire protocol, the audio buffer model,
//! the mute/dim control state, the command line grammar and the configuration
//! model, with their contracts.

pub mod wire;
pub mod protocol;
pub mod error;
pub mod audio_buffer;
pub mod datagram;
pub mod mute;
pub mod config;
pub mod cli;
pub mod receiver;
pub mod capture;
pub mod discovery;
pub mod setup;
pub mod console;
pub mod link;
pub mod pidfile;
pub mod sequence;
pub mod jitter;
