//! HTTP/3 with realtime channels over QUIC.
//!
//! The library holds what such a server and such a client decide and compute: how requests
//! and answers are written and read, how messages travel in frames, who is a member of which
//! channel, and what is to be done next when something happens. Sockets, timers and QUIC
//! connections belong to the programs that use it: they do what a `step` function asks for
//! and hand back what came of it.

pub mod client;
pub mod config;
pub mod directory;
pub mod error;
pub mod http;
pub mod json;
pub mod laws;
pub mod listener;
pub mod realtime;
pub mod server;
pub mod text;
pub mod transport;

pub use config::QuicConfig;
pub use error::H3Error;
pub use realtime::{RealtimeChannel, RealtimeEvent, RealtimeMessage};
