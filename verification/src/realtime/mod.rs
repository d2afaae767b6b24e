//! Channels and the streams on which their messages travel.

pub mod channel;
pub mod frame;
pub mod message;
pub mod reader;
pub mod stream;

pub use channel::RealtimeChannel;
pub use frame::{encode_realtime_frame, parse_realtime_frame};
pub use message::{RealtimeEvent, RealtimeMessage};
