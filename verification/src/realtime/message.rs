//! Messages of a realtime stream and what is reported of them.

use vstd::prelude::*;

verus! {

/// A message on a channel.
#[derive(Debug)]
pub struct RealtimeMessage {
    pub event: String,
    pub channel: String,
    pub payload: serde_json::Value,
}

/// What a message says.
pub struct MessageView {
    pub event: Seq<char>,
    pub channel: Seq<char>,
    pub payload: serde_json::Value,
}

impl View for RealtimeMessage {
    type V = MessageView;

    open spec fn view(&self) -> MessageView {
        MessageView { event: self.event@, channel: self.channel@, payload: self.payload }
    }
}

impl RealtimeMessage {
    /// A message with the given event, channel and payload.
    pub fn new<E: Into<String>, C: Into<String>>(
        event: E,
        channel: C,
        payload: serde_json::Value,
    ) -> (m: RealtimeMessage)
        ensures
            call_ensures(<E as Into<String>>::into, (event,), m.event),
            call_ensures(<C as Into<String>>::into, (channel,), m.channel),
            m.payload == payload,
    {
        RealtimeMessage { event: event.into(), channel: channel.into(), payload }
    }
}

impl Clone for RealtimeMessage {
    fn clone(&self) -> (m: RealtimeMessage)
        ensures
            m@ == self@,
    {
        RealtimeMessage {
            event: self.event.clone(),
            channel: self.channel.clone(),
            payload: self.payload.clone(),
        }
    }
}

/// What happened on the realtime streams of a connection.
#[derive(Debug, Clone)]
pub enum RealtimeEvent {
    /// A connection joined a channel on one of its streams.
    Join { conn_id: String, channel: String, stream_id: u64 },
    /// A connection left a channel.
    Leave { conn_id: String, channel: String },
    /// A connection sent a message on a stream that has joined a channel.
    Message { conn_id: String, stream_id: u64, msg: RealtimeMessage },
    /// A connection is gone.
    Disconnected { conn_id: String },
}

/// What an event reports.
pub enum EventView {
    Join { conn_id: Seq<char>, channel: Seq<char>, stream_id: u64 },
    Leave { conn_id: Seq<char>, channel: Seq<char> },
    Message { conn_id: Seq<char>, stream_id: u64, msg: MessageView },
    Disconnected { conn_id: Seq<char> },
}

impl View for RealtimeEvent {
    type V = EventView;

    open spec fn view(&self) -> EventView {
        match self {
            RealtimeEvent::Join { conn_id, channel, stream_id } => EventView::Join {
                conn_id: conn_id@,
                channel: channel@,
                stream_id: *stream_id,
            },
            RealtimeEvent::Leave { conn_id, channel } => EventView::Leave {
                conn_id: conn_id@,
                channel: channel@,
            },
            RealtimeEvent::Message { conn_id, stream_id, msg } => EventView::Message {
                conn_id: conn_id@,
                stream_id: *stream_id,
                msg: msg@,
            },
            RealtimeEvent::Disconnected { conn_id } => EventView::Disconnected {
                conn_id: conn_id@,
            },
        }
    }
}

} // verus!
