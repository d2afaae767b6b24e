//! The realtime stream of a client: how packets become messages for its user.

use vstd::prelude::*;

use crate::realtime::frame::{
    frame_bodies, frame_body, frame_len, law_chunks_do_not_matter, unframed, FrameBuffer,
};
use crate::realtime::message::{MessageView, RealtimeMessage};
use crate::realtime::stream::past_frame;
use crate::transport::SendOutcome;

verus! {

/// The message that a client sends on its realtime stream. It names no channel: the stream
/// has joined one.
pub fn stream_message(event: &str, payload: serde_json::Value) -> (m: RealtimeMessage)
    ensures
        m@ == (MessageView { event: event@, channel: ""@, payload }),
{
    RealtimeMessage::new(event, "", payload)
}

/// What the outside world answers to a step of the reader.
pub enum ReaderEvent {
    /// A packet was received.
    Received,
    /// The socket failed.
    SocketFailed,
    /// The connection has taken the packet in, or refused it.
    Fed,
    /// What asking the connection for a packet came to.
    Sent(SendOutcome),
    /// The packet has been sent, or could not be sent.
    Transmitted,
    /// The stream gave these bytes.
    Bytes(Vec<u8>),
    /// The stream has nothing to give yet.
    Nothing,
    /// The stream failed.
    StreamFailed,
    /// The JSON of a frame was, or was not, a message.
    Decoded(Option<RealtimeMessage>),
    /// Whether the user is still there to take the message.
    Delivered(bool),
}

/// What the reader is to do next.
pub enum ReaderAction {
    /// Receive a packet.
    Receive,
    /// Hand the packet to the connection.
    Feed,
    /// Ask the connection for a packet to send.
    Send,
    /// Send a packet of this length.
    Transmit(usize),
    /// Read from the stream.
    ReadStream,
    /// Decode the JSON of a frame.
    Decode(Vec<u8>),
    /// Hand a message to the user.
    Deliver(RealtimeMessage),
    /// There will be no more messages.
    Stop,
}

/// What has arrived on the stream and is not yet taken as messages, once an event has been
/// taken in.
pub open spec fn reader_after(buffer: Seq<u8>, event: ReaderEvent) -> Seq<u8> {
    match event {
        ReaderEvent::Bytes(bytes) => buffer + bytes@,
        ReaderEvent::Decoded(Some(_)) => past_frame(buffer),
        _ => buffer,
    }
}

/// Whether an action decodes the first frame of a buffer, or waits for more packets where
/// no frame has arrived in full.
pub open spec fn takes_frame(buffer: Seq<u8>, action: ReaderAction) -> bool {
    match frame_body(buffer) {
        Some(body) => action matches ReaderAction::Decode(json) && json@ == body,
        None => action == ReaderAction::Receive,
    }
}

/// Whether an action is the one that follows an event.
pub open spec fn reader_action(buffer: Seq<u8>, event: ReaderEvent, action: ReaderAction) -> bool {
    match event {
        ReaderEvent::Received => action == ReaderAction::Feed,
        ReaderEvent::SocketFailed => action == ReaderAction::Stop,
        ReaderEvent::Fed => action == ReaderAction::Send,
        ReaderEvent::Sent(SendOutcome::Wrote(len)) => action == ReaderAction::Transmit(len),
        ReaderEvent::Sent(SendOutcome::Done) => action == ReaderAction::ReadStream,
        ReaderEvent::Sent(SendOutcome::Failed(_)) => action == ReaderAction::ReadStream,
        ReaderEvent::Transmitted => action == ReaderAction::Send,
        ReaderEvent::Bytes(bytes) => takes_frame(buffer + bytes@, action),
        ReaderEvent::Nothing => action == ReaderAction::Receive,
        ReaderEvent::StreamFailed => action == ReaderAction::Stop,
        ReaderEvent::Decoded(Some(msg)) => action == ReaderAction::Deliver(msg),
        ReaderEvent::Decoded(None) => action == ReaderAction::Receive,
        ReaderEvent::Delivered(true) => takes_frame(buffer, action),
        ReaderEvent::Delivered(false) => action == ReaderAction::Stop,
    }
}

/// Reads the messages of one realtime stream.
pub struct RealtimeReader {
    buffer: FrameBuffer,
}

impl View for RealtimeReader {
    type V = Seq<u8>;

    closed spec fn view(&self) -> Seq<u8> {
        self.buffer@
    }
}

impl RealtimeReader {
    /// A reader that is about to receive its first packet.
    pub fn new() -> (r: RealtimeReader)
        ensures
            r@ == Seq::<u8>::empty(),
    {
        RealtimeReader { buffer: FrameBuffer::new() }
    }

    fn next_frame(&self) -> (action: ReaderAction)
        ensures
            takes_frame(self@, action),
    {
        match self.buffer.peek() {
            Some(json) => ReaderAction::Decode(json),
            None => ReaderAction::Receive,
        }
    }

    /// Takes in what the outside world answered to the last action, and says what is to be
    /// done next.
    pub fn step(&mut self, event: ReaderEvent) -> (action: ReaderAction)
        ensures
            final(self)@ == reader_after(old(self)@, event),
            reader_action(old(self)@, event, action),
    {
        match event {
            ReaderEvent::Received => ReaderAction::Feed,
            ReaderEvent::SocketFailed => ReaderAction::Stop,
            ReaderEvent::Fed => ReaderAction::Send,
            ReaderEvent::Sent(SendOutcome::Wrote(len)) => ReaderAction::Transmit(len),
            ReaderEvent::Sent(SendOutcome::Done) => ReaderAction::ReadStream,
            ReaderEvent::Sent(SendOutcome::Failed(_)) => ReaderAction::ReadStream,
            ReaderEvent::Transmitted => ReaderAction::Send,
            ReaderEvent::Bytes(bytes) => {
                self.buffer.extend(bytes.as_slice());
                self.next_frame()
            },
            ReaderEvent::Nothing => ReaderAction::Receive,
            ReaderEvent::StreamFailed => ReaderAction::Stop,
            ReaderEvent::Decoded(Some(msg)) => {
                self.buffer.advance();
                ReaderAction::Deliver(msg)
            },
            ReaderEvent::Decoded(None) => ReaderAction::Receive,
            ReaderEvent::Delivered(there) => {
                if there {
                    self.next_frame()
                } else {
                    ReaderAction::Stop
                }
            },
        }
    }
}

/// The reader hands out the frames of the stream one after the other: what is decoded next
/// is the first of them, and once it has proved a message the others are still to come.
pub proof fn law_reader_takes_frames_in_order(
    buffer: Seq<u8>,
    json: Vec<u8>,
    msg: RealtimeMessage,
)
    requires
        takes_frame(buffer, ReaderAction::Decode(json)),
    ensures
        frame_bodies(buffer).len() > 0,
        frame_bodies(buffer)[0] == json@,
        frame_bodies(reader_after(buffer, ReaderEvent::Decoded(Some(msg)))) == frame_bodies(
            buffer,
        ).drop_first(),
{
    let rest = frame_bodies(buffer.skip(frame_len(json@)));
    assert(frame_bodies(buffer) == seq![json@] + rest);
    assert((seq![json@] + rest).drop_first() =~= rest);
}

/// The reader loses nothing: what is still to come of a stream is what was to come before,
/// followed by the frames that the new bytes complete.
pub proof fn law_reader_loses_nothing(buffer: Seq<u8>, bytes: Vec<u8>)
    ensures
        frame_bodies(reader_after(buffer, ReaderEvent::Bytes(bytes))) == frame_bodies(buffer)
            + frame_bodies(unframed(buffer) + bytes@),
{
    law_chunks_do_not_matter(buffer, bytes@);
}

/// A message reaches the user only where its frame proved to be one, and the reader ends
/// only where the socket or the stream fails or where the user is gone.
pub proof fn law_reader_delivers_and_ends(
    buffer: Seq<u8>,
    event: ReaderEvent,
    action: ReaderAction,
)
    requires
        reader_action(buffer, event, action),
    ensures
        action matches ReaderAction::Deliver(msg) ==> event == ReaderEvent::Decoded(Some(msg)),
        action == ReaderAction::Stop <==> event == ReaderEvent::SocketFailed || event
            == ReaderEvent::StreamFailed || event == ReaderEvent::Delivered(false),
{
}

} // verus!
