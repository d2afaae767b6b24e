//! The realtime streams of one connection, on the side of the server: which streams are
//! read, how their bytes become messages, and what each message brings about.

use std::collections::HashMap;
use vstd::prelude::*;

use crate::realtime::channel::{
    law_others_untouched, members_of, recipients, subscribed, Channels,
};
use crate::realtime::frame::{frame_bodies, frame_body, frame_len, FrameBuffer};
use crate::realtime::message::{EventView, MessageView, RealtimeEvent, RealtimeMessage};

verus! {

broadcast use vstd::std_specs::hash::group_hash_axioms;

/// What a stream is used for.
#[derive(Debug, Clone, Copy, PartialEq, Eq, Structural)]
pub enum StreamType {
    /// Requests and their answers.
    Http3,
    /// Realtime messages.
    Realtime,
}

/// What is known of a stream.
#[derive(Debug)]
pub struct StreamMeta {
    pub stream_id: u64,
    pub stream_type: StreamType,
    /// The channel that the stream has joined.
    pub channel: Option<String>,
}

/// The streams of a connection of which something is known.
pub struct StreamTable {
    streams: HashMap<u64, StreamMeta>,
}

/// What is known of the streams of a connection.
pub type Streams = Map<u64, StreamMeta>;

/// Whether a stream is read for realtime messages. A stream of which nothing is known is.
pub open spec fn read_for_realtime(streams: Streams, stream_id: u64) -> bool {
    streams.contains_key(stream_id) ==> streams[stream_id].stream_type == StreamType::Realtime
}

/// The channel that a stream has joined.
pub open spec fn joined_channel(streams: Streams, stream_id: u64) -> Option<Seq<char>> {
    if streams.contains_key(stream_id) {
        match streams[stream_id].channel {
            Some(channel) => Some(channel@),
            None => None,
        }
    } else {
        None
    }
}

/// The streams once one of them has joined a channel.
pub open spec fn with_joined(streams: Streams, stream_id: u64, channel: String) -> Streams {
    streams.insert(
        stream_id,
        StreamMeta { stream_id, stream_type: StreamType::Realtime, channel: Some(channel) },
    )
}

impl View for StreamTable {
    type V = Streams;

    closed spec fn view(&self) -> Streams {
        self.streams@
    }
}

impl StreamTable {
    /// A table that knows of no stream.
    pub fn new() -> (t: StreamTable)
        ensures
            t@ == Map::<u64, StreamMeta>::empty(),
    {
        StreamTable { streams: HashMap::new() }
    }

    /// Notes what is known of a stream, in place of what was known before.
    pub fn insert(&mut self, meta: StreamMeta)
        ensures
            final(self)@ == old(self)@.insert(meta.stream_id, meta),
    {
        self.streams.insert(meta.stream_id, meta);
    }

    /// Notes that a stream has joined a channel.
    pub fn join(&mut self, stream_id: u64, channel: String)
        ensures
            final(self)@ == with_joined(old(self)@, stream_id, channel),
    {
        self.insert(
            StreamMeta { stream_id, stream_type: StreamType::Realtime, channel: Some(channel) },
        );
    }

    /// Whether a stream is read for realtime messages.
    pub fn reads_realtime(&self, stream_id: u64) -> (b: bool)
        ensures
            b == read_for_realtime(self@, stream_id),
    {
        match self.streams.get(&stream_id) {
            Some(meta) => meta.stream_type == StreamType::Realtime,
            None => true,
        }
    }

    /// The channel that a stream has joined.
    pub fn channel_of(&self, stream_id: u64) -> (channel: Option<String>)
        ensures
            match channel {
                Some(c) => joined_channel(self@, stream_id) == Some(c@),
                None => joined_channel(self@, stream_id) is None,
            },
    {
        match self.streams.get(&stream_id) {
            Some(meta) => match &meta.channel {
                Some(channel) => Some(channel.clone()),
                None => None,
            },
            None => None,
        }
    }
}

/// What the outside world answers to a step of reading the realtime streams.
pub enum ReadEvent {
    /// Reading begins.
    Start,
    /// The stream gave these bytes.
    Bytes(Vec<u8>),
    /// The stream had nothing to give, or failed.
    Nothing,
    /// The JSON of a frame was, or was not, a message.
    Decoded(Option<RealtimeMessage>),
    /// What a message brought about has been done.
    Applied,
}

/// What is to be done next.
pub enum ReadAction {
    /// Read from a stream.
    Read(u64),
    /// Decode the JSON of a frame.
    Decode(Vec<u8>),
    /// Make the connection a member of the channel, note that the stream has joined it,
    /// report the event, and from then on send the messages of the channel on the stream.
    Join { channel: String, conn_id: String, stream_id: u64, event: RealtimeEvent },
    /// Send the message to the members of the channel but for its sender, then report
    /// the event.
    Relay { channel: String, sender: String, msg: RealtimeMessage, event: RealtimeEvent },
    /// All streams have been read.
    Finish,
}

/// What the outside world answers, as plain values.
pub enum ReadEventView {
    Start,
    Bytes(Seq<u8>),
    Nothing,
    Decoded(Option<MessageView>),
    Applied,
}

/// What is to be done next, as plain values.
pub enum ReadActionView {
    Read(u64),
    Decode(Seq<u8>),
    Join { channel: Seq<char>, conn_id: Seq<char>, stream_id: u64, event: EventView },
    Relay { channel: Seq<char>, sender: Seq<char>, msg: MessageView, event: EventView },
    Finish,
}

impl View for ReadEvent {
    type V = ReadEventView;

    open spec fn view(&self) -> ReadEventView {
        match self {
            ReadEvent::Start => ReadEventView::Start,
            ReadEvent::Bytes(bytes) => ReadEventView::Bytes(bytes@),
            ReadEvent::Nothing => ReadEventView::Nothing,
            ReadEvent::Decoded(Some(msg)) => ReadEventView::Decoded(Some(msg@)),
            ReadEvent::Decoded(None) => ReadEventView::Decoded(None),
            ReadEvent::Applied => ReadEventView::Applied,
        }
    }
}

impl View for ReadAction {
    type V = ReadActionView;

    open spec fn view(&self) -> ReadActionView {
        match self {
            ReadAction::Read(stream_id) => ReadActionView::Read(*stream_id),
            ReadAction::Decode(json) => ReadActionView::Decode(json@),
            ReadAction::Join { channel, conn_id, stream_id, event } => ReadActionView::Join {
                channel: channel@,
                conn_id: conn_id@,
                stream_id: *stream_id,
                event: event@,
            },
            ReadAction::Relay { channel, sender, msg, event } => ReadActionView::Relay {
                channel: channel@,
                sender: sender@,
                msg: msg@,
                event: event@,
            },
            ReadAction::Finish => ReadActionView::Finish,
        }
    }
}

/// How far the reading of the realtime streams has come.
pub struct ReadState {
    /// The connection whose streams are read.
    pub conn_id: Seq<char>,
    /// The stream that is being read.
    pub current: u64,
    /// The streams that are still to be read.
    pub pending: Seq<u64>,
    /// What has arrived on each stream and is not yet taken as messages.
    pub buffers: Map<u64, Seq<u8>>,
}

/// What has arrived on a stream and is not yet taken as messages.
pub open spec fn stream_buffer(buffers: Map<u64, Seq<u8>>, stream_id: u64) -> Seq<u8> {
    if buffers.contains_key(stream_id) {
        buffers[stream_id]
    } else {
        Seq::empty()
    }
}

/// The pending streams from the first on that is read for realtime messages.
pub open spec fn from_first_read(streams: Streams, pending: Seq<u64>) -> Seq<u64>
    decreases pending.len(),
{
    if pending.len() == 0 || read_for_realtime(streams, pending[0]) {
        pending
    } else {
        from_first_read(streams, pending.drop_first())
    }
}

/// Reading goes on with the next stream.
pub open spec fn next_stream(s: ReadState, streams: Streams) -> (ReadState, ReadActionView) {
    let left = from_first_read(streams, s.pending);
    if left.len() == 0 {
        (ReadState { pending: left, ..s }, ReadActionView::Finish)
    } else {
        (
            ReadState { current: left[0], pending: left.drop_first(), ..s },
            ReadActionView::Read(left[0]),
        )
    }
}

/// Reading goes on with the next frame of the stream, or with the next stream.
pub open spec fn next_frame(s: ReadState, streams: Streams) -> (ReadState, ReadActionView) {
    match frame_body(stream_buffer(s.buffers, s.current)) {
        Some(json) => (s, ReadActionView::Decode(json)),
        None => next_stream(s, streams),
    }
}

/// What is left of a buffer behind its first frame.
pub open spec fn past_frame(buffer: Seq<u8>) -> Seq<u8> {
    match frame_body(buffer) {
        Some(json) => buffer.skip(frame_len(json)),
        None => buffer,
    }
}

/// What a message on a stream brings about. A message that asks to join makes the
/// connection join the channel it names. Any other message goes to the channel that the
/// stream has joined; on a stream that has joined none it is dropped.
pub open spec fn message_action(
    streams: Streams,
    conn_id: Seq<char>,
    stream_id: u64,
    msg: MessageView,
) -> Option<ReadActionView> {
    if msg.event == "join"@ {
        Some(
            ReadActionView::Join {
                channel: msg.channel,
                conn_id,
                stream_id,
                event: EventView::Join { conn_id, channel: msg.channel, stream_id },
            },
        )
    } else {
        match joined_channel(streams, stream_id) {
            Some(channel) => Some(
                ReadActionView::Relay {
                    channel,
                    sender: conn_id,
                    msg,
                    event: EventView::Message { conn_id, stream_id, msg },
                },
            ),
            None => None,
        }
    }
}

/// One step of reading the realtime streams.
pub open spec fn read_step(s: ReadState, streams: Streams, event: ReadEventView) -> (
    ReadState,
    ReadActionView,
) {
    match event {
        ReadEventView::Start | ReadEventView::Nothing | ReadEventView::Decoded(None) => {
            next_stream(s, streams)
        },
        ReadEventView::Bytes(bytes) => {
            let buffer = stream_buffer(s.buffers, s.current) + bytes;
            next_frame(ReadState { buffers: s.buffers.insert(s.current, buffer), ..s }, streams)
        },
        ReadEventView::Decoded(Some(msg)) => {
            let buffer = past_frame(stream_buffer(s.buffers, s.current));
            let after = ReadState { buffers: s.buffers.insert(s.current, buffer), ..s };
            match message_action(streams, s.conn_id, s.current, msg) {
                Some(action) => (after, action),
                None => next_frame(after, streams),
            }
        },
        ReadEventView::Applied => next_frame(s, streams),
    }
}

/// What is kept of the buffers when some streams are about to be read again. What has arrived
/// of a frame that is still incomplete is kept. A frame that is complete was left because it
/// holds no message: it is dropped, with what lies behind it.
pub open spec fn carried_over(buffers: Map<u64, Seq<u8>>, readable: Seq<u64>) -> Map<
    u64,
    Seq<u8>,
> {
    Map::new(
        |id: u64|
            buffers.contains_key(id) && !(readable.contains(id) && frame_body(buffers[id])
                is Some),
        |id: u64| buffers[id],
    )
}

/// Reads the realtime streams of a connection that have something to give.
pub struct RealtimeStreams {
    conn_id: String,
    current: u64,
    readable: Vec<u64>,
    next: usize,
    buffers: HashMap<u64, FrameBuffer>,
}

impl View for RealtimeStreams {
    type V = ReadState;

    closed spec fn view(&self) -> ReadState {
        ReadState {
            conn_id: self.conn_id@,
            current: self.current,
            pending: self.readable@.skip(self.next as int),
            buffers: self.buffers@.map_values(|b: FrameBuffer| b@),
        }
    }
}

impl RealtimeStreams {
    /// The streams that are still to be read are among those that had something to give.
    pub closed spec fn wf(&self) -> bool {
        self.next <= self.readable@.len()
    }

    /// Is about to read the given streams of a connection, in order.
    pub fn new(conn_id: &str, readable: Vec<u64>) -> (r: RealtimeStreams)
        ensures
            r.wf(),
            r@ == (ReadState {
                conn_id: conn_id@,
                current: 0,
                pending: readable@,
                buffers: Map::<u64, Seq<u8>>::empty(),
            }),
    {
        let r = RealtimeStreams {
            conn_id: String::from(conn_id),
            current: 0,
            readable,
            next: 0,
            buffers: HashMap::new(),
        };
        assert(r@.pending =~= readable@);
        assert(r@.buffers =~= Map::<u64, Seq<u8>>::empty());
        r
    }

    /// Is about to read the given streams of the connection, in order, and goes on with what
    /// has arrived before of frames that are still incomplete.
    pub fn resume(&mut self, readable: Vec<u64>)
        requires
            old(self).wf(),
        ensures
            final(self).wf(),
            final(self)@ == (ReadState {
                pending: readable@,
                buffers: carried_over(old(self)@.buffers, readable@),
                ..old(self)@
            }),
    {
        let ghost before = self@.buffers;
        let mut i: usize = 0;
        assert(before =~= carried_over(before, readable@.take(0)));
        while i < readable.len()
            invariant
                self.wf(),
                before == old(self)@.buffers,
                i <= readable@.len(),
                self@ == (ReadState {
                    buffers: carried_over(before, readable@.take(i as int)),
                    ..old(self)@
                }),
            decreases readable@.len() - i,
        {
            let stream_id: u64 = readable[i];
            let stuck: bool = match self.buffers.get(&stream_id) {
                Some(buffer) => buffer.peek().is_some(),
                None => false,
            };
            let ghost kept = self@.buffers;
            assert(stuck == (kept.contains_key(stream_id) && frame_body(kept[stream_id]) is Some));
            if stuck {
                self.buffers.remove(&stream_id);
                assert(self@.buffers =~= kept.remove(stream_id));
            }
            proof {
                let taken = readable@.take(i as int);
                assert(readable@.take(i + 1) == taken.push(stream_id));
                assert forall|id: u64| #[trigger]
                    readable@.take(i + 1).contains(id) == (taken.contains(id) || id == stream_id) by {
                    if taken.contains(id) {
                        let k = choose|k: int| 0 <= k < taken.len() && taken[k] == id;
                        assert(taken.push(stream_id)[k] == id);
                    }
                    assert(taken.push(stream_id)[i as int] == stream_id);
                }
                assert(self@.buffers =~= carried_over(before, readable@.take(i + 1)));
            }
            i = i + 1;
        }
        assert(readable@.take(i as int) == readable@);
        self.readable = readable;
        self.next = 0;
        assert(self@.pending =~= readable@);
        assert(self@.buffers == carried_over(before, readable@));
    }

    fn take_buffer(&mut self) -> (buffer: FrameBuffer)
        requires
            old(self).wf(),
        ensures
            final(self).wf(),
            buffer@ == stream_buffer(old(self)@.buffers, old(self)@.current),
            final(self)@ == (ReadState {
                buffers: old(self)@.buffers.remove(old(self)@.current),
                ..old(self)@
            }),
    {
        let current: u64 = self.current;
        let buffer = match self.buffers.remove(&current) {
            Some(buffer) => buffer,
            None => FrameBuffer::new(),
        };
        assert(self@.buffers =~= old(self)@.buffers.remove(old(self)@.current));
        buffer
    }

    fn put_buffer(&mut self, buffer: FrameBuffer)
        requires
            old(self).wf(),
        ensures
            final(self).wf(),
            final(self)@ == (ReadState {
                buffers: old(self)@.buffers.insert(old(self)@.current, buffer@),
                ..old(self)@
            }),
    {
        let current: u64 = self.current;
        self.buffers.insert(current, buffer);
        assert(self@.buffers =~= old(self)@.buffers.insert(old(self)@.current, buffer@));
    }

    fn go_to_stream(&mut self, streams: &StreamTable) -> (action: ReadAction)
        requires
            old(self).wf(),
        ensures
            final(self).wf(),
            (final(self)@, action@) == next_stream(old(self)@, streams@),
    {
        let ghost start = self@;
        while self.next < self.readable.len()
            invariant
                self.wf(),
                start == old(self)@,
                self@ == (ReadState { pending: self@.pending, ..start }),
                from_first_read(streams@, self@.pending) == from_first_read(
                    streams@,
                    start.pending,
                ),
            decreases self.readable@.len() - self.next,
        {
            let stream_id: u64 = self.readable[self.next];
            let ghost pending = self@.pending;
            assert(pending[0] == stream_id);
            self.next = self.next + 1;
            assert(self@.pending =~= pending.drop_first());
            if streams.reads_realtime(stream_id) {
                self.current = stream_id;
                return ReadAction::Read(stream_id);
            }
        }
        assert(self@.pending.len() == 0);
        ReadAction::Finish
    }

    fn go_to_frame(&mut self, streams: &StreamTable) -> (action: ReadAction)
        requires
            old(self).wf(),
        ensures
            final(self).wf(),
            (final(self)@, action@) == next_frame(old(self)@, streams@),
    {
        let current: u64 = self.current;
        let json: Option<Vec<u8>> = match self.buffers.get(&current) {
            Some(buffer) => buffer.peek(),
            None => None,
        };
        match json {
            Some(json) => ReadAction::Decode(json),
            None => self.go_to_stream(streams),
        }
    }

    /// Takes in what the outside world answered to the last action, and says what is to be
    /// done next.
    pub fn step(&mut self, streams: &StreamTable, event: ReadEvent) -> (action: ReadAction)
        requires
            old(self).wf(),
        ensures
            final(self).wf(),
            (final(self)@, action@) == read_step(old(self)@, streams@, event@),
    {
        match event {
            ReadEvent::Start | ReadEvent::Nothing | ReadEvent::Decoded(None) => self.go_to_stream(
                streams,
            ),
            ReadEvent::Bytes(bytes) => {
                let mut buffer = self.take_buffer();
                buffer.extend(bytes.as_slice());
                self.put_buffer(buffer);
                assert(self@.buffers =~= read_step(old(self)@, streams@, event@).0.buffers);
                self.go_to_frame(streams)
            },
            ReadEvent::Decoded(Some(msg)) => {
                let mut buffer = self.take_buffer();
                buffer.advance();
                self.put_buffer(buffer);
                assert(self@.buffers =~= old(self)@.buffers.insert(
                    old(self)@.current,
                    past_frame(stream_buffer(old(self)@.buffers, old(self)@.current)),
                ));
                let stream_id: u64 = self.current;
                if msg.event == String::from("join") {
                    let channel = msg.channel.clone();
                    ReadAction::Join {
                        channel: channel.clone(),
                        conn_id: self.conn_id.clone(),
                        stream_id,
                        event: RealtimeEvent::Join {
                            conn_id: self.conn_id.clone(),
                            channel,
                            stream_id,
                        },
                    }
                } else {
                    match streams.channel_of(stream_id) {
                        Some(channel) => ReadAction::Relay {
                            channel,
                            sender: self.conn_id.clone(),
                            msg: msg.clone(),
                            event: RealtimeEvent::Message {
                                conn_id: self.conn_id.clone(),
                                stream_id,
                                msg,
                            },
                        },
                        None => self.go_to_frame(streams),
                    }
                }
            },
            ReadEvent::Applied => self.go_to_frame(streams),
        }
    }
}

/// A message on a stream that has joined a channel, other than one that asks to join, goes
/// to that channel with the connection as its sender.
pub proof fn law_joined_stream_relays(
    streams: Streams,
    conn_id: Seq<char>,
    stream_id: u64,
    channel: String,
    msg: MessageView,
)
    requires
        msg.event != "join"@,
    ensures
        message_action(with_joined(streams, stream_id, channel), conn_id, stream_id, msg) == Some(
            ReadActionView::Relay {
                channel: channel@,
                sender: conn_id,
                msg,
                event: EventView::Message { conn_id, stream_id, msg },
            },
        ),
{
}

/// What a member says on a channel reaches every other member and not itself: once a
/// connection has joined a channel on a stream, a message on that stream, other than one
/// that asks to join, goes to whoever has joined the channel before or after.
pub proof fn law_message_reaches_the_others<S>(
    channels: Channels<S>,
    streams: Streams,
    conn_id: Seq<char>,
    stream_id: u64,
    channel: String,
    subscriber: S,
    other: Seq<char>,
    msg: MessageView,
)
    requires
        other != conn_id,
        members_of(channels, channel@).contains_key(other),
        msg.event != "join"@,
    ensures
        ({
            let joined = subscribed(channels, channel@, conn_id, subscriber);
            let action = message_action(
                with_joined(streams, stream_id, channel),
                conn_id,
                stream_id,
                msg,
            );
            action matches Some(ReadActionView::Relay { channel: to, sender, msg: sent, event })
                && sent == msg && recipients(joined, to, Some(sender)).contains(other)
                && !recipients(joined, to, Some(sender)).contains(conn_id)
        }),
{
    law_others_untouched(channels, channel@, conn_id, subscriber, channel@, other);
}

/// A stream that has joined no channel sends no message to anybody.
pub proof fn law_unjoined_stream_is_silent(
    streams: Streams,
    conn_id: Seq<char>,
    stream_id: u64,
    msg: MessageView,
)
    requires
        joined_channel(streams, stream_id) is None,
    ensures
        message_action(streams, conn_id, stream_id, msg) is Some ==> msg.event == "join"@,
        !(message_action(streams, conn_id, stream_id, msg) matches Some(a) && a is Relay),
{
}

/// That one stream joins a channel changes nothing for the others.
pub proof fn law_join_concerns_one_stream(
    streams: Streams,
    conn_id: Seq<char>,
    stream_id: u64,
    channel: String,
    other: u64,
    msg: MessageView,
)
    requires
        other != stream_id,
    ensures
        message_action(with_joined(streams, stream_id, channel), conn_id, other, msg)
            == message_action(streams, conn_id, other, msg),
        read_for_realtime(with_joined(streams, stream_id, channel), other) == read_for_realtime(
            streams,
            other,
        ),
{
}

/// Only streams that are passed over lie before the one that is read next.
proof fn lemma_from_first_read(streams: Streams, pending: Seq<u64>) -> (skipped: int)
    ensures
        0 <= skipped <= pending.len(),
        from_first_read(streams, pending) == pending.skip(skipped),
        forall|i: int| 0 <= i < skipped ==> !read_for_realtime(streams, #[trigger] pending[i]),
        skipped < pending.len() ==> read_for_realtime(streams, pending[skipped]),
    decreases pending.len(),
{
    if pending.len() == 0 || read_for_realtime(streams, pending[0]) {
        assert(pending.skip(0) == pending);
        0
    } else {
        let rest = pending.drop_first();
        let skipped = lemma_from_first_read(streams, rest);
        assert(rest.skip(skipped) == pending.skip(skipped + 1));
        assert forall|i: int| 0 <= i < skipped + 1 implies !read_for_realtime(
            streams,
            #[trigger] pending[i],
        ) by {
            if i > 0 {
                assert(rest[i - 1] == pending[i]);
            }
        }
        skipped + 1
    }
}

/// Streams are read in the order given. A stream known to carry something else than
/// realtime messages is never read, and no other stream is passed over.
pub proof fn law_streams_read_in_order(s: ReadState, streams: Streams)
    ensures
        match next_stream(s, streams) {
            (after, ReadActionView::Read(stream_id)) => exists|k: int|
                #![trigger s.pending[k]]
                {
                    &&& 0 <= k < s.pending.len()
                    &&& s.pending[k] == stream_id
                    &&& read_for_realtime(streams, stream_id)
                    &&& after.current == stream_id
                    &&& after.pending == s.pending.skip(k + 1)
                    &&& forall|i: int|
                        0 <= i < k ==> !read_for_realtime(streams, #[trigger] s.pending[i])
                },
            (after, action) => action == ReadActionView::Finish && forall|i: int|
                0 <= i < s.pending.len() ==> !read_for_realtime(streams, #[trigger] s.pending[i]),
        },
{
    let k = lemma_from_first_read(streams, s.pending);
    if k < s.pending.len() {
        assert(s.pending.skip(k)[0] == s.pending[k]);
        assert(s.pending.skip(k).drop_first() == s.pending.skip(k + 1));
    }
}

/// The frames of a stream are decoded in the order in which they arrived. What is handed
/// out for decoding is the first complete frame; once it has proved a message, the rest
/// of the frames is still to come, and the streams other than this one are as they were.
pub proof fn law_frames_decoded_in_order(
    s: ReadState,
    streams: Streams,
    json: Seq<u8>,
    msg: MessageView,
    other: u64,
)
    requires
        next_frame(s, streams) == (s, ReadActionView::Decode(json)),
        other != s.current,
    ensures
        ({
            let before = stream_buffer(s.buffers, s.current);
            let after = read_step(s, streams, ReadEventView::Decoded(Some(msg))).0;
            &&& frame_bodies(before).len() > 0
            &&& frame_bodies(before)[0] == json
            &&& stream_buffer(after.buffers, s.current) == before.skip(frame_len(json))
            &&& frame_bodies(stream_buffer(after.buffers, s.current)) == frame_bodies(
                before,
            ).drop_first()
            &&& stream_buffer(after.buffers, other) == stream_buffer(s.buffers, other)
        }),
{
    let before = stream_buffer(s.buffers, s.current);
    assert(frame_body(before) == Some(json));
    let rest = frame_bodies(before.skip(frame_len(json)));
    assert(frame_bodies(before) == seq![json] + rest);
    assert((seq![json] + rest).drop_first() =~= rest);
}

/// A frame that is cut in two is put together: what arrived of it before the streams were
/// read again stands in front of what arrives then, and the messages are those of the two
/// pieces joined.
pub proof fn law_cut_frame_is_put_together(
    s: ReadState,
    streams: Streams,
    readable: Seq<u64>,
    stream_id: u64,
    rest: Seq<u8>,
)
    requires
        frame_body(stream_buffer(s.buffers, stream_id)) is None,
    ensures
        ({
            let piece = stream_buffer(s.buffers, stream_id);
            let resumed = ReadState {
                current: stream_id,
                pending: readable,
                buffers: carried_over(s.buffers, readable),
                ..s
            };
            let after = read_step(resumed, streams, ReadEventView::Bytes(rest));
            &&& stream_buffer(resumed.buffers, stream_id) == piece
            &&& stream_buffer(after.0.buffers, stream_id) == piece + rest
            &&& frame_body(piece + rest) matches Some(json) ==> after.1 == ReadActionView::Decode(
                json,
            )
        }),
{
}

/// A frame that holds no message is left where it is, and reading goes on with the next
/// stream.
pub proof fn law_undecodable_frame_stays(s: ReadState, streams: Streams)
    ensures
        read_step(s, streams, ReadEventView::Decoded(None)).0.buffers == s.buffers,
        read_step(s, streams, ReadEventView::Decoded(None)) == next_stream(s, streams),
{
}

} // verus!
