//! Laws of the realtime streams of a server.

use vstd::prelude::*;

use crate::laws::framing::lemma_frames;
use crate::laws::words::{behind_frame, front_frame, has_frame, waiting};
use crate::realtime::message::{EventView, MessageView, RealtimeEvent, RealtimeMessage};
use crate::realtime::stream::{
    from_first_read, law_streams_read_in_order, next_frame, next_stream, past_frame, read_step,
    ReadAction, ReadActionView, ReadEvent, ReadEventView, ReadState, RealtimeStreams, StreamMeta,
    StreamTable, StreamType, Streams,
};

verus! {

/// Whether a stream may carry realtime messages: all but those known to carry requests.
pub open spec fn may_carry_messages(streams: Map<u64, StreamMeta>, stream_id: u64) -> bool {
    !(streams.contains_key(stream_id) && streams[stream_id].stream_type == StreamType::Http3)
}

/// Whether a stream is known to have joined a channel.
pub open spec fn has_joined(
    streams: Map<u64, StreamMeta>,
    stream_id: u64,
    channel: Seq<char>,
) -> bool {
    streams.contains_key(stream_id) && (streams[stream_id].channel matches Some(c) && c@ == channel)
}

/// Nothing is known of any stream at first.
pub proof fn law_no_stream_is_known_at_first(table: StreamTable)
    requires
        call_ensures(StreamTable::new, (), table),
    ensures
        forall|id: u64| !table@.contains_key(id),
{
}

/// What is noted of a stream is known of it, and nothing changes for the others.
pub proof fn law_stream_is_noted(table: &mut StreamTable, meta: StreamMeta)
    requires
        call_ensures(StreamTable::insert, (table, meta), ()),
    ensures
        final(table)@.contains_key(meta.stream_id) && final(table)@[meta.stream_id] == meta,
        forall|id: u64|
            id != meta.stream_id ==> (#[trigger] final(table)@.contains_key(id) <==> old(table)@.contains_key(id)),
        forall|id: u64|
            id != meta.stream_id && old(table)@.contains_key(id) ==> #[trigger] final(table)@[id]
                == old(table)@[id],
{
}

/// A stream that joins a channel has joined it and may carry messages, whatever was known of
/// it. Nothing changes for the others.
pub proof fn law_stream_joins(table: &mut StreamTable, stream_id: u64, channel: String)
    requires
        call_ensures(StreamTable::join, (table, stream_id, channel), ()),
    ensures
        has_joined(final(table)@, stream_id, channel@),
        may_carry_messages(final(table)@, stream_id),
        final(table)@[stream_id].stream_id == stream_id,
        forall|id: u64|
            id != stream_id ==> (#[trigger] final(table)@.contains_key(id) <==> old(table)@.contains_key(id)),
        forall|id: u64|
            id != stream_id && old(table)@.contains_key(id) ==> #[trigger] final(table)@[id] == old(table)@[id],
{
}

/// What is known of a stream is told of it.
pub proof fn law_stream_is_known(
    table: &StreamTable,
    stream_id: u64,
    reads: bool,
    channel: Option<String>,
)
    requires
        call_ensures(StreamTable::reads_realtime, (table, stream_id), reads),
        call_ensures(StreamTable::channel_of, (table, stream_id), channel),
    ensures
        reads <==> may_carry_messages(table@, stream_id),
        channel matches Some(c) ==> has_joined(table@, stream_id, c@),
        channel is None ==> forall|c: Seq<char>| !has_joined(table@, stream_id, c),
{
}

/// Reading begins with the streams given, in order, and with nothing that waits.
pub proof fn law_reading_begins(conn_id: &str, readable: Vec<u64>, r: RealtimeStreams)
    requires
        call_ensures(RealtimeStreams::new, (conn_id, readable), r),
    ensures
        r.wf(),
        r@.conn_id == conn_id@,
        r@.pending == readable@,
        forall|id: u64| waiting(r@.buffers, id).len() == 0,
{
}

/// Reading goes on with the streams given, in order. What waits of an incomplete frame stays,
/// on every stream; a complete frame that was left is dropped on the streams given.
pub proof fn law_reading_goes_on(r: &mut RealtimeStreams, readable: Vec<u64>)
    requires
        call_ensures(RealtimeStreams::resume, (r, readable), ()),
    ensures
        final(r)@.conn_id == old(r)@.conn_id,
        final(r)@.pending == readable@,
        forall|id: u64|
            !has_frame(waiting(old(r)@.buffers, id)) || !readable@.contains(id) ==> #[trigger] waiting(
                final(r)@.buffers,
                id,
            ) == waiting(old(r)@.buffers, id),
        forall|id: u64|
            has_frame(waiting(old(r)@.buffers, id)) && readable@.contains(id) ==> (
            #[trigger] waiting(final(r)@.buffers, id)).len() == 0,
{
    assert forall|id: u64|
        (has_frame(waiting(old(r)@.buffers, id)) && readable@.contains(id) ==> (#[trigger] waiting(
            final(r)@.buffers,
            id,
        )).len() == 0) && (!has_frame(waiting(old(r)@.buffers, id)) || !readable@.contains(id)
            ==> waiting(final(r)@.buffers, id) == waiting(old(r)@.buffers, id)) by {
        lemma_frames(waiting(old(r)@.buffers, id));
    }
}

/// Whether the stream at some place in line is the first that may carry messages.
pub open spec fn is_first_in_line(
    streams: Map<u64, StreamMeta>,
    pending: Seq<u64>,
    k: int,
) -> bool {
    &&& 0 <= k < pending.len()
    &&& may_carry_messages(streams, pending[k])
    &&& forall|i: int| 0 <= i < k ==> !may_carry_messages(streams, #[trigger] pending[i])
}

/// Whether reading goes to the next stream in line that may carry messages, or ends where
/// there is none.
pub open spec fn goes_to_next_stream(
    before: ReadState,
    streams: Map<u64, StreamMeta>,
    after: ReadState,
    action: ReadAction,
) -> bool {
    &&& after.conn_id == before.conn_id
    &&& after.buffers == before.buffers
    &&& forall|k: int| #[trigger]
        is_first_in_line(streams, before.pending, k) ==> action == ReadAction::Read(
            before.pending[k],
        ) && after.current == before.pending[k] && after.pending == before.pending.skip(k + 1)
    &&& (forall|k: int| !#[trigger] is_first_in_line(streams, before.pending, k)) ==> action
        is Finish && after.pending.len() == 0
    &&& action is Read || action is Finish
}

/// Whether reading goes on with the frame that waits at the front of the current stream, or
/// with the next stream where none has arrived in full.
pub open spec fn goes_to_next_frame(
    before: ReadState,
    streams: Map<u64, StreamMeta>,
    after: ReadState,
    action: ReadAction,
) -> bool {
    let buffer = waiting(before.buffers, before.current);
    if has_frame(buffer) {
        after == before && (action matches ReadAction::Decode(json) && json@ == front_frame(buffer))
    } else {
        goes_to_next_stream(before, streams, after, action)
    }
}

proof fn lemma_next_stream(
    before: ReadState,
    streams: Map<u64, StreamMeta>,
    after: ReadState,
    action: ReadAction,
)
    requires
        (after, action@) == next_stream(before, streams),
    ensures
        goes_to_next_stream(before, streams, after, action),
{
    law_streams_read_in_order(before, streams);
    let pending = before.pending;
    match action@ {
        ReadActionView::Read(id) => {
            let k0 = choose|k: int|
                #![trigger pending[k]]
                {
                    &&& 0 <= k < pending.len()
                    &&& pending[k] == id
                    &&& crate::realtime::stream::read_for_realtime(streams, id)
                    &&& after.current == id
                    &&& after.pending == pending.skip(k + 1)
                    &&& forall|i: int|
                        0 <= i < k ==> !crate::realtime::stream::read_for_realtime(
                            streams,
                            #[trigger] pending[i],
                        )
                };
            assert(is_first_in_line(streams, pending, k0));
            assert forall|k: int| #[trigger] is_first_in_line(streams, pending, k) implies k
                == k0 by {
                if k < k0 {
                    assert(!may_carry_messages(streams, pending[k]));
                }
                if k0 < k {
                    assert(!may_carry_messages(streams, pending[k0]));
                }
            }
        },
        _ => {
            assert forall|k: int| !#[trigger] is_first_in_line(streams, pending, k) by {
                if 0 <= k < pending.len() {
                    assert(!may_carry_messages(streams, pending[k]));
                }
            }
            assert(from_first_read(streams, pending).len() == 0);
        },
    }
}

proof fn lemma_next_frame(
    before: ReadState,
    streams: Map<u64, StreamMeta>,
    after: ReadState,
    action: ReadAction,
)
    requires
        (after, action@) == next_frame(before, streams),
    ensures
        goes_to_next_frame(before, streams, after, action),
{
    let buffer = waiting(before.buffers, before.current);
    lemma_frames(buffer);
    if !has_frame(buffer) {
        lemma_next_stream(before, streams, after, action);
    }
}

/// Reading begins, and goes on where a stream has nothing to give or a frame holds no message,
/// with the next stream in line. Nothing that waits is lost.
pub proof fn law_next_stream_is_read(
    r: &mut RealtimeStreams,
    table: &StreamTable,
    event: ReadEvent,
    action: ReadAction,
)
    requires
        event is Start || event is Nothing || event == ReadEvent::Decoded(None),
        call_ensures(RealtimeStreams::step, (r, table, event), action),
    ensures
        goes_to_next_stream(old(r)@, table@, final(r)@, action),
{
    lemma_next_stream(old(r)@, table@, final(r)@, action);
}

/// Whether two states differ in what waits of the current stream alone.
pub open spec fn differ_in_current_buffer(a: ReadState, b: ReadState) -> bool {
    &&& a.conn_id == b.conn_id
    &&& a.current == b.current
    &&& a.pending == b.pending
    &&& forall|id: u64|
        id != a.current ==> #[trigger] waiting(a.buffers, id) == waiting(b.buffers, id)
}

/// What a stream gives is put behind what waits of it, and the frame at the front is taken up
/// once it is complete.
pub proof fn law_bytes_are_taken_in(
    r: &mut RealtimeStreams,
    table: &StreamTable,
    bytes: Vec<u8>,
    action: ReadAction,
) -> (grown: ReadState)
    requires
        call_ensures(RealtimeStreams::step, (r, table, ReadEvent::Bytes(bytes)), action),
    ensures
        differ_in_current_buffer(grown, old(r)@),
        waiting(grown.buffers, old(r)@.current) == waiting(old(r)@.buffers, old(r)@.current)
            + bytes@,
        goes_to_next_frame(grown, table@, final(r)@, action),
{
    let s = old(r)@;
    let buffer = waiting(s.buffers, s.current) + bytes@;
    let grown = ReadState { buffers: s.buffers.insert(s.current, buffer), ..s };
    lemma_next_frame(grown, table@, final(r)@, action);
    grown
}

/// Once what a message brought about is done, the next frame of the stream is taken up.
pub proof fn law_next_frame_is_taken_up(
    r: &mut RealtimeStreams,
    table: &StreamTable,
    action: ReadAction,
)
    requires
        call_ensures(RealtimeStreams::step, (r, table, ReadEvent::Applied), action),
    ensures
        goes_to_next_frame(old(r)@, table@, final(r)@, action),
{
    lemma_next_frame(old(r)@, table@, final(r)@, action);
}

/// Whether the frame at the front of the current stream, and nothing else, has been taken off.
pub open spec fn front_is_taken_off(before: ReadState, after: ReadState) -> bool {
    &&& differ_in_current_buffer(before, after)
    &&& waiting(after.buffers, before.current) == behind_frame(
        waiting(before.buffers, before.current),
    )
}

proof fn lemma_taken_off(before: ReadState, after: ReadState)
    requires
        after == (ReadState {
            buffers: before.buffers.insert(
                before.current,
                past_frame(crate::realtime::stream::stream_buffer(before.buffers, before.current)),
            ),
            ..before
        }),
    ensures
        front_is_taken_off(before, after),
{
    lemma_frames(waiting(before.buffers, before.current));
}

/// Whether a message says what another says.
pub open spec fn says_the_same(a: RealtimeMessage, b: RealtimeMessage) -> bool {
    a.event@ == b.event@ && a.channel@ == b.channel@ && a.payload == b.payload
}

/// Every message that asks to join makes the connection a member of the channel it names, on
/// the stream on which it came, and is reported, whatever else waits on the stream.
pub proof fn law_every_join_is_obeyed(
    r: &mut RealtimeStreams,
    table: &StreamTable,
    msg: RealtimeMessage,
    action: ReadAction,
)
    requires
        msg.event@ == "join"@,
        call_ensures(RealtimeStreams::step, (r, table, ReadEvent::Decoded(Some(msg))), action),
    ensures
        action matches ReadAction::Join { channel, conn_id, stream_id, event } && channel@
            == msg.channel@ && conn_id@ == old(r)@.conn_id && stream_id == old(r)@.current && (
        event matches RealtimeEvent::Join { conn_id: who, channel: what, stream_id: on } && who@
            == old(r)@.conn_id && what@ == msg.channel@ && on == old(r)@.current),
        front_is_taken_off(old(r)@, final(r)@),
{
    lemma_taken_off(old(r)@, final(r)@);
}

/// Every other message on a stream that has joined a channel goes to that channel as it is,
/// with the connection as its sender, and is reported, whatever else waits on the stream.
pub proof fn law_every_message_is_relayed(
    r: &mut RealtimeStreams,
    table: &StreamTable,
    joined: Seq<char>,
    msg: RealtimeMessage,
    action: ReadAction,
)
    requires
        msg.event@ != "join"@,
        has_joined(table@, old(r)@.current, joined),
        call_ensures(RealtimeStreams::step, (r, table, ReadEvent::Decoded(Some(msg))), action),
    ensures
        action matches ReadAction::Relay { channel, sender, msg: sent, event } && channel@ == joined
            && sender@ == old(r)@.conn_id && says_the_same(sent, msg) && (event matches
            RealtimeEvent::Message { conn_id, stream_id, msg: told } && conn_id@
            == old(r)@.conn_id && stream_id == old(r)@.current && says_the_same(told, msg)),
        front_is_taken_off(old(r)@, final(r)@),
{
    lemma_taken_off(old(r)@, final(r)@);
}

/// Every other message on a stream that has joined no channel is passed over, and the next
/// frame is taken up.
pub proof fn law_message_without_a_channel_is_passed_over(
    r: &mut RealtimeStreams,
    table: &StreamTable,
    msg: RealtimeMessage,
    action: ReadAction,
) -> (passed: ReadState)
    requires
        msg.event@ != "join"@,
        forall|c: Seq<char>| !has_joined(table@, old(r)@.current, c),
        call_ensures(RealtimeStreams::step, (r, table, ReadEvent::Decoded(Some(msg))), action),
    ensures
        front_is_taken_off(old(r)@, passed),
        goes_to_next_frame(passed, table@, final(r)@, action),
{
    let s = old(r)@;
    let passed = ReadState {
        buffers: s.buffers.insert(
            s.current,
            past_frame(crate::realtime::stream::stream_buffer(s.buffers, s.current)),
        ),
        ..s
    };
    lemma_taken_off(s, passed);
    match crate::realtime::stream::joined_channel(table@, s.current) {
        Some(c) => {
            assert(has_joined(table@, s.current, c));
        },
        None => {},
    }
    lemma_next_frame(passed, table@, final(r)@, action);
    passed
}

/// One step of reading: what it began with, what it was told, and what it asked for.
pub struct ReadCall {
    pub before: ReadState,
    pub streams: Streams,
    pub event: ReadEventView,
    pub action: ReadActionView,
}

/// Whether some steps are steps of reading.
pub open spec fn are_steps(calls: Seq<ReadCall>) -> bool {
    forall|i: int|
        #![trigger calls[i]]
        0 <= i < calls.len() ==> calls[i].action == read_step(
            calls[i].before,
            calls[i].streams,
            calls[i].event,
        ).1
}

/// The messages that were decoded on streams that had joined a channel, but for those that ask
/// to join, each with that channel, in order.
pub open spec fn spoken(calls: Seq<ReadCall>) -> Seq<(Seq<char>, MessageView)>
    decreases calls.len(),
{
    if calls.len() == 0 {
        Seq::empty()
    } else {
        let earlier = spoken(calls.drop_last());
        let call = calls.last();
        match call.event {
            ReadEventView::Decoded(Some(msg)) => if msg.event != "join"@
                && call.streams.contains_key(call.before.current) && call.streams[call.before.current].channel
                is Some {
                earlier.push((call.streams[call.before.current].channel->0@, msg))
            } else {
                earlier
            },
            _ => earlier,
        }
    }
}

/// The messages that were relayed, each with the channel that it went to, in order.
pub open spec fn relayed(calls: Seq<ReadCall>) -> Seq<(Seq<char>, MessageView)>
    decreases calls.len(),
{
    if calls.len() == 0 {
        Seq::empty()
    } else {
        let earlier = relayed(calls.drop_last());
        match calls.last().action {
            ReadActionView::Relay { channel, sender, msg, event } => earlier.push((channel, msg)),
            _ => earlier,
        }
    }
}

/// The messages that were reported as spoken, in order.
pub open spec fn reported(calls: Seq<ReadCall>) -> Seq<MessageView>
    decreases calls.len(),
{
    if calls.len() == 0 {
        Seq::empty()
    } else {
        let earlier = reported(calls.drop_last());
        match calls.last().action {
            ReadActionView::Relay {
                channel,
                sender,
                msg,
                event: EventView::Message { conn_id, stream_id, msg: told },
            } => earlier.push(told),
            _ => earlier,
        }
    }
}

/// Over any number of steps, what is relayed is what was spoken: every message once, to its
/// channel and in order, and nothing else; and all of it is reported.
pub proof fn law_what_is_spoken_is_relayed(calls: Seq<ReadCall>)
    requires
        are_steps(calls),
    ensures
        relayed(calls) == spoken(calls),
        reported(calls).len() == spoken(calls).len(),
        forall|i: int| 0 <= i < spoken(calls).len() ==> reported(calls)[i] == (#[trigger] spoken(
            calls,
        )[i]).1,
    decreases calls.len(),
{
    if calls.len() > 0 {
        let rest = calls.drop_last();
        assert(are_steps(rest)) by {
            assert forall|i: int| #![trigger rest[i]] 0 <= i < rest.len() implies rest[i].action
                == read_step(rest[i].before, rest[i].streams, rest[i].event).1 by {
                assert(rest[i] == calls[i]);
            }
        }
        law_what_is_spoken_is_relayed(rest);
        let call = calls[calls.len() - 1];
        assert(call.action == read_step(call.before, call.streams, call.event).1);
    }
}

} // verus!
