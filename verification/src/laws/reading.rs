//! Laws of the realtime stream of a client.

use vstd::prelude::*;

use crate::laws::framing::lemma_frames;
use crate::laws::words::{behind_frame, front_frame, has_frame};
use crate::realtime::frame::{frame_of, frame_stream, law_frame_is_canonical};
use crate::realtime::message::RealtimeMessage;
use crate::realtime::reader::{
    reader_action, reader_after, ReaderAction, ReaderEvent, RealtimeReader,
};
use crate::transport::SendOutcome;

verus! {

/// Whether a reader takes up the frame at the front of what waits, or waits for a packet where
/// none has arrived in full.
pub open spec fn takes_up(buffer: Seq<u8>, action: ReaderAction) -> bool {
    if has_frame(buffer) {
        action matches ReaderAction::Decode(json) && json@ == front_frame(buffer)
    } else {
        action == ReaderAction::Receive
    }
}

/// A reader begins with nothing that waits.
pub proof fn law_nothing_waits_at_first(r: RealtimeReader)
    requires
        call_ensures(RealtimeReader::new, (), r),
    ensures
        r@.len() == 0,
{
}

/// What the stream gives is put behind what waits, and the frame at the front is taken up once
/// it is complete.
pub proof fn law_reader_takes_in_bytes(
    r: &mut RealtimeReader,
    bytes: Vec<u8>,
    action: ReaderAction,
)
    requires
        call_ensures(RealtimeReader::step, (r, ReaderEvent::Bytes(bytes)), action),
    ensures
        final(r)@ == old(r)@ + bytes@,
        takes_up(old(r)@ + bytes@, action),
{
    lemma_frames(old(r)@ + bytes@);
}

/// Every message is handed to the user, whatever else waits, and its frame is taken off.
pub proof fn law_every_message_is_delivered(
    r: &mut RealtimeReader,
    msg: RealtimeMessage,
    action: ReaderAction,
)
    requires
        call_ensures(RealtimeReader::step, (r, ReaderEvent::Decoded(Some(msg))), action),
    ensures
        action == ReaderAction::Deliver(msg),
        final(r)@ == behind_frame(old(r)@),
{
    lemma_frames(old(r)@);
}

/// A frame that holds no message stays, and the reader waits for a packet.
pub proof fn law_frame_without_a_message_stays(r: &mut RealtimeReader, action: ReaderAction)
    requires
        call_ensures(RealtimeReader::step, (r, ReaderEvent::Decoded(None)), action),
    ensures
        action == ReaderAction::Receive,
        final(r)@ == old(r)@,
{
}

/// Once a message has been handed over, the next frame is taken up; where the user is gone,
/// the reader ends.
pub proof fn law_reader_goes_on_while_the_user_is_there(
    r: &mut RealtimeReader,
    there: bool,
    action: ReaderAction,
)
    requires
        call_ensures(RealtimeReader::step, (r, ReaderEvent::Delivered(there)), action),
    ensures
        there ==> takes_up(old(r)@, action),
        !there ==> action == ReaderAction::Stop,
        final(r)@ == old(r)@,
{
    lemma_frames(old(r)@);
}

/// Every packet is handed to the connection, then all packets that are due are sent, then the
/// stream is read; where it has nothing yet, the next packet is waited for. Where the socket or
/// the stream fails, the reader ends. None of that touches what waits.
pub proof fn law_reader_turns_packets_into_reads(
    r: &mut RealtimeReader,
    event: ReaderEvent,
    action: ReaderAction,
)
    requires
        call_ensures(RealtimeReader::step, (r, event), action),
    ensures
        event is Received ==> action == ReaderAction::Feed,
        event is Fed || event is Transmitted ==> action == ReaderAction::Send,
        event matches ReaderEvent::Sent(SendOutcome::Wrote(len)) ==> action
            == ReaderAction::Transmit(len),
        event matches ReaderEvent::Sent(o) && o !is Wrote ==> action == ReaderAction::ReadStream,
        event is Nothing ==> action == ReaderAction::Receive,
        event is SocketFailed || event is StreamFailed ==> action == ReaderAction::Stop,
        action is Stop ==> event is SocketFailed || event is StreamFailed || event
            == ReaderEvent::Delivered(false),
        !(event is Bytes || event is Decoded) ==> final(r)@ == old(r)@,
{
}

/// One step of a reader: what waited, what it was told, and what it asked for.
pub struct ReaderCall {
    pub before: Seq<u8>,
    pub event: ReaderEvent,
    pub action: ReaderAction,
    pub after: Seq<u8>,
}

/// Whether some steps are a course of a new reader: each begins where the one before it ended,
/// and a frame is said to be decoded only where that was asked for.
pub open spec fn is_course(calls: Seq<ReaderCall>) -> bool {
    &&& forall|i: int|
        #![trigger calls[i]]
        0 <= i < calls.len() ==> {
            &&& calls[i].after == reader_after(calls[i].before, calls[i].event)
            &&& reader_action(calls[i].before, calls[i].event, calls[i].action)
            &&& i == 0 ==> calls[i].before == Seq::<u8>::empty() && calls[i].event !is Decoded
            &&& i > 0 ==> calls[i].before == calls[i - 1].after
            &&& i > 0 && calls[i].event is Decoded ==> calls[i - 1].action is Decode
        }
}

/// All bytes that the stream gave, in order.
pub open spec fn arrived(calls: Seq<ReaderCall>) -> Seq<u8>
    decreases calls.len(),
{
    if calls.len() == 0 {
        Seq::empty()
    } else {
        match calls.last().event {
            ReaderEvent::Bytes(bytes) => arrived(calls.drop_last()) + bytes@,
            _ => arrived(calls.drop_last()),
        }
    }
}

/// What the frames carried that proved to be messages, in order.
pub open spec fn proved(calls: Seq<ReaderCall>) -> Seq<Seq<u8>>
    decreases calls.len(),
{
    if calls.len() == 0 {
        Seq::empty()
    } else {
        let earlier = proved(calls.drop_last());
        match (calls.last().event, calls[calls.len() - 2].action) {
            (ReaderEvent::Decoded(Some(_)), ReaderAction::Decode(json)) => earlier.push(json@),
            _ => earlier,
        }
    }
}

/// The messages that frames proved to be, in order.
pub open spec fn messages(calls: Seq<ReaderCall>) -> Seq<RealtimeMessage>
    decreases calls.len(),
{
    if calls.len() == 0 {
        Seq::empty()
    } else {
        match calls.last().event {
            ReaderEvent::Decoded(Some(msg)) => messages(calls.drop_last()).push(msg),
            _ => messages(calls.drop_last()),
        }
    }
}

/// The messages that were handed to the user, in order.
pub open spec fn delivered(calls: Seq<ReaderCall>) -> Seq<RealtimeMessage>
    decreases calls.len(),
{
    if calls.len() == 0 {
        Seq::empty()
    } else {
        match calls.last().action {
            ReaderAction::Deliver(msg) => delivered(calls.drop_last()).push(msg),
            _ => delivered(calls.drop_last()),
        }
    }
}

proof fn lemma_frame_stream_push(bodies: Seq<Seq<u8>>, body: Seq<u8>)
    ensures
        frame_stream(bodies.push(body)) == frame_stream(bodies) + frame_of(body),
    decreases bodies.len(),
{
    let all = bodies.push(body);
    if bodies.len() == 0 {
        assert(all.drop_first() =~= Seq::<Seq<u8>>::empty());
        assert(frame_stream(all.drop_first()) =~= Seq::<u8>::empty());
        assert(frame_stream(all) =~= frame_of(body));
        assert(frame_stream(bodies) + frame_of(body) =~= frame_of(body));
    } else {
        lemma_frame_stream_push(bodies.drop_first(), body);
        assert(all.drop_first() =~= bodies.drop_first().push(body));
        assert(frame_stream(all) =~= frame_of(bodies[0]) + (frame_stream(bodies.drop_first())
            + frame_of(body)));
        assert(frame_stream(bodies) =~= frame_of(bodies[0]) + frame_stream(bodies.drop_first()));
        assert(frame_stream(all) =~= frame_stream(bodies) + frame_of(body));
    }
}

/// Over any course, every message that a frame proved to be is handed to the user once, in
/// order, and nothing else is.
pub proof fn law_what_is_proved_is_delivered(calls: Seq<ReaderCall>)
    requires
        is_course(calls),
    ensures
        delivered(calls) == messages(calls),
    decreases calls.len(),
{
    if calls.len() > 0 {
        lemma_shorter_course(calls);
        law_what_is_proved_is_delivered(calls.drop_last());
        let last = calls[calls.len() - 1];
        assert(reader_action(last.before, last.event, last.action));
    }
}

proof fn lemma_shorter_course(calls: Seq<ReaderCall>)
    requires
        is_course(calls),
        calls.len() > 0,
    ensures
        is_course(calls.drop_last()),
{
    let rest = calls.drop_last();
    assert forall|i: int| #![trigger rest[i]] 0 <= i < rest.len() implies {
        &&& rest[i].after == reader_after(rest[i].before, rest[i].event)
        &&& reader_action(rest[i].before, rest[i].event, rest[i].action)
        &&& i == 0 ==> rest[i].before == Seq::<u8>::empty() && rest[i].event !is Decoded
        &&& i > 0 ==> rest[i].before == rest[i - 1].after
        &&& i > 0 && rest[i].event is Decoded ==> rest[i - 1].action is Decode
    } by {
        assert(rest[i] == calls[i]);
        if i > 0 {
            assert(rest[i - 1] == calls[i - 1]);
        }
    }
}

/// Over any course, nothing that arrives is lost, repeated or taken out of order: all bytes
/// that arrived are the frames that proved to be messages, followed by what waits.
pub proof fn law_nothing_that_arrives_is_lost(calls: Seq<ReaderCall>)
    requires
        is_course(calls),
        calls.len() > 0,
    ensures
        arrived(calls) == frame_stream(proved(calls)) + calls.last().after,
        proved(calls).len() == messages(calls).len(),
    decreases calls.len(),
{
    let last = calls[calls.len() - 1];
    let rest = calls.drop_last();
    lemma_shorter_course(calls);
    assert(last.after == reader_after(last.before, last.event));
    if rest.len() == 0 {
        assert(arrived(rest) =~= Seq::<u8>::empty());
        assert(proved(rest) =~= Seq::<Seq<u8>>::empty());
        assert(messages(rest) =~= Seq::<RealtimeMessage>::empty());
        assert(frame_stream(proved(rest)) =~= Seq::<u8>::empty());
        assert(arrived(calls) =~= frame_stream(proved(calls)) + last.after);
    } else {
        law_nothing_that_arrives_is_lost(rest);
        let earlier = calls[calls.len() - 2];
        assert(earlier == rest.last());
        assert(last.before == earlier.after);
        match last.event {
            ReaderEvent::Bytes(bytes) => {
                assert(arrived(calls) =~= frame_stream(proved(calls)) + last.after);
            },
            ReaderEvent::Decoded(Some(msg)) => {
                lemma_frames(last.before);
                assert(reader_action(earlier.before, earlier.event, earlier.action));
                assert(earlier.after == reader_after(earlier.before, earlier.event));
                if let ReaderAction::Decode(json) = earlier.action {
                    assert(crate::realtime::frame::frame_body(last.before) == Some(json@));
                    law_frame_is_canonical(last.before);
                    let n = crate::realtime::frame::frame_len(json@);
                    assert(last.before =~= frame_of(json@) + last.before.skip(n));
                    lemma_frame_stream_push(proved(rest), json@);
                    assert(arrived(calls) =~= frame_stream(proved(calls)) + last.after);
                }
            },
            _ => {
                assert(last.after == last.before);
                assert(arrived(calls) =~= frame_stream(proved(calls)) + last.after);
            },
        }
    }
}

} // verus!
