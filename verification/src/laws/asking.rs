//! Laws of the requests of a client and of its handshake.

use vstd::prelude::*;
use vstd::utf8::encode_utf8;

use crate::client::{
    flush_step, handshake_step, request_fields, slice_pair_views, Exchange, ExchangeAction,
    ExchangeEvent, FlushAction, FlushEvent, HandshakeAction, HandshakeEvent,
    HANDSHAKE_RECEIVE_MILLIS, HANDSHAKE_TIMEOUT_NANOS, REPLY_TIMEOUT_SECS,
};
use crate::error::H3Error;
use crate::http::{field_views, pair_views, H3Event, HeaderField, Polled};
use crate::json::json_text;
use crate::laws::serving::{lemma_last, lemma_read};
use crate::laws::values::lemma_status;
use crate::laws::words::{is_absent, is_last, meant_status, read_fields, said_by};
use crate::transport::{Received, SendOutcome};

verus! {

/// Whether a header field holds a name and a value.
pub open spec fn holds(field: HeaderField, name: Seq<char>, value: Seq<char>) -> bool {
    field.name@ == encode_utf8(name) && field.value@ == encode_utf8(value)
}

/// Whether header fields ask for a path with a method: the five fields of every request, then
/// those that were added, in order and none left out.
pub open spec fn asks_for(
    fields: Seq<HeaderField>,
    method: Seq<char>,
    path: Seq<char>,
    added: Seq<(Seq<char>, Seq<char>)>,
) -> bool {
    &&& fields.len() == 5 + added.len()
    &&& holds(fields[0], ":method"@, method)
    &&& holds(fields[1], ":scheme"@, "https"@)
    &&& holds(fields[2], ":path"@, path)
    &&& holds(fields[3], ":authority"@, "localhost"@)
    &&& holds(fields[4], "user-agent"@, "quic-h3/0.1"@)
    &&& forall|i: int|
        0 <= i < added.len() ==> holds(#[trigger] fields[5 + i], added[i].0, added[i].1)
}

/// What some pairs of string slices say, in order.
pub open spec fn said_by_slices(pairs: Seq<(&str, &str)>) -> Seq<(Seq<char>, Seq<char>)> {
    Seq::new(pairs.len(), |i: int| (pairs[i].0@, pairs[i].1@))
}

/// The library writes the fields of a request as they are asked for.
pub proof fn lemma_asks_for(
    fields: Seq<HeaderField>,
    method: Seq<char>,
    path: Seq<char>,
    added: Seq<(Seq<char>, Seq<char>)>,
)
    requires
        field_views(fields) == crate::http::all_encoded(
            crate::client::request_headers(method, path, added),
        ),
    ensures
        asks_for(fields, method, path, added),
{
    let views = field_views(fields);
    let texts = crate::client::request_headers(method, path, added);
    assert(views.len() == fields.len());
    assert forall|i: int| 0 <= i < fields.len() implies holds(
        #[trigger] fields[i],
        texts[i].0,
        texts[i].1,
    ) by {
        assert(views[i] == fields[i]@);
    }
    assert forall|i: int| 0 <= i < added.len() implies holds(
        #[trigger] fields[5 + i],
        added[i].0,
        added[i].1,
    ) by {
        assert(texts[5 + i] == added[i]);
    }
}

/// A request is written with its method, its path and every header that was added.
pub proof fn law_request_is_written_out(
    method: &str,
    path: &str,
    extra: &[(&str, &str)],
    fields: Vec<HeaderField>,
)
    requires
        call_ensures(request_fields, (method, path, extra), fields),
    ensures
        asks_for(fields@, method@, path@, said_by_slices(extra@)),
{
    assert(slice_pair_views(extra@) =~= said_by_slices(extra@));
    lemma_asks_for(fields@, method@, path@, said_by_slices(extra@));
}

/// A request begins by asking for what was wanted. It says that no body follows exactly where
/// there is none, and keeps the body to be sent. Nothing has arrived of its answer.
pub proof fn law_request_begins(
    method: &str,
    path: &str,
    extra: &[(&str, &str)],
    body: Option<Vec<u8>>,
    r: (Exchange, ExchangeAction),
)
    requires
        call_ensures(Exchange::new, (method, path, extra, body), r),
    ensures
        r.1 matches ExchangeAction::SendRequest { fields, fin } && asks_for(
            fields@,
            method@,
            path@,
            said_by_slices(extra@),
        ) && (fin <==> body is None),
        r.0@.stream_id is None,
        match body {
            Some(bytes) => r.0@.unsent == Some(bytes@),
            None => r.0@.unsent is None,
        },
        r.0@.reply.status == 0 && r.0@.reply.headers.len() == 0 && r.0@.reply.body.len() == 0,
{
    assert(slice_pair_views(extra@) =~= said_by_slices(extra@));
    if let ExchangeAction::SendRequest { fields, fin } = r.1 {
        lemma_asks_for(fields@, method@, path@, said_by_slices(extra@));
    }
}

/// To get a path is to ask for it with `GET`, without more headers and without a body.
pub proof fn law_get_asks_for_its_path(path: &str, r: (Exchange, ExchangeAction))
    requires
        call_ensures(Exchange::get, (path,), r),
    ensures
        r.1 matches ExchangeAction::SendRequest { fields, fin } && asks_for(
            fields@,
            "GET"@,
            path@,
            Seq::empty(),
        ) && fin,
        r.0@.stream_id is None && r.0@.unsent is None,
        r.0@.reply.status == 0 && r.0@.reply.headers.len() == 0 && r.0@.reply.body.len() == 0,
{
    if let ExchangeAction::SendRequest { fields, fin } = r.1 {
        lemma_asks_for(fields@, "GET"@, path@, Seq::empty());
    }
}

/// To post a JSON value is to ask for the path with `POST`, to say that the body is JSON, and
/// to keep the text of the value as the body to be sent. It always succeeds.
pub proof fn law_post_sends_its_value(
    path: &str,
    body: serde_json::Value,
    r: Result<(Exchange, ExchangeAction), H3Error>,
)
    requires
        call_ensures(Exchange::post_json, (path, body), r),
    ensures
        r matches Ok((exchange, action)) && (action matches ExchangeAction::SendRequest {
            fields,
            fin,
        } && asks_for(
            fields@,
            "POST"@,
            path@,
            seq![("content-type"@, "application/json"@)],
        ) && !fin) && exchange@.unsent == Some(encode_utf8(json_text(body)))
            && exchange@.stream_id is None && exchange@.reply.status == 0
            && exchange@.reply.headers.len() == 0 && exchange@.reply.body.len() == 0,
{
    if let Ok((exchange, ExchangeAction::SendRequest { fields, fin })) = r {
        lemma_asks_for(
            fields@,
            "POST"@,
            path@,
            seq![("content-type"@, "application/json"@)],
        );
    }
}

/// A text that was written out is posted as it is, and the error of writing one out is handed
/// on.
pub proof fn law_post_sends_its_text(
    path: &str,
    text: Result<Vec<u8>, serde_json::Error>,
    r: Result<(Exchange, ExchangeAction), H3Error>,
)
    requires
        call_ensures(Exchange::post_text, (path, text), r),
    ensures
        text matches Err(e) ==> r == Err::<(Exchange, ExchangeAction), H3Error>(
            H3Error::Serialization(e),
        ),
        text matches Ok(bytes) ==> (r matches Ok((exchange, action)) && exchange@.unsent == Some(
            bytes@,
        ) && exchange@.stream_id is None && exchange@.reply.status == 0
            && exchange@.reply.headers.len() == 0 && exchange@.reply.body.len() == 0 && (
        action matches ExchangeAction::SendRequest { fields, fin } && asks_for(
            fields@,
            "POST"@,
            path@,
            seq![("content-type"@, "application/json"@)],
        ) && !fin)),
{
    if let Ok((exchange, ExchangeAction::SendRequest { fields, fin })) = r {
        lemma_asks_for(
            fields@,
            "POST"@,
            path@,
            seq![("content-type"@, "application/json"@)],
        );
    }
}

/// Once the request is on a stream, the body follows on that stream, whole and once, where
/// there is one; and what arrives on that stream is the answer.
pub proof fn law_body_follows_the_request(x: &mut Exchange, stream_id: u64, action: ExchangeAction)
    requires
        call_ensures(Exchange::step, (x, ExchangeEvent::RequestSent(stream_id)), action),
    ensures
        match old(x)@.unsent {
            Some(bytes) => action matches ExchangeAction::SendBody { stream_id: on, body } && on
                == stream_id && body@ == bytes,
            None => action == ExchangeAction::FlushRequest,
        },
        final(x)@.stream_id == Some(stream_id),
        final(x)@.unsent is None,
        final(x)@.reply == old(x)@.reply,
{
}

/// Every piece of the answer that has arrived is read, however much has been read before, and
/// reading it changes nothing yet.
pub proof fn law_every_piece_of_the_answer_is_read(
    x: &mut Exchange,
    stream_id: u64,
    action: ExchangeAction,
)
    requires
        old(x)@.stream_id == Some(stream_id),
        call_ensures(
            Exchange::step,
            (x, ExchangeEvent::Polled(Polled::Event(stream_id, H3Event::Data))),
            action,
        ),
    ensures
        action == ExchangeAction::ReadBody(stream_id),
        final(x)@ == old(x)@,
{
}

/// Every piece that was read is put behind what had arrived of the body, and the rest of the
/// answer stays.
pub proof fn law_answer_grows_by_every_piece(
    x: &mut Exchange,
    bytes: Vec<u8>,
    action: ExchangeAction,
)
    requires
        call_ensures(Exchange::step, (x, ExchangeEvent::BodyRead(bytes)), action),
    ensures
        action == ExchangeAction::Poll,
        final(x)@.reply.body == old(x)@.reply.body + bytes@,
        final(x)@.reply.status == old(x)@.reply.status,
        final(x)@.reply.headers == old(x)@.reply.headers,
        final(x)@.stream_id == old(x)@.stream_id && final(x)@.unsent == old(x)@.unsent,
{
}

/// Header fields of the answer set its status where they name one, the last of them deciding,
/// and join its headers otherwise, behind those that had arrived and none left out.
pub proof fn law_answer_takes_in_its_headers(
    x: &mut Exchange,
    stream_id: u64,
    fields: Vec<HeaderField>,
    action: ExchangeAction,
)
    requires
        old(x)@.stream_id == Some(stream_id),
        call_ensures(
            Exchange::step,
            (x, ExchangeEvent::Polled(Polled::Event(stream_id, H3Event::Headers(fields)))),
            action,
        ),
    ensures
        action == ExchangeAction::Poll,
        is_absent(read_fields(fields@), ":status"@) ==> final(x)@.reply.status
            == old(x)@.reply.status,
        forall|i: int| #[trigger]
            is_last(read_fields(fields@), ":status"@, i) ==> final(x)@.reply.status == meant_status(
                read_fields(fields@)[i].1,
            ),
        final(x)@.reply.headers == old(x)@.reply.headers + read_fields(fields@).filter(
            |f: (Seq<char>, Seq<char>)| f.0 != ":status"@,
        ),
        final(x)@.reply.body == old(x)@.reply.body,
        final(x)@.stream_id == old(x)@.stream_id && final(x)@.unsent == old(x)@.unsent,
{
    let texts = read_fields(fields@);
    lemma_read(fields@);
    lemma_last(texts, ":status"@);
    if is_absent(texts, ":status"@) {
        assert forall|i: int| !is_last(texts, ":status"@, i) by {}
    }
    assert forall|i: int| #[trigger] is_last(texts, ":status"@, i) implies final(x)@.reply.status
        == meant_status(texts[i].1) by {
        let value = crate::http::last_value(texts, ":status"@);
        if value is None {
            assert(texts[i].0 != ":status"@);
        } else {
            let k = choose|k: int| #[trigger]
                is_last(texts, ":status"@, k) && texts[k].1 == value->0;
            assert(k == i) by {
                if k < i {
                    assert(texts[i].0 != ":status"@);
                }
                if i < k {
                    assert(texts[k].0 != ":status"@);
                }
            }
            lemma_status(texts[i].1);
        }
    }
}

/// The end of the stream gives the answer, with all that arrived of it.
pub proof fn law_end_of_stream_gives_the_answer(
    x: &mut Exchange,
    stream_id: u64,
    action: ExchangeAction,
)
    requires
        old(x)@.stream_id == Some(stream_id),
        call_ensures(
            Exchange::step,
            (x, ExchangeEvent::Polled(Polled::Event(stream_id, H3Event::Finished))),
            action,
        ),
    ensures
        action matches ExchangeAction::Finish(Ok(reply)) && reply.status == old(x)@.reply.status
            && said_by(reply.headers@) == old(x)@.reply.headers && reply.body@
            == old(x)@.reply.body,
{
    if let ExchangeAction::Finish(Ok(reply)) = action {
        assert(pair_views(reply.headers@) =~= said_by(reply.headers@));
    }
}

/// What arrives on other streams, and what means nothing, leaves the answer as it is and the
/// request going.
pub proof fn law_other_events_are_passed_over(
    x: &mut Exchange,
    stream_id: u64,
    event: H3Event,
    action: ExchangeAction,
)
    requires
        old(x)@.stream_id != Some(stream_id) || event is Other,
        call_ensures(
            Exchange::step,
            (x, ExchangeEvent::Polled(Polled::Event(stream_id, event))),
            action,
        ),
    ensures
        action == ExchangeAction::Poll,
        final(x)@ == old(x)@,
{
}

/// A request goes from sending to waiting and from each packet to the events that it brings,
/// until there are none and it waits again. None of that changes the answer.
pub proof fn law_request_goes_on(x: &mut Exchange, event: ExchangeEvent, action: ExchangeAction)
    requires
        call_ensures(Exchange::step, (x, event), action),
    ensures
        event is BodySent ==> action == ExchangeAction::FlushRequest && final(x)@ == old(x)@,
        event matches ExchangeEvent::RequestFlushed(Ok(_)) ==> action == ExchangeAction::Receive
            && final(x)@ == old(x)@,
        event matches ExchangeEvent::Received(Received::Packet) ==> action == ExchangeAction::Feed
            && final(x)@ == old(x)@,
        event is Fed ==> action == ExchangeAction::FlushReply && final(x)@ == old(x)@,
        event matches ExchangeEvent::ReplyFlushed(Ok(_)) ==> action == ExchangeAction::Poll
            && final(x)@ == old(x)@,
        event matches ExchangeEvent::Polled(Polled::Done) ==> action == ExchangeAction::Receive
            && final(x)@ == old(x)@,
{
}

/// A request fails exactly where something outside fails, and with the error of what failed.
pub proof fn law_request_fails_with_what_failed(
    x: &mut Exchange,
    event: ExchangeEvent,
    action: ExchangeAction,
)
    requires
        call_ensures(Exchange::step, (x, event), action),
    ensures
        event matches ExchangeEvent::Http3Failed(e) ==> action == ExchangeAction::Finish(
            Err(H3Error::Http3(e)),
        ),
        event is NoSession ==> action == ExchangeAction::Finish(Err(H3Error::ConnectionClosed)),
        event matches ExchangeEvent::RequestFlushed(Err(e)) ==> action == ExchangeAction::Finish(
            Err(e),
        ),
        event matches ExchangeEvent::ReplyFlushed(Err(e)) ==> action == ExchangeAction::Finish(
            Err(e),
        ),
        event matches ExchangeEvent::Received(Received::Failed(e)) ==> action
            == ExchangeAction::Finish(Err(H3Error::Io(e))),
        event matches ExchangeEvent::Received(Received::TimedOut) ==> action
            == ExchangeAction::Finish(Err(H3Error::HandshakeTimeout)),
        event matches ExchangeEvent::Polled(Polled::Failed(e)) ==> action == ExchangeAction::Finish(
            Err(H3Error::Http3(e)),
        ),
        event matches ExchangeEvent::Polled(Polled::NotReady) ==> action == ExchangeAction::Finish(
            Err(H3Error::ConnectionClosed),
        ),
        action matches ExchangeAction::Finish(r) && r is Err ==> event is Http3Failed
            || event is NoSession || (event matches ExchangeEvent::RequestFlushed(r) && r is Err)
            || (event matches ExchangeEvent::ReplyFlushed(r) && r is Err) || (event matches
            ExchangeEvent::Received(r) && r !is Packet) || (event matches ExchangeEvent::Polled(p)
            && (p is Failed || p is NotReady)),
{
}

/// Packets are asked for and sent in turn until there are none. The first failure, of the
/// connection or of the socket, is handed on.
pub proof fn law_flush_sends_everything(event: FlushEvent, action: FlushAction)
    requires
        call_ensures(flush_step, (event,), action),
    ensures
        event is Start ==> action == FlushAction::Send,
        event matches FlushEvent::Transmitted(Ok(_)) ==> action == FlushAction::Send,
        event matches FlushEvent::Sent(SendOutcome::Wrote(len)) ==> action
            == FlushAction::Transmit(len),
        action == FlushAction::Finish(Ok(())) <==> (event matches FlushEvent::Sent(o) && o is Done),
        event matches FlushEvent::Sent(SendOutcome::Failed(e)) ==> action == FlushAction::Finish(
            Err(H3Error::Quic(e)),
        ),
        event matches FlushEvent::Transmitted(Err(e)) ==> action == FlushAction::Finish(
            Err(H3Error::Io(e)),
        ),
{
}

/// The handshake sends, finds out whether the connection is established, and otherwise waits
/// for a packet and begins anew, as long as no more than ten seconds have passed.
pub proof fn law_handshake_goes_on(event: HandshakeEvent, action: HandshakeAction)
    requires
        call_ensures(handshake_step, (event,), action),
    ensures
        event matches HandshakeEvent::Elapsed(nanos) && nanos <= 10_000_000_000 ==> action
            == HandshakeAction::Flush,
        event matches HandshakeEvent::Flushed(Ok(_)) ==> action
            == HandshakeAction::CheckEstablished,
        event == HandshakeEvent::Established(false) ==> action == HandshakeAction::Receive,
        event matches HandshakeEvent::Received(Received::Packet) ==> action
            == HandshakeAction::Feed,
        event matches HandshakeEvent::Received(Received::TimedOut) ==> action
            == HandshakeAction::CheckTime,
        event is Fed ==> action == HandshakeAction::CheckTime,
        action == HandshakeAction::StartHttp3 <==> event == HandshakeEvent::Established(true),
{
}

/// The handshake ends with the start of the HTTP/3 session, or with the first failure, or
/// where more than ten seconds have passed.
pub proof fn law_handshake_ends(event: HandshakeEvent, action: HandshakeAction)
    requires
        call_ensures(handshake_step, (event,), action),
    ensures
        event matches HandshakeEvent::Http3Started(r) ==> action == HandshakeAction::Finish(r),
        event matches HandshakeEvent::Elapsed(nanos) && nanos > 10_000_000_000 ==> action
            == HandshakeAction::Finish(Err(H3Error::HandshakeTimeout)),
        event matches HandshakeEvent::Flushed(Err(e)) ==> action == HandshakeAction::Finish(Err(e)),
        event matches HandshakeEvent::Received(Received::Failed(e)) ==> action
            == HandshakeAction::Finish(Err(H3Error::Io(e))),
        action is Finish ==> event is Http3Started || (event matches HandshakeEvent::Elapsed(n) && n
            > 10_000_000_000) || (event matches HandshakeEvent::Flushed(r) && r is Err) || (
        event matches HandshakeEvent::Received(r) && r is Failed),
{
}

/// How long the client waits.
pub proof fn law_waiting_times()
    ensures
        REPLY_TIMEOUT_SECS == 10,
        HANDSHAKE_RECEIVE_MILLIS == 100,
        HANDSHAKE_TIMEOUT_NANOS == REPLY_TIMEOUT_SECS * 1_000_000_000,
{
}

} // verus!
