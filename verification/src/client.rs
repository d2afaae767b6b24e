//! The client: requests are written out, and their answers are put together from what
//! arrives.

use vstd::prelude::*;
use vstd::utf8::encode_utf8;

use crate::error::H3Error;
use crate::http::{
    all_decoded, all_encoded, encoded, field_text, field_views, has_field, header_field, last_value,
    law_fields_round_trip, lemma_all_wanted, lemma_last_value_concat, lemma_last_value_exists,
    lemma_one_more_field, pair_views, FieldView, H3Event, HeaderField, Polled, TextField,
};
use crate::json::{json_text, value_to_bytes};
use crate::server::{
    after_pieces, joined_pieces, law_request_is_complete, request_action, request_begun,
    requests_after, response_headers, RequestAction, RequestEvent, RequestState, RequestView,
    ResponseView,
};
use crate::text::{decimal, law_status_round_trip, parse_status, status_code};
use crate::transport::{Received, SendOutcome};

verus! {

/// How long the client waits for each packet of an answer, in seconds.
pub const REPLY_TIMEOUT_SECS: u64 = 10;

/// How long the client waits for each packet of the handshake, in milliseconds.
pub const HANDSHAKE_RECEIVE_MILLIS: u64 = 100;

/// How long the handshake may take, in nanoseconds.
pub const HANDSHAKE_TIMEOUT_NANOS: u128 = 10_000_000_000;

/// The answer to a request.
#[derive(Debug)]
pub struct H3ClientResponse {
    pub status: u16,
    pub headers: Vec<(String, String)>,
    pub body: Vec<u8>,
}

impl View for H3ClientResponse {
    type V = ResponseView;

    open spec fn view(&self) -> ResponseView {
        ResponseView { status: self.status, headers: pair_views(self.headers@), body: self.body@ }
    }
}

/// What some pairs of string slices hold.
pub open spec fn slice_pair_views(pairs: Seq<(&str, &str)>) -> Seq<TextField> {
    Seq::new(pairs.len(), |i: int| (pairs[i].0@, pairs[i].1@))
}

/// The fields that stand in front of the headers of every request.
pub open spec fn request_preamble(method: Seq<char>, path: Seq<char>) -> Seq<TextField> {
    seq![
        (":method"@, method),
        (":scheme"@, "https"@),
        (":path"@, path),
        (":authority"@, "localhost"@),
        ("user-agent"@, "quic-h3/0.1"@),
    ]
}

/// The header fields of a request as text.
pub open spec fn request_headers(
    method: Seq<char>,
    path: Seq<char>,
    extra: Seq<TextField>,
) -> Seq<TextField> {
    request_preamble(method, path) + extra
}

/// Writes out the header fields of a request.
pub fn request_fields(method: &str, path: &str, extra: &[(&str, &str)]) -> (fields: Vec<
    HeaderField,
>)
    ensures
        field_views(fields@) == all_encoded(
            request_headers(method@, path@, slice_pair_views(extra@)),
        ),
{
    let mut fields: Vec<HeaderField> = Vec::new();
    fields.push(header_field(":method", method));
    fields.push(header_field(":scheme", "https"));
    fields.push(header_field(":path", path));
    fields.push(header_field(":authority", "localhost"));
    fields.push(header_field("user-agent", "quic-h3/0.1"));
    let ghost all = request_headers(method@, path@, slice_pair_views(extra@));
    assert(field_views(fields@) =~= all_encoded(all.take(5)));
    let mut i: usize = 0;
    while i < extra.len()
        invariant
            all == request_headers(method@, path@, slice_pair_views(extra@)),
            i <= extra@.len(),
            field_views(fields@) == all_encoded(all.take(5 + i)),
        decreases extra@.len() - i,
    {
        let (name, value) = extra[i];
        let ghost before = fields@;
        fields.push(header_field(name, value));
        proof {
            assert(all[5 + i] == (name@, value@));
            assert(field_views(fields@) =~= field_views(before).push(encoded((name@, value@))));
            assert(all_encoded(all.take(6 + i)) =~= all_encoded(all.take(5 + i)).push(
                encoded(all[5 + i]),
            ));
        }
        i = i + 1;
    }
    assert(all.take(5 + i) == all);
    fields
}

/// A request that has not been answered yet.
pub struct ExchangeState {
    /// The stream on which the request was sent.
    pub stream_id: Option<u64>,
    /// The body of the request, as long as it is still to be sent.
    pub unsent: Option<Seq<u8>>,
    /// What has arrived of the answer.
    pub reply: ResponseView,
}

/// An answer of which nothing has arrived.
pub open spec fn empty_reply() -> ResponseView {
    ResponseView { status: 0, headers: Seq::empty(), body: Seq::empty() }
}

/// The fields of an answer that do not name its status.
pub open spec fn plain_reply_fields(fields: Seq<TextField>) -> Seq<TextField> {
    fields.filter(|f: TextField| f.0 != ":status"@)
}

/// An answer once some header fields have arrived: the last field that names a status
/// decides it, and all other fields join the headers.
pub open spec fn with_headers(reply: ResponseView, fields: Seq<FieldView>) -> ResponseView {
    let texts = all_decoded(fields);
    ResponseView {
        status: match last_value(texts, ":status"@) {
            Some(text) => status_code(text) as u16,
            None => reply.status,
        },
        headers: reply.headers + plain_reply_fields(texts),
        ..reply
    }
}

/// What the outside world answers to a step of a request.
pub enum ExchangeEvent {
    /// The request was sent on this stream.
    RequestSent(u64),
    /// The body was sent.
    BodySent,
    /// The request or its body could not be sent.
    Http3Failed(quiche::h3::Error),
    /// The connection has no HTTP/3 session.
    NoSession,
    /// What sending the packets of the request came to.
    RequestFlushed(Result<(), H3Error>),
    /// What waiting for a packet came to.
    Received(Received),
    /// The connection has taken the packet in, or refused it.
    Fed,
    /// What sending the packets that acknowledge came to.
    ReplyFlushed(Result<(), H3Error>),
    /// What asking for the next event came to.
    Polled(Polled),
    /// These bytes of the body were read.
    BodyRead(Vec<u8>),
}

/// What is to be done next for a request.
pub enum ExchangeAction {
    /// Send the request; `fin` says that no body follows.
    SendRequest { fields: Vec<HeaderField>, fin: bool },
    /// Send the body, with which the request ends.
    SendBody { stream_id: u64, body: Vec<u8> },
    /// Send the packets of the request.
    FlushRequest,
    /// Wait for a packet.
    Receive,
    /// Hand the packet to the connection.
    Feed,
    /// Send the packets that acknowledge.
    FlushReply,
    /// Ask for the next event.
    Poll,
    /// Read from the body of the answer.
    ReadBody(u64),
    /// The request is over.
    Finish(Result<H3ClientResponse, H3Error>),
}

/// The request once an event has been taken in.
pub open spec fn exchange_after(s: ExchangeState, event: ExchangeEvent) -> ExchangeState {
    match event {
        ExchangeEvent::RequestSent(stream_id) => ExchangeState {
            stream_id: Some(stream_id),
            unsent: None,
            ..s
        },
        ExchangeEvent::Polled(Polled::Event(stream_id, H3Event::Headers(fields))) => {
            if s.stream_id == Some(stream_id) {
                ExchangeState { reply: with_headers(s.reply, field_views(fields@)), ..s }
            } else {
                s
            }
        },
        ExchangeEvent::Polled(Polled::Event(stream_id, H3Event::Finished)) => {
            if s.stream_id == Some(stream_id) {
                ExchangeState { reply: empty_reply(), ..s }
            } else {
                s
            }
        },
        ExchangeEvent::BodyRead(bytes) => ExchangeState {
            reply: ResponseView { body: s.reply.body + bytes@, ..s.reply },
            ..s
        },
        _ => s,
    }
}

/// Whether an action gives up with an error.
pub open spec fn fails_with(action: ExchangeAction, error: H3Error) -> bool {
    action == ExchangeAction::Finish(Err(error))
}

/// Whether an action is the one that follows an event.
pub open spec fn exchange_action(
    s: ExchangeState,
    event: ExchangeEvent,
    action: ExchangeAction,
) -> bool {
    match event {
        ExchangeEvent::RequestSent(id) => match s.unsent {
            Some(bytes) => action matches ExchangeAction::SendBody { stream_id, body } && stream_id
                == id && body@ == bytes,
            None => action == ExchangeAction::FlushRequest,
        },
        ExchangeEvent::BodySent => action == ExchangeAction::FlushRequest,
        ExchangeEvent::Http3Failed(e) => fails_with(action, H3Error::Http3(e)),
        ExchangeEvent::NoSession => fails_with(action, H3Error::ConnectionClosed),
        ExchangeEvent::RequestFlushed(Ok(_)) => action == ExchangeAction::Receive,
        ExchangeEvent::RequestFlushed(Err(e)) => fails_with(action, e),
        ExchangeEvent::Received(Received::Packet) => action == ExchangeAction::Feed,
        ExchangeEvent::Received(Received::Failed(e)) => fails_with(action, H3Error::Io(e)),
        ExchangeEvent::Received(Received::TimedOut) => fails_with(
            action,
            H3Error::HandshakeTimeout,
        ),
        ExchangeEvent::Fed => action == ExchangeAction::FlushReply,
        ExchangeEvent::ReplyFlushed(Ok(_)) => action == ExchangeAction::Poll,
        ExchangeEvent::ReplyFlushed(Err(e)) => fails_with(action, e),
        ExchangeEvent::Polled(Polled::Done) => action == ExchangeAction::Receive,
        ExchangeEvent::Polled(Polled::Failed(e)) => fails_with(action, H3Error::Http3(e)),
        ExchangeEvent::Polled(Polled::NotReady) => fails_with(action, H3Error::ConnectionClosed),
        ExchangeEvent::Polled(Polled::Event(stream_id, H3Event::Data)) => {
            if s.stream_id == Some(stream_id) {
                action == ExchangeAction::ReadBody(stream_id)
            } else {
                action == ExchangeAction::Poll
            }
        },
        ExchangeEvent::Polled(Polled::Event(stream_id, H3Event::Finished)) => {
            if s.stream_id == Some(stream_id) {
                action matches ExchangeAction::Finish(Ok(reply)) && reply@ == s.reply
            } else {
                action == ExchangeAction::Poll
            }
        },
        ExchangeEvent::Polled(Polled::Event(_, _)) => action == ExchangeAction::Poll,
        ExchangeEvent::BodyRead(_) => action == ExchangeAction::Poll,
    }
}

/// A request on its way, and what has arrived of its answer.
pub struct Exchange {
    stream_id: Option<u64>,
    unsent: Option<Vec<u8>>,
    reply: H3ClientResponse,
}

impl View for Exchange {
    type V = ExchangeState;

    closed spec fn view(&self) -> ExchangeState {
        ExchangeState {
            stream_id: self.stream_id,
            unsent: match self.unsent {
                Some(bytes) => Some(bytes@),
                None => None,
            },
            reply: self.reply@,
        }
    }
}

fn new_reply() -> (reply: H3ClientResponse)
    ensures
        reply@ == empty_reply(),
{
    let reply = H3ClientResponse { status: 0, headers: Vec::new(), body: Vec::new() };
    assert(pair_views(reply.headers@) =~= Seq::<TextField>::empty());
    reply
}

impl H3ClientResponse {
    fn take_headers(&mut self, fields: &Vec<HeaderField>)
        ensures
            final(self)@ == with_headers(old(self)@, field_views(fields@)),
    {
        let ghost texts = all_decoded(field_views(fields@));
        let ghost plain = |f: TextField| f.0 != ":status"@;
        let ghost start = self@;
        let status_name = String::from(":status");
        let mut i: usize = 0;
        proof {
            reveal(Seq::filter);
            assert(texts.take(0) == Seq::<TextField>::empty());
            assert(start.headers + texts.take(0).filter(plain) == start.headers);
        }
        while i < fields.len()
            invariant
                texts == all_decoded(field_views(fields@)),
                plain == (|f: TextField| f.0 != ":status"@),
                start == old(self)@,
                status_name@ == ":status"@,
                i <= fields@.len(),
                self.status == (match last_value(texts.take(i as int), ":status"@) {
                    Some(text) => status_code(text) as u16,
                    None => start.status,
                }),
                pair_views(self.headers@) == start.headers + texts.take(i as int).filter(plain),
                self.body@ == start.body,
            decreases fields@.len() - i,
        {
            let (name, value) = field_text(&fields[i]);
            let ghost before = self.headers@;
            proof {
                reveal(Seq::filter);
                assert(texts.take(i + 1).drop_last() == texts.take(i as int));
                assert(texts.take(i + 1).last() == (name@, value@));
            }
            if name == status_name {
                self.status = parse_status(value.as_str());
            } else {
                self.headers.push((name, value));
                assert(pair_views(self.headers@) =~= pair_views(before).push((name@, value@)));
            }
            i = i + 1;
        }
        assert(texts.take(i as int) == texts);
    }
}

impl Exchange {
    /// Begins a request. The first thing to do is to send its header fields.
    pub fn new(
        method: &str,
        path: &str,
        extra_headers: &[(&str, &str)],
        body: Option<Vec<u8>>,
    ) -> (r: (Exchange, ExchangeAction))
        ensures
            r.0@ == (ExchangeState {
                stream_id: None,
                unsent: match body {
                    Some(bytes) => Some(bytes@),
                    None => None,
                },
                reply: empty_reply(),
            }),
            r.1 matches ExchangeAction::SendRequest { fields, fin } && field_views(fields@)
                == all_encoded(
                request_headers(method@, path@, slice_pair_views(extra_headers@)),
            ) && fin == (body is None),
    {
        let fields = request_fields(method, path, extra_headers);
        let fin: bool = body.is_none();
        let exchange = Exchange { stream_id: None, unsent: body, reply: new_reply() };
        (exchange, ExchangeAction::SendRequest { fields, fin })
    }

    fn owns(&self, stream_id: u64) -> (b: bool)
        ensures
            b == (self@.stream_id == Some(stream_id)),
    {
        match self.stream_id {
            Some(own) => own == stream_id,
            None => false,
        }
    }

    fn finish(&mut self) -> (reply: H3ClientResponse)
        ensures
            reply@ == old(self)@.reply,
            final(self)@ == (ExchangeState { reply: empty_reply(), ..old(self)@ }),
    {
        let mut reply = new_reply();
        std::mem::swap(&mut self.reply, &mut reply);
        reply
    }

    /// Takes in what the outside world answered to the last action, and says what is to be
    /// done next.
    pub fn step(&mut self, event: ExchangeEvent) -> (action: ExchangeAction)
        ensures
            final(self)@ == exchange_after(old(self)@, event),
            exchange_action(old(self)@, event, action),
    {
        match event {
            ExchangeEvent::RequestSent(stream_id) => {
                self.stream_id = Some(stream_id);
                match self.unsent.take() {
                    Some(body) => ExchangeAction::SendBody { stream_id, body },
                    None => ExchangeAction::FlushRequest,
                }
            },
            ExchangeEvent::BodySent => ExchangeAction::FlushRequest,
            ExchangeEvent::Http3Failed(e) => ExchangeAction::Finish(Err(H3Error::from(e))),
            ExchangeEvent::NoSession => ExchangeAction::Finish(Err(H3Error::ConnectionClosed)),
            ExchangeEvent::RequestFlushed(Ok(_)) => ExchangeAction::Receive,
            ExchangeEvent::RequestFlushed(Err(e)) => ExchangeAction::Finish(Err(e)),
            ExchangeEvent::Received(Received::Packet) => ExchangeAction::Feed,
            ExchangeEvent::Received(Received::Failed(e)) => ExchangeAction::Finish(
                Err(H3Error::from(e)),
            ),
            ExchangeEvent::Received(Received::TimedOut) => ExchangeAction::Finish(
                Err(H3Error::HandshakeTimeout),
            ),
            ExchangeEvent::Fed => ExchangeAction::FlushReply,
            ExchangeEvent::ReplyFlushed(Ok(_)) => ExchangeAction::Poll,
            ExchangeEvent::ReplyFlushed(Err(e)) => ExchangeAction::Finish(Err(e)),
            ExchangeEvent::Polled(Polled::Done) => ExchangeAction::Receive,
            ExchangeEvent::Polled(Polled::Failed(e)) => ExchangeAction::Finish(
                Err(H3Error::from(e)),
            ),
            ExchangeEvent::Polled(Polled::NotReady) => ExchangeAction::Finish(
                Err(H3Error::ConnectionClosed),
            ),
            ExchangeEvent::Polled(Polled::Event(stream_id, H3Event::Headers(fields))) => {
                if self.owns(stream_id) {
                    self.reply.take_headers(&fields);
                }
                ExchangeAction::Poll
            },
            ExchangeEvent::Polled(Polled::Event(stream_id, H3Event::Data)) => {
                if self.owns(stream_id) {
                    ExchangeAction::ReadBody(stream_id)
                } else {
                    ExchangeAction::Poll
                }
            },
            ExchangeEvent::Polled(Polled::Event(stream_id, H3Event::Finished)) => {
                if self.owns(stream_id) {
                    ExchangeAction::Finish(Ok(self.finish()))
                } else {
                    ExchangeAction::Poll
                }
            },
            ExchangeEvent::Polled(Polled::Event(_, H3Event::Other)) => ExchangeAction::Poll,
            ExchangeEvent::BodyRead(bytes) => {
                let mut more = bytes;
                self.reply.body.append(&mut more);
                ExchangeAction::Poll
            },
        }
    }
}

impl Exchange {
    /// Begins a request that fetches what is at a path.
    pub fn get(path: &str) -> (r: (Exchange, ExchangeAction))
        ensures
            r.0@ == (ExchangeState { stream_id: None, unsent: None, reply: empty_reply() }),
            r.1 matches ExchangeAction::SendRequest { fields, fin } && field_views(fields@)
                == all_encoded(request_headers("GET"@, path@, Seq::empty())) && fin,
    {
        let extra: [(&str, &str); 0] = [];
        assert(slice_pair_views(extra@) =~= Seq::<TextField>::empty());
        Exchange::new("GET", path, &extra, None)
    }

    /// Begins a request that posts a JSON text, given what writing it out came to.
    pub fn post_text(path: &str, text: Result<Vec<u8>, serde_json::Error>) -> (r: Result<
        (Exchange, ExchangeAction),
        H3Error,
    >)
        ensures
            match text {
                Ok(bytes) => r matches Ok((exchange, action)) && exchange@ == (ExchangeState {
                    stream_id: None,
                    unsent: Some(bytes@),
                    reply: empty_reply(),
                }) && (action matches ExchangeAction::SendRequest { fields, fin } && field_views(
                    fields@,
                ) == all_encoded(request_headers("POST"@, path@, seq![json_header()])) && !fin),
                Err(e) => r matches Err(H3Error::Serialization(why)) && why == e,
            },
    {
        match text {
            Ok(bytes) => {
                let extra: [(&str, &str); 1] = [("content-type", "application/json")];
                assert(slice_pair_views(extra@) =~= seq![json_header()]);
                Ok(Exchange::new("POST", path, &extra, Some(bytes)))
            },
            Err(e) => Err(H3Error::from(e)),
        }
    }

    /// Begins a request that posts a JSON value. A JSON value can always be written out, so
    /// this always succeeds.
    pub fn post_json(path: &str, body: serde_json::Value) -> (r: Result<
        (Exchange, ExchangeAction),
        H3Error,
    >)
        ensures
            r matches Ok((exchange, action)) && exchange@ == (ExchangeState {
                stream_id: None,
                unsent: Some(encode_utf8(json_text(body))),
                reply: empty_reply(),
            }) && (action matches ExchangeAction::SendRequest { fields, fin } && field_views(
                fields@,
            ) == all_encoded(request_headers("POST"@, path@, seq![json_header()])) && !fin),
    {
        Exchange::post_text(path, value_to_bytes(&body))
    }
}

/// The header that says that a body is JSON.
pub open spec fn json_header() -> TextField {
    ("content-type"@, "application/json"@)
}

/// What the outside world answers to a step of sending all packets that are due.
pub enum FlushEvent {
    /// Sending begins.
    Start,
    /// What asking the connection for a packet came to.
    Sent(SendOutcome),
    /// What sending the packet came to.
    Transmitted(Result<(), std::io::Error>),
}

/// What is to be done next to send all packets that are due.
pub enum FlushAction {
    /// Ask the connection for a packet.
    Send,
    /// Send a packet of this length.
    Transmit(usize),
    /// All packets are sent, or something failed.
    Finish(Result<(), H3Error>),
}

/// What follows an event of sending all packets that are due.
pub open spec fn flush_next(event: FlushEvent) -> FlushAction {
    match event {
        FlushEvent::Start => FlushAction::Send,
        FlushEvent::Sent(SendOutcome::Wrote(len)) => FlushAction::Transmit(len),
        FlushEvent::Sent(SendOutcome::Done) => FlushAction::Finish(Ok(())),
        FlushEvent::Sent(SendOutcome::Failed(e)) => FlushAction::Finish(Err(H3Error::Quic(e))),
        FlushEvent::Transmitted(Ok(_)) => FlushAction::Send,
        FlushEvent::Transmitted(Err(e)) => FlushAction::Finish(Err(H3Error::Io(e))),
    }
}

/// Says what is to be done next to send all packets that are due.
pub fn flush_step(event: FlushEvent) -> (action: FlushAction)
    ensures
        action == flush_next(event),
{
    match event {
        FlushEvent::Start => FlushAction::Send,
        FlushEvent::Sent(SendOutcome::Wrote(len)) => FlushAction::Transmit(len),
        FlushEvent::Sent(SendOutcome::Done) => FlushAction::Finish(Ok(())),
        FlushEvent::Sent(SendOutcome::Failed(e)) => FlushAction::Finish(Err(H3Error::from(e))),
        FlushEvent::Transmitted(Ok(_)) => FlushAction::Send,
        FlushEvent::Transmitted(Err(e)) => FlushAction::Finish(Err(H3Error::from(e))),
    }
}

/// What the outside world answers to a step of the handshake.
pub enum HandshakeEvent {
    /// This much time has passed since the handshake began, in nanoseconds.
    Elapsed(u128),
    /// What sending all packets that are due came to.
    Flushed(Result<(), H3Error>),
    /// Whether the connection is established.
    Established(bool),
    /// What waiting for a packet came to.
    Received(Received),
    /// The connection has taken the packet in, or refused it.
    Fed,
    /// What starting the HTTP/3 session came to.
    Http3Started(Result<(), H3Error>),
}

/// What is to be done next in the handshake.
pub enum HandshakeAction {
    /// Find out how much time has passed.
    CheckTime,
    /// Send all packets that are due.
    Flush,
    /// Find out whether the connection is established.
    CheckEstablished,
    /// Wait for a packet.
    Receive,
    /// Hand the packet to the connection.
    Feed,
    /// Start the HTTP/3 session.
    StartHttp3,
    /// The handshake is over.
    Finish(Result<(), H3Error>),
}

/// What follows an event of the handshake.
pub open spec fn handshake_next(event: HandshakeEvent) -> HandshakeAction {
    match event {
        HandshakeEvent::Elapsed(nanos) => if nanos > HANDSHAKE_TIMEOUT_NANOS {
            HandshakeAction::Finish(Err(H3Error::HandshakeTimeout))
        } else {
            HandshakeAction::Flush
        },
        HandshakeEvent::Flushed(Ok(_)) => HandshakeAction::CheckEstablished,
        HandshakeEvent::Flushed(Err(e)) => HandshakeAction::Finish(Err(e)),
        HandshakeEvent::Established(true) => HandshakeAction::StartHttp3,
        HandshakeEvent::Established(false) => HandshakeAction::Receive,
        HandshakeEvent::Received(Received::Packet) => HandshakeAction::Feed,
        HandshakeEvent::Received(Received::Failed(e)) => HandshakeAction::Finish(
            Err(H3Error::Io(e)),
        ),
        HandshakeEvent::Received(Received::TimedOut) => HandshakeAction::CheckTime,
        HandshakeEvent::Fed => HandshakeAction::CheckTime,
        HandshakeEvent::Http3Started(r) => HandshakeAction::Finish(r),
    }
}

/// Says what is to be done next in the handshake.
pub fn handshake_step(event: HandshakeEvent) -> (action: HandshakeAction)
    ensures
        action == handshake_next(event),
{
    match event {
        HandshakeEvent::Elapsed(nanos) => {
            if nanos > HANDSHAKE_TIMEOUT_NANOS {
                HandshakeAction::Finish(Err(H3Error::HandshakeTimeout))
            } else {
                HandshakeAction::Flush
            }
        },
        HandshakeEvent::Flushed(Ok(_)) => HandshakeAction::CheckEstablished,
        HandshakeEvent::Flushed(Err(e)) => HandshakeAction::Finish(Err(e)),
        HandshakeEvent::Established(established) => {
            if established {
                HandshakeAction::StartHttp3
            } else {
                HandshakeAction::Receive
            }
        },
        HandshakeEvent::Received(Received::Packet) => HandshakeAction::Feed,
        HandshakeEvent::Received(Received::Failed(e)) => HandshakeAction::Finish(
            Err(H3Error::from(e)),
        ),
        HandshakeEvent::Received(Received::TimedOut) => HandshakeAction::CheckTime,
        HandshakeEvent::Fed => HandshakeAction::CheckTime,
        HandshakeEvent::Http3Started(r) => HandshakeAction::Finish(r),
    }
}

/// Whether an event is an answer to an action of the handshake.
pub open spec fn handshake_answers(action: HandshakeAction, event: HandshakeEvent) -> bool {
    match action {
        HandshakeAction::CheckTime => event is Elapsed,
        HandshakeAction::Flush => event is Flushed,
        HandshakeAction::CheckEstablished => event is Established,
        HandshakeAction::Receive => event is Received,
        HandshakeAction::Feed => event is Fed,
        HandshakeAction::StartHttp3 => event is Http3Started,
        HandshakeAction::Finish(_) => false,
    }
}

/// Whether some events are a course that the handshake can take: it begins by finding out
/// how much time has passed, and each event answers what the one before it asked for.
pub open spec fn handshake_course(events: Seq<HandshakeEvent>) -> bool {
    &&& events.len() > 0
    &&& events[0] is Elapsed
    &&& forall|i: int|
        #![trigger events[i]]
        0 < i < events.len() ==> handshake_answers(handshake_next(events[i - 1]), events[i])
}

/// A handshake succeeds only in time and on a connection that is established: its last steps
/// are that no more than the allowed time had passed, that all packets were sent, that the
/// connection was established, and that its HTTP/3 session was started.
pub proof fn law_handshake_success(events: Seq<HandshakeEvent>)
    requires
        handshake_course(events),
        handshake_next(events.last()) == HandshakeAction::Finish(Ok(())),
    ensures
        ({
            let n = events.len() as int;
            &&& n >= 4
            &&& (events[n - 4] matches HandshakeEvent::Elapsed(nanos) && nanos
                <= HANDSHAKE_TIMEOUT_NANOS)
            &&& (events[n - 3] matches HandshakeEvent::Flushed(r) && r is Ok)
            &&& events[n - 2] == HandshakeEvent::Established(true)
            &&& (events[n - 1] matches HandshakeEvent::Http3Started(r) && r is Ok)
        }),
{
    let n = events.len() as int;
    assert(events[n - 1] is Http3Started);
    assert(handshake_answers(handshake_next(events[n - 2]), events[n - 1]));
    assert(handshake_answers(handshake_next(events[n - 3]), events[n - 2]));
    assert(handshake_answers(handshake_next(events[n - 4]), events[n - 3]));
}

/// Nothing that arrives on another stream changes the answer to a request, or ends it.
pub proof fn law_other_streams_do_not_matter(
    s: ExchangeState,
    stream_id: u64,
    event: H3Event,
    action: ExchangeAction,
)
    requires
        s.stream_id != Some(stream_id),
        exchange_action(s, ExchangeEvent::Polled(Polled::Event(stream_id, event)), action),
    ensures
        exchange_after(s, ExchangeEvent::Polled(Polled::Event(stream_id, event))) == s,
        action == ExchangeAction::Poll,
{
}

proof fn lemma_name_is_missing(fields: Seq<TextField>, name: Seq<char>)
    requires
        !has_field(fields, name),
    ensures
        last_value(fields, name) is None,
        forall|i: int| 0 <= i < fields.len() ==> (#[trigger] fields[i]).0 != name,
{
    lemma_last_value_exists(fields, name);
}

/// The fields that the server sees in front of the headers of every request.
pub open spec fn seen_preamble() -> Seq<TextField> {
    seq![
        (":scheme"@, "https"@),
        (":authority"@, "localhost"@),
        ("user-agent"@, "quic-h3/0.1"@),
    ]
}

/// What a client asks for is what the server is asked for: the server reads the method, the
/// path and the headers of a request as the client wrote them. This holds unless the headers
/// themselves name a method or a path, which then takes the place of the one asked for.
pub proof fn law_server_reads_request(
    conn_id: Seq<char>,
    stream_id: u64,
    method: Seq<char>,
    path: Seq<char>,
    extra: Seq<TextField>,
)
    requires
        !has_field(extra, ":method"@),
        !has_field(extra, ":path"@),
    ensures
        request_begun(conn_id, stream_id, all_encoded(request_headers(method, path, extra)))
            == (RequestView {
            method,
            path,
            headers: seen_preamble() + extra,
            body: Seq::empty(),
            stream_id,
            conn_id,
        }),
{
    let texts = request_headers(method, path, extra);
    let plain = |f: TextField| f.0 != ":method"@ && f.0 != ":path"@;
    law_fields_round_trip(texts);
    lemma_name_is_missing(extra, ":method"@);
    lemma_name_is_missing(extra, ":path"@);
    lemma_last_value_concat(request_preamble(method, path), extra, ":method"@);
    lemma_last_value_concat(request_preamble(method, path), extra, ":path"@);
    lemma_preamble(method, path);
    Seq::filter_distributes_over_add(request_preamble(method, path), extra, plain);
    lemma_all_wanted(extra, plain);
}

proof fn lemma_preamble(method: Seq<char>, path: Seq<char>)
    ensures
        last_value(request_preamble(method, path), ":method"@) == Some(method),
        last_value(request_preamble(method, path), ":path"@) == Some(path),
        request_preamble(method, path).filter(
            |f: TextField| f.0 != ":method"@ && f.0 != ":path"@,
        ) == seen_preamble(),
{
    let plain = |f: TextField| f.0 != ":method"@ && f.0 != ":path"@;
    reveal_strlit(":method");
    reveal_strlit(":scheme");
    reveal_strlit(":path");
    reveal_strlit(":authority");
    reveal_strlit("user-agent");
    assert(":method"@[1] != ":scheme"@[1]);
    assert(":method"@.len() == 7 && ":scheme"@.len() == 7 && ":path"@.len() == 5);
    assert(":authority"@.len() == 10 && "user-agent"@.len() == 10);
    let none = Seq::<TextField>::empty();
    let one = none.push((":method"@, method));
    let two = one.push((":scheme"@, "https"@));
    let three = two.push((":path"@, path));
    let four = three.push((":authority"@, "localhost"@));
    let five = four.push(("user-agent"@, "quic-h3/0.1"@));
    assert(five =~= request_preamble(method, path));
    lemma_all_wanted(none, plain);
    lemma_one_more_field(none, (":method"@, method), ":method"@, plain);
    lemma_one_more_field(one, (":scheme"@, "https"@), ":method"@, plain);
    lemma_one_more_field(two, (":path"@, path), ":method"@, plain);
    lemma_one_more_field(three, (":authority"@, "localhost"@), ":method"@, plain);
    lemma_one_more_field(four, ("user-agent"@, "quic-h3/0.1"@), ":method"@, plain);
    lemma_one_more_field(two, (":path"@, path), ":path"@, plain);
    lemma_one_more_field(three, (":authority"@, "localhost"@), ":path"@, plain);
    lemma_one_more_field(four, ("user-agent"@, "quic-h3/0.1"@), ":path"@, plain);
    assert(five.filter(plain) =~= seen_preamble());
}

/// What the server answers is what the client sees: the client reads the status and the
/// headers of an answer as the server wrote them, with the name of the server in front. This
/// holds unless the headers themselves name a status, which then takes the place of the one
/// answered.
pub proof fn law_client_reads_response(response: ResponseView)
    requires
        !has_field(response.headers, ":status"@),
    ensures
        with_headers(empty_reply(), all_encoded(response_headers(response))) == (ResponseView {
            status: response.status,
            headers: seq![("server"@, "quic-h3/0.1"@)] + response.headers,
            body: Seq::empty(),
        }),
{
    let texts = response_headers(response);
    let plain = |f: TextField| f.0 != ":status"@;
    let status = (":status"@, decimal(response.status as nat));
    let server = ("server"@, "quic-h3/0.1"@);
    let front = seq![status, server];
    law_fields_round_trip(texts);
    lemma_name_is_missing(response.headers, ":status"@);
    lemma_last_value_concat(front, response.headers, ":status"@);
    reveal_strlit(":status");
    reveal_strlit("server");
    assert(":status"@.len() != "server"@.len());
    let none = Seq::<TextField>::empty();
    let one = none.push(status);
    assert(one.push(server) =~= front);
    lemma_all_wanted(none, plain);
    lemma_one_more_field(none, status, ":status"@, plain);
    lemma_one_more_field(one, server, ":status"@, plain);
    assert(front.filter(plain) =~= seq![server]);
    Seq::filter_distributes_over_add(front, response.headers, plain);
    lemma_all_wanted(response.headers, plain);
    law_status_round_trip(response.status);
    assert(empty_reply().headers + plain_reply_fields(texts) == plain_reply_fields(texts));
}

/// A request once some pieces of the body of its answer have been read.
pub open spec fn after_reply_pieces(s: ExchangeState, pieces: Seq<Vec<u8>>) -> ExchangeState
    decreases pieces.len(),
{
    if pieces.len() == 0 {
        s
    } else {
        exchange_after(
            after_reply_pieces(s, pieces.drop_last()),
            ExchangeEvent::BodyRead(pieces.last()),
        )
    }
}

proof fn lemma_after_reply_pieces(s: ExchangeState, pieces: Seq<Vec<u8>>)
    ensures
        after_reply_pieces(s, pieces) == (ExchangeState {
            reply: ResponseView { body: s.reply.body + joined_pieces(pieces), ..s.reply },
            ..s
        }),
    decreases pieces.len(),
{
    if pieces.len() == 0 {
        assert(s.reply.body + joined_pieces(pieces) == s.reply.body);
    } else {
        lemma_after_reply_pieces(s, pieces.drop_last());
        let body = s.reply.body;
        assert(body + joined_pieces(pieces.drop_last()) + pieces.last()@ == body + joined_pieces(
            pieces,
        ));
    }
}

/// An answer comes through whole: once the header fields that the server writes for it have
/// arrived, then its body in whatever pieces, and then the end of the stream, the request
/// succeeds with the status, the headers and the body that the server answered.
pub proof fn law_answer_comes_through(
    s: ExchangeState,
    stream_id: u64,
    response: ResponseView,
    fields: Vec<HeaderField>,
    pieces: Seq<Vec<u8>>,
    action: ExchangeAction,
)
    requires
        s.stream_id == Some(stream_id),
        s.reply == empty_reply(),
        !has_field(response.headers, ":status"@),
        field_views(fields@) == all_encoded(response_headers(response)),
        joined_pieces(pieces) == response.body,
        exchange_action(
            after_reply_pieces(
                exchange_after(
                    s,
                    ExchangeEvent::Polled(Polled::Event(stream_id, H3Event::Headers(fields))),
                ),
                pieces,
            ),
            ExchangeEvent::Polled(Polled::Event(stream_id, H3Event::Finished)),
            action,
        ),
    ensures
        action matches ExchangeAction::Finish(Ok(reply)) && reply@ == (ResponseView {
            headers: seq![("server"@, "quic-h3/0.1"@)] + response.headers,
            ..response
        }),
{
    law_client_reads_response(response);
    let begun = exchange_after(
        s,
        ExchangeEvent::Polled(Polled::Event(stream_id, H3Event::Headers(fields))),
    );
    lemma_after_reply_pieces(begun, pieces);
    assert(begun.reply.body + joined_pieces(pieces) == response.body);
}

/// A request succeeds exactly with the end of its own stream.
pub proof fn law_success_is_the_end_of_the_stream(
    s: ExchangeState,
    event: ExchangeEvent,
    action: ExchangeAction,
)
    requires
        exchange_action(s, event, action),
    ensures
        (action matches ExchangeAction::Finish(r) && r is Ok) <==> (event matches
            ExchangeEvent::Polled(Polled::Event(stream_id, e)) && e is Finished && s.stream_id
            == Some(stream_id)),
{
}

/// A request comes through whole: once the header fields that the client writes for it have
/// arrived, then its body in whatever pieces, and then the end of the stream, the handler is
/// asked for the method, the path, the headers and the body that the client asked for.
pub proof fn law_request_comes_through(
    s: RequestState,
    stream_id: u64,
    method: Seq<char>,
    path: Seq<char>,
    extra: Seq<TextField>,
    fields: Vec<HeaderField>,
    pieces: Seq<Vec<u8>>,
    action: RequestAction,
)
    requires
        s.handled,
        !has_field(extra, ":method"@),
        !has_field(extra, ":path"@),
        field_views(fields@) == all_encoded(request_headers(method, path, extra)),
        request_action(
            after_pieces(
                requests_after(
                    s,
                    RequestEvent::Polled(Polled::Event(stream_id, H3Event::Headers(fields))),
                ),
                stream_id,
                pieces,
            ),
            RequestEvent::Polled(Polled::Event(stream_id, H3Event::Finished)),
            action,
        ),
    ensures
        action matches RequestAction::Dispatch(request) && request@ == (RequestView {
            method,
            path,
            headers: seen_preamble() + extra,
            body: joined_pieces(pieces),
            stream_id,
            conn_id: s.conn_id,
        }),
{
    law_server_reads_request(s.conn_id, stream_id, method, path, extra);
    law_request_is_complete(s, stream_id, fields, pieces, action);
}

} // verus!
