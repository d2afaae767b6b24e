//! The server: requests are put together from what arrives, and answers are written out.

use std::collections::HashMap;
use vstd::prelude::*;
use vstd::utf8::encode_utf8;

use crate::http::{
    all_decoded, all_encoded, encoded, field_text, field_views, has_field, header_field, last_value,
    pair_views, FieldView, H3Event, HeaderField, Polled, TextField,
};
use crate::json::{json_text, object_text, object_value, value_to_text};
use crate::text::{decimal, decimal_string};

verus! {

broadcast use vstd::std_specs::hash::group_hash_axioms;

/// A request that has arrived.
#[derive(Debug, Clone)]
pub struct H3Request {
    pub method: String,
    pub path: String,
    pub headers: Vec<(String, String)>,
    pub body: Vec<u8>,
    pub stream_id: u64,
    pub conn_id: String,
}

/// What a request says.
pub struct RequestView {
    pub method: Seq<char>,
    pub path: Seq<char>,
    pub headers: Seq<TextField>,
    pub body: Seq<u8>,
    pub stream_id: u64,
    pub conn_id: Seq<char>,
}

impl View for H3Request {
    type V = RequestView;

    open spec fn view(&self) -> RequestView {
        RequestView {
            method: self.method@,
            path: self.path@,
            headers: pair_views(self.headers@),
            body: self.body@,
            stream_id: self.stream_id,
            conn_id: self.conn_id@,
        }
    }
}

/// The fields of a request that name neither its method nor its path.
pub open spec fn plain_fields(fields: Seq<TextField>) -> Seq<TextField> {
    fields.filter(|f: TextField| f.0 != ":method"@ && f.0 != ":path"@)
}

/// A value, or the empty text.
pub open spec fn or_empty(value: Option<Seq<char>>) -> Seq<char> {
    match value {
        Some(v) => v,
        None => Seq::empty(),
    }
}

/// The request that some header fields begin: its method and its path are what the last
/// fields of these names say, and its body is still to come.
pub open spec fn request_begun(
    conn_id: Seq<char>,
    stream_id: u64,
    fields: Seq<FieldView>,
) -> RequestView {
    let texts = all_decoded(fields);
    RequestView {
        method: or_empty(last_value(texts, ":method"@)),
        path: or_empty(last_value(texts, ":path"@)),
        headers: plain_fields(texts),
        body: Seq::empty(),
        stream_id,
        conn_id,
    }
}

/// Begins a request with the header fields that arrived on a stream.
pub fn begin_request(conn_id: &str, stream_id: u64, fields: &Vec<HeaderField>) -> (r: H3Request)
    ensures
        r@ == request_begun(conn_id@, stream_id, field_views(fields@)),
{
    let ghost texts = all_decoded(field_views(fields@));
    let ghost plain = |f: TextField| f.0 != ":method"@ && f.0 != ":path"@;
    let method_name = String::from(":method");
    let path_name = String::from(":path");
    let mut method = String::new();
    let mut path = String::new();
    let mut headers: Vec<(String, String)> = Vec::new();
    let mut i: usize = 0;
    proof {
        reveal(Seq::filter);
        assert(texts.take(0) == Seq::<TextField>::empty());
        assert(pair_views(headers@) =~= Seq::<TextField>::empty());
    }
    while i < fields.len()
        invariant
            texts == all_decoded(field_views(fields@)),
            plain == (|f: TextField| f.0 != ":method"@ && f.0 != ":path"@),
            method_name@ == ":method"@,
            path_name@ == ":path"@,
            i <= fields@.len(),
            method@ == or_empty(last_value(texts.take(i as int), ":method"@)),
            path@ == or_empty(last_value(texts.take(i as int), ":path"@)),
            pair_views(headers@) == texts.take(i as int).filter(plain),
        decreases fields@.len() - i,
    {
        let (name, value) = field_text(&fields[i]);
        let ghost before = headers@;
        proof {
            reveal(Seq::filter);
            assert(texts.take(i + 1).drop_last() == texts.take(i as int));
            assert(texts.take(i + 1).last() == (name@, value@));
            reveal_strlit(":method");
            reveal_strlit(":path");
            assert(":method"@.len() != ":path"@.len());
        }
        if name == method_name {
            method = value;
        } else if name == path_name {
            path = value;
        } else {
            headers.push((name, value));
            assert(pair_views(headers@) =~= pair_views(before).push((name@, value@)));
        }
        i = i + 1;
    }
    assert(texts.take(i as int) == texts);
    H3Request { method, path, headers, body: Vec::new(), stream_id, conn_id: String::from(conn_id) }
}

/// An answer to a request.
#[derive(Debug, Clone)]
pub struct H3Response {
    pub status: u16,
    pub headers: Vec<(String, String)>,
    pub body: Vec<u8>,
}

/// What an answer says.
pub struct ResponseView {
    pub status: u16,
    pub headers: Seq<TextField>,
    pub body: Seq<u8>,
}

impl View for H3Response {
    type V = ResponseView;

    open spec fn view(&self) -> ResponseView {
        ResponseView { status: self.status, headers: pair_views(self.headers@), body: self.body@ }
    }
}

/// The header that says how long a body is.
pub open spec fn length_header(body: Seq<u8>) -> TextField {
    ("content-length"@, decimal(body.len()))
}

/// An answer of status 200 with a body and its length.
pub open spec fn ok_response(body: Seq<u8>) -> ResponseView {
    ResponseView { status: 200, headers: seq![length_header(body)], body }
}

/// An answer with a JSON text as its body.
pub open spec fn json_response(status: u16, text: Seq<char>) -> ResponseView {
    let body = encode_utf8(text);
    ResponseView {
        status,
        headers: seq![("content-type"@, "application/json"@), length_header(body)],
        body,
    }
}

impl H3Response {
    /// An answer of the given status with a JSON value as its body.
    pub fn json(status: u16, body: serde_json::Value) -> (r: H3Response)
        ensures
            r@ == json_response(status, json_text(body)),
    {
        let body: Vec<u8> = Vec::from(value_to_text(&body));
        let mut headers: Vec<(String, String)> = Vec::new();
        headers.push((String::from("content-type"), String::from("application/json")));
        headers.push((String::from("content-length"), decimal_string(body.len() as u64)));
        let r = H3Response { status, headers, body };
        assert(pair_views(r.headers@) =~= seq![
            ("content-type"@, "application/json"@),
            length_header(r.body@),
        ]);
        r
    }

    /// An answer of status 200 with the given body.
    pub fn ok<B: Into<Vec<u8>>>(body: B) -> (r: H3Response)
        ensures
            call_ensures(<B as Into<Vec<u8>>>::into, (body,), r.body),
            r@ == ok_response(r.body@),
    {
        let body: Vec<u8> = body.into();
        let mut headers: Vec<(String, String)> = Vec::new();
        headers.push((String::from("content-length"), decimal_string(body.len() as u64)));
        let r = H3Response { status: 200, headers, body };
        assert(pair_views(r.headers@) =~= seq![length_header(r.body@)]);
        r
    }

    /// The answer to a request for something that does not exist.
    pub fn not_found() -> (r: H3Response)
        ensures
            r@ == json_response(404, "{\"error\":\"not found\"}"@),
    {
        proof {
            reveal_strlit("error");
            reveal_strlit("not found");
            reveal_strlit("{\"error\":\"not found\"}");
            assert(object_text("error"@, "not found"@) =~= "{\"error\":\"not found\"}"@);
        }
        H3Response::json(404, object_value("error", "not found"))
    }
}

/// The header fields of an answer as text: its status, then the name of the server, then
/// its own headers.
pub open spec fn response_headers(response: ResponseView) -> Seq<TextField> {
    seq![(":status"@, decimal(response.status as nat)), ("server"@, "quic-h3/0.1"@)]
        + response.headers
}

/// Writes out the header fields of an answer.
pub fn response_fields(response: &H3Response) -> (fields: Vec<HeaderField>)
    ensures
        field_views(fields@) == all_encoded(response_headers(response@)),
{
    let status = decimal_string(response.status as u64);
    let mut fields: Vec<HeaderField> = Vec::new();
    fields.push(header_field(":status", status.as_str()));
    fields.push(header_field("server", "quic-h3/0.1"));
    let ghost all = response_headers(response@);
    let mut i: usize = 0;
    assert(field_views(fields@) =~= all_encoded(all.take(2)));
    while i < response.headers.len()
        invariant
            all == response_headers(response@),
            i <= response.headers@.len(),
            field_views(fields@) == all_encoded(all.take(2 + i)),
        decreases response.headers@.len() - i,
    {
        let (name, value) = &response.headers[i];
        let ghost before = fields@;
        fields.push(header_field(name.as_str(), value.as_str()));
        proof {
            assert(all[2 + i] == (name@, value@));
            assert(field_views(fields@) =~= field_views(before).push(encoded((name@, value@))));
            assert(all_encoded(all.take(3 + i)) =~= all_encoded(all.take(2 + i)).push(
                encoded(all[2 + i]),
            ));
        }
        i = i + 1;
    }
    assert(all.take(2 + i) == all);
    fields
}

/// What the outside world answers to a step of serving requests.
pub enum RequestEvent {
    /// What asking for the next event came to.
    Polled(Polled),
    /// These bytes of a body were read from a stream.
    Body(u64, Vec<u8>),
    /// The request has been handed to the handler.
    Dispatched,
}

/// What is to be done next to serve requests.
pub enum RequestAction {
    /// Ask for the next event.
    Poll,
    /// Read from the body that arrives on a stream.
    ReadBody(u64),
    /// Hand the request to the handler and send its answer.
    Dispatch(H3Request),
    /// There is nothing more to do.
    Stop,
}

/// How far the requests of a connection have come.
pub struct RequestState {
    pub conn_id: Seq<char>,
    /// Whether there is a handler.
    pub handled: bool,
    /// The requests that have begun and are not complete, by stream.
    pub pending: Map<u64, RequestView>,
}

/// A request with more of its body.
pub open spec fn with_body(request: RequestView, bytes: Seq<u8>) -> RequestView {
    RequestView { body: request.body + bytes, ..request }
}

/// The requests once an event has been taken in.
pub open spec fn requests_after(s: RequestState, event: RequestEvent) -> RequestState {
    let pending = match event {
        RequestEvent::Polled(Polled::Event(stream_id, H3Event::Headers(fields))) => {
            s.pending.insert(stream_id, request_begun(s.conn_id, stream_id, field_views(fields@)))
        },
        RequestEvent::Polled(Polled::Event(stream_id, H3Event::Finished)) => {
            s.pending.remove(stream_id)
        },
        RequestEvent::Body(stream_id, bytes) => {
            if s.pending.contains_key(stream_id) {
                s.pending.insert(stream_id, with_body(s.pending[stream_id], bytes@))
            } else {
                s.pending
            }
        },
        _ => s.pending,
    };
    RequestState { pending, ..s }
}

/// Whether an action is the one that follows an event.
pub open spec fn request_action(s: RequestState, event: RequestEvent, action: RequestAction) -> bool {
    match event {
        RequestEvent::Polled(Polled::Event(stream_id, H3Event::Data)) => {
            action == RequestAction::ReadBody(stream_id)
        },
        RequestEvent::Polled(Polled::Event(stream_id, H3Event::Finished)) => {
            if s.handled && s.pending.contains_key(stream_id) {
                action matches RequestAction::Dispatch(request) && request@ == s.pending[stream_id]
            } else {
                action == RequestAction::Poll
            }
        },
        RequestEvent::Polled(Polled::Done) => action == RequestAction::Stop,
        RequestEvent::Polled(Polled::Failed(_)) => action == RequestAction::Stop,
        RequestEvent::Polled(Polled::NotReady) => action == RequestAction::Stop,
        _ => action == RequestAction::Poll,
    }
}

/// Puts together the requests that arrive on a connection. A request begins with its
/// headers, grows with every piece of its body, and goes to the handler once its stream
/// is finished.
pub struct PendingRequests {
    conn_id: String,
    handled: bool,
    pending: HashMap<u64, H3Request>,
}

impl View for PendingRequests {
    type V = RequestState;

    closed spec fn view(&self) -> RequestState {
        RequestState {
            conn_id: self.conn_id@,
            handled: self.handled,
            pending: self.pending@.map_values(|r: H3Request| r@),
        }
    }
}

impl PendingRequests {
    /// No request has begun.
    pub fn new(conn_id: &str, handled: bool) -> (r: PendingRequests)
        ensures
            r@ == (RequestState {
                conn_id: conn_id@,
                handled,
                pending: Map::<u64, RequestView>::empty(),
            }),
    {
        let r = PendingRequests {
            conn_id: String::from(conn_id),
            handled,
            pending: HashMap::new(),
        };
        assert(r@.pending =~= Map::<u64, RequestView>::empty());
        r
    }

    /// Takes in what the outside world answered to the last action, and says what is to be
    /// done next.
    pub fn step(&mut self, event: RequestEvent) -> (action: RequestAction)
        ensures
            final(self)@ == requests_after(old(self)@, event),
            request_action(old(self)@, event, action),
    {
        match event {
            RequestEvent::Polled(Polled::Event(stream_id, H3Event::Headers(fields))) => {
                let request = begin_request(self.conn_id.as_str(), stream_id, &fields);
                self.pending.insert(stream_id, request);
                assert(self@.pending =~= old(self)@.pending.insert(stream_id, request@));
                RequestAction::Poll
            },
            RequestEvent::Polled(Polled::Event(stream_id, H3Event::Data)) => {
                RequestAction::ReadBody(stream_id)
            },
            RequestEvent::Polled(Polled::Event(stream_id, H3Event::Finished)) => {
                let done = self.pending.remove(&stream_id);
                assert(self@.pending =~= old(self)@.pending.remove(stream_id));
                match done {
                    Some(request) => {
                        if self.handled {
                            RequestAction::Dispatch(request)
                        } else {
                            RequestAction::Poll
                        }
                    },
                    None => RequestAction::Poll,
                }
            },
            RequestEvent::Polled(Polled::Event(_, H3Event::Other)) => RequestAction::Poll,
            RequestEvent::Polled(Polled::Done) => RequestAction::Stop,
            RequestEvent::Polled(Polled::Failed(_)) => RequestAction::Stop,
            RequestEvent::Polled(Polled::NotReady) => RequestAction::Stop,
            RequestEvent::Body(stream_id, bytes) => {
                match self.pending.remove(&stream_id) {
                    Some(mut request) => {
                        let ghost before = request@;
                        let mut more = bytes;
                        request.body.append(&mut more);
                        assert(request@ == with_body(before, bytes@));
                        self.pending.insert(stream_id, request);
                        assert(self@.pending =~= old(self)@.pending.insert(
                            stream_id,
                            with_body(before, bytes@),
                        ));
                    },
                    None => {
                        assert(self@.pending =~= old(self)@.pending);
                    },
                }
                RequestAction::Poll
            },
            RequestEvent::Dispatched => RequestAction::Poll,
        }
    }
}

/// What arrives on one stream leaves the requests on the others as they are.
pub proof fn law_requests_do_not_mix(s: RequestState, event: RequestEvent, other: u64)
    requires
        match event {
            RequestEvent::Polled(Polled::Event(stream_id, _)) => stream_id != other,
            RequestEvent::Body(stream_id, _) => stream_id != other,
            _ => true,
        },
    ensures
        requests_after(s, event).pending.contains_key(other) == s.pending.contains_key(other),
        s.pending.contains_key(other) ==> requests_after(s, event).pending[other]
            == s.pending[other],
{
}

/// All the bytes of some pieces of a body.
pub open spec fn joined_pieces(pieces: Seq<Vec<u8>>) -> Seq<u8>
    decreases pieces.len(),
{
    if pieces.len() == 0 {
        Seq::empty()
    } else {
        joined_pieces(pieces.drop_last()) + pieces.last()@
    }
}

/// The requests once some pieces of a body have been read from a stream.
pub open spec fn after_pieces(s: RequestState, stream_id: u64, pieces: Seq<Vec<u8>>) -> RequestState
    decreases pieces.len(),
{
    if pieces.len() == 0 {
        s
    } else {
        requests_after(
            after_pieces(s, stream_id, pieces.drop_last()),
            RequestEvent::Body(stream_id, pieces.last()),
        )
    }
}

/// A request that begins with some headers and goes on with some pieces of a body is handed
/// to the handler, once its stream is finished, with what the headers say and with all the
/// pieces in order.
pub proof fn law_request_is_complete(
    s: RequestState,
    stream_id: u64,
    fields: Vec<HeaderField>,
    pieces: Seq<Vec<u8>>,
    action: RequestAction,
)
    requires
        s.handled,
        request_action(
            after_pieces(
                requests_after(
                    s,
                    RequestEvent::Polled(Polled::Event(stream_id, H3Event::Headers(fields))),
                ),
                stream_id,
                pieces,
            ),
            RequestEvent::Polled(Polled::Event(stream_id, H3Event::Finished)),
            action,
        ),
    ensures
        action matches RequestAction::Dispatch(request) && request@ == (RequestView {
            body: joined_pieces(pieces),
            ..request_begun(s.conn_id, stream_id, field_views(fields@))
        }),
{
    let begun = requests_after(
        s,
        RequestEvent::Polled(Polled::Event(stream_id, H3Event::Headers(fields))),
    );
    lemma_after_pieces(begun, stream_id, pieces);
    let request = begun.pending[stream_id];
    assert(request.body + joined_pieces(pieces) == joined_pieces(pieces));
}

proof fn lemma_after_pieces(s: RequestState, stream_id: u64, pieces: Seq<Vec<u8>>)
    requires
        s.pending.contains_key(stream_id),
    ensures
        after_pieces(s, stream_id, pieces).handled == s.handled,
        after_pieces(s, stream_id, pieces).pending.contains_key(stream_id),
        after_pieces(s, stream_id, pieces).pending[stream_id] == with_body(
            s.pending[stream_id],
            joined_pieces(pieces),
        ),
    decreases pieces.len(),
{
    if pieces.len() == 0 {
        assert(s.pending[stream_id].body + joined_pieces(pieces) == s.pending[stream_id].body);
    } else {
        lemma_after_pieces(s, stream_id, pieces.drop_last());
        let body = s.pending[stream_id].body;
        assert(body + joined_pieces(pieces.drop_last()) + pieces.last()@ == body + joined_pieces(
            pieces,
        ));
    }
}

/// A request goes to the handler once: when its stream is finished again, nothing comes of
/// it.
pub proof fn law_request_goes_out_once(s: RequestState, stream_id: u64, action: RequestAction)
    requires
        request_action(
            requests_after(
                s,
                RequestEvent::Polled(Polled::Event(stream_id, H3Event::Finished)),
            ),
            RequestEvent::Polled(Polled::Event(stream_id, H3Event::Finished)),
            action,
        ),
    ensures
        action == RequestAction::Poll,
{
}

/// The length that an answer announces is the length of its body, and a JSON answer says
/// that it is JSON.
pub proof fn law_announced_length(status: u16, text: Seq<char>, body: Seq<u8>)
    ensures
        last_value(ok_response(body).headers, "content-length"@) == Some(decimal(body.len())),
        last_value(json_response(status, text).headers, "content-length"@) == Some(
            decimal(json_response(status, text).body.len()),
        ),
        has_field(json_response(status, text).headers, "content-type"@),
{
    let json = json_response(status, text).headers;
    assert(json.last() == length_header(json_response(status, text).body));
    assert(json[0].0 == "content-type"@);
    assert(ok_response(body).headers.last() == length_header(body));
}

} // verus!
