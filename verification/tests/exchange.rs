use airnomads::client::{
    flush_step, handshake_step, request_fields, Exchange, ExchangeAction, ExchangeEvent,
    FlushAction, FlushEvent, H3ClientResponse, HandshakeAction, HandshakeEvent,
    HANDSHAKE_TIMEOUT_NANOS,
};
use airnomads::http::{field_text, header_field, H3Event, HeaderField, Polled};
use airnomads::server::{
    begin_request, response_fields, H3Request, H3Response, PendingRequests, RequestAction,
    RequestEvent,
};
use airnomads::transport::{Received, SendOutcome};
use airnomads::H3Error;
use serde_json::Value;

fn pairs(fields: &[HeaderField]) -> Vec<(String, String)> {
    fields.iter().map(field_text).collect()
}

fn owned(list: &[(&str, &str)]) -> Vec<(String, String)> {
    list.iter().map(|(k, v)| (k.to_string(), v.to_string())).collect()
}

fn io_error() -> std::io::Error {
    std::io::Error::from(std::io::ErrorKind::ConnectionReset)
}

fn json_error() -> serde_json::Error {
    serde_json::from_str::<Value>("{").unwrap_err()
}

fn object(key: &str, value: Value) -> Value {
    let mut members = serde_json::Map::new();
    members.insert(key.to_string(), value);
    Value::Object(members)
}

#[test]
fn header_fields_carry_text() {
    let field = header_field("x-name", "caf\u{e9}");
    assert_eq!(field.name, b"x-name");
    assert_eq!(field.value, b"caf\xc3\xa9");
    assert_eq!(field_text(&field), ("x-name".to_string(), "caf\u{e9}".to_string()));
    let odd = HeaderField { name: b"x".to_vec(), value: vec![0xc3] };
    assert_eq!(field_text(&odd), ("x".to_string(), String::new()));
}

#[test]
fn plain_answers() {
    let r = H3Response::ok("hello");
    assert_eq!(r.status, 200);
    assert_eq!(r.headers, owned(&[("content-length", "5")]));
    assert_eq!(r.body, b"hello");
    let bytes = H3Response::ok(vec![1u8, 2]);
    assert_eq!(bytes.headers, owned(&[("content-length", "2")]));
    assert_eq!(bytes.body, vec![1, 2]);
    assert_eq!(H3Response::ok(String::from("caf\u{e9}")).headers, owned(&[("content-length", "5")]));
    assert_eq!(H3Response::ok("").headers, owned(&[("content-length", "0")]));
}

#[test]
fn json_answers() {
    let r = H3Response::json(201, object("n", Value::from(1)));
    assert_eq!(r.status, 201);
    assert_eq!(r.body, b"{\"n\":1}");
    assert_eq!(
        r.headers,
        owned(&[("content-type", "application/json"), ("content-length", "7")])
    );
    let missing = H3Response::not_found();
    assert_eq!(missing.status, 404);
    assert_eq!(missing.body, b"{\"error\":\"not found\"}");
    assert_eq!(
        missing.headers,
        owned(&[("content-type", "application/json"), ("content-length", "21")])
    );
}

#[test]
fn answers_are_written_with_their_status_first() {
    let fields = response_fields(&H3Response::ok("hi"));
    assert_eq!(
        pairs(&fields),
        owned(&[(":status", "200"), ("server", "quic-h3/0.1"), ("content-length", "2")])
    );
}

#[test]
fn requests_are_written_with_their_preamble_first() {
    let fields = request_fields("PUT", "/a?b", &[("x-one", "1"), ("x-two", "2")]);
    assert_eq!(
        pairs(&fields),
        owned(&[
            (":method", "PUT"),
            (":scheme", "https"),
            (":path", "/a?b"),
            (":authority", "localhost"),
            ("user-agent", "quic-h3/0.1"),
            ("x-one", "1"),
            ("x-two", "2"),
        ])
    );
}

#[test]
fn the_server_reads_what_the_client_wrote() {
    let request = begin_request("c1", 8, &request_fields("PUT", "/a", &[("x-one", "1")]));
    assert_eq!(request.method, "PUT");
    assert_eq!(request.path, "/a");
    assert_eq!(
        request.headers,
        owned(&[
            (":scheme", "https"),
            (":authority", "localhost"),
            ("user-agent", "quic-h3/0.1"),
            ("x-one", "1"),
        ])
    );
    assert!(request.body.is_empty());
    assert_eq!((request.stream_id, request.conn_id.as_str()), (8, "c1"));
}

#[test]
fn the_last_method_counts() {
    let request = begin_request("c1", 0, &request_fields("GET", "/", &[(":method", "PUT")]));
    assert_eq!(request.method, "PUT");
    let bare = begin_request("c1", 0, &vec![]);
    assert_eq!((bare.method.as_str(), bare.path.as_str()), ("", ""));
}

fn polled(stream_id: u64, event: H3Event) -> RequestEvent {
    RequestEvent::Polled(Polled::Event(stream_id, event))
}

fn dispatched(action: RequestAction) -> H3Request {
    match action {
        RequestAction::Dispatch(request) => request,
        _ => panic!("the request is complete"),
    }
}

#[test]
fn requests_are_put_together() {
    let mut requests = PendingRequests::new("c1", true);
    let fields = request_fields("POST", "/a", &[]);
    assert!(matches!(requests.step(polled(0, H3Event::Headers(fields))), RequestAction::Poll));
    let other = request_fields("GET", "/b", &[]);
    assert!(matches!(requests.step(polled(4, H3Event::Headers(other))), RequestAction::Poll));
    assert!(matches!(requests.step(polled(0, H3Event::Data)), RequestAction::ReadBody(0)));
    assert!(matches!(
        requests.step(RequestEvent::Body(0, b"ab".to_vec())),
        RequestAction::Poll
    ));
    requests.step(RequestEvent::Body(0, b"c".to_vec()));
    assert!(matches!(requests.step(RequestEvent::Body(12, b"z".to_vec())), RequestAction::Poll));
    let second = dispatched(requests.step(polled(4, H3Event::Finished)));
    assert_eq!((second.method.as_str(), second.path.as_str()), ("GET", "/b"));
    assert!(second.body.is_empty());
    assert!(matches!(requests.step(RequestEvent::Dispatched), RequestAction::Poll));
    let first = dispatched(requests.step(polled(0, H3Event::Finished)));
    assert_eq!((first.method.as_str(), first.path.as_str()), ("POST", "/a"));
    assert_eq!(first.body, b"abc");
    assert_eq!((first.stream_id, first.conn_id.as_str()), (0, "c1"));
    assert!(matches!(requests.step(polled(0, H3Event::Finished)), RequestAction::Poll));
    assert!(matches!(requests.step(polled(0, H3Event::Other)), RequestAction::Poll));
}

#[test]
fn without_a_handler_requests_are_dropped() {
    let mut requests = PendingRequests::new("c1", false);
    requests.step(polled(0, H3Event::Headers(request_fields("GET", "/", &[]))));
    assert!(matches!(requests.step(polled(0, H3Event::Finished)), RequestAction::Poll));
}

#[test]
fn serving_stops_when_nothing_is_left() {
    let mut requests = PendingRequests::new("c1", true);
    assert!(matches!(requests.step(RequestEvent::Polled(Polled::Done)), RequestAction::Stop));
    assert!(matches!(requests.step(RequestEvent::Polled(Polled::NotReady)), RequestAction::Stop));
    assert!(matches!(
        requests.step(RequestEvent::Polled(Polled::Failed(quiche::h3::Error::FrameError))),
        RequestAction::Stop
    ));
}

fn event(stream_id: u64, e: H3Event) -> ExchangeEvent {
    ExchangeEvent::Polled(Polled::Event(stream_id, e))
}

fn finished(action: ExchangeAction) -> Result<H3ClientResponse, H3Error> {
    match action {
        ExchangeAction::Finish(r) => r,
        _ => panic!("the request is over"),
    }
}

#[test]
fn a_request_without_a_body() {
    let (mut exchange, first) = Exchange::get("/x");
    match first {
        ExchangeAction::SendRequest { fields, fin } => {
            assert!(fin);
            assert_eq!(
                pairs(&fields),
                owned(&[
                    (":method", "GET"),
                    (":scheme", "https"),
                    (":path", "/x"),
                    (":authority", "localhost"),
                    ("user-agent", "quic-h3/0.1"),
                ])
            );
        }
        _ => panic!("the request is sent first"),
    }
    assert!(matches!(
        exchange.step(ExchangeEvent::RequestSent(0)),
        ExchangeAction::FlushRequest
    ));
    assert!(matches!(
        exchange.step(ExchangeEvent::RequestFlushed(Ok(()))),
        ExchangeAction::Receive
    ));
}

#[test]
fn a_request_with_a_json_body() {
    let (mut exchange, first) = Exchange::post_json("/x", object("n", Value::from(1))).ok().unwrap();
    match first {
        ExchangeAction::SendRequest { fields, fin } => {
            assert!(!fin);
            let fields = pairs(&fields);
            assert_eq!(fields[0], (":method".to_string(), "POST".to_string()));
            assert_eq!(fields[5], ("content-type".to_string(), "application/json".to_string()));
            assert_eq!(fields.len(), 6);
        }
        _ => panic!("the request is sent first"),
    }
    match exchange.step(ExchangeEvent::RequestSent(4)) {
        ExchangeAction::SendBody { stream_id, body } => {
            assert_eq!(stream_id, 4);
            assert_eq!(body, b"{\"n\":1}");
        }
        _ => panic!("the body follows"),
    }
    assert!(matches!(exchange.step(ExchangeEvent::BodySent), ExchangeAction::FlushRequest));
}

#[test]
fn a_body_that_is_no_json_fails() {
    assert!(matches!(
        Exchange::post_text("/x", Err(json_error())),
        Err(H3Error::Serialization(_))
    ));
    assert!(Exchange::post_text("/x", Ok(vec![1])).is_ok());
}

#[test]
fn an_answer_comes_through_in_pieces() {
    let (mut exchange, _) = Exchange::new("GET", "/", &[("x", "y")], None);
    exchange.step(ExchangeEvent::RequestSent(8));
    exchange.step(ExchangeEvent::RequestFlushed(Ok(())));
    assert!(matches!(
        exchange.step(ExchangeEvent::Received(Received::Packet)),
        ExchangeAction::Feed
    ));
    assert!(matches!(exchange.step(ExchangeEvent::Fed), ExchangeAction::FlushReply));
    assert!(matches!(
        exchange.step(ExchangeEvent::ReplyFlushed(Ok(()))),
        ExchangeAction::Poll
    ));
    let answer = H3Response::json(418, Value::from("tea"));
    let fields = response_fields(&answer);
    assert!(matches!(exchange.step(event(8, H3Event::Headers(fields))), ExchangeAction::Poll));
    assert!(matches!(
        exchange.step(ExchangeEvent::Polled(Polled::Done)),
        ExchangeAction::Receive
    ));
    assert!(matches!(exchange.step(event(8, H3Event::Data)), ExchangeAction::ReadBody(8)));
    exchange.step(ExchangeEvent::BodyRead(b"\"t".to_vec()));
    assert!(matches!(
        exchange.step(ExchangeEvent::BodyRead(b"ea\"".to_vec())),
        ExchangeAction::Poll
    ));
    let reply = finished(exchange.step(event(8, H3Event::Finished))).ok().unwrap();
    assert_eq!(reply.status, 418);
    assert_eq!(reply.body, answer.body);
    let mut headers = owned(&[("server", "quic-h3/0.1")]);
    headers.extend(answer.headers);
    assert_eq!(reply.headers, headers);
}

#[test]
fn other_streams_do_not_matter() {
    let (mut exchange, _) = Exchange::get("/");
    exchange.step(ExchangeEvent::RequestSent(8));
    let fields = response_fields(&H3Response::not_found());
    assert!(matches!(exchange.step(event(4, H3Event::Headers(fields))), ExchangeAction::Poll));
    assert!(matches!(exchange.step(event(4, H3Event::Data)), ExchangeAction::Poll));
    assert!(matches!(exchange.step(event(4, H3Event::Finished)), ExchangeAction::Poll));
    assert!(matches!(exchange.step(event(8, H3Event::Other)), ExchangeAction::Poll));
    let reply = finished(exchange.step(event(8, H3Event::Finished))).ok().unwrap();
    assert_eq!(reply.status, 0);
    assert!(reply.headers.is_empty() && reply.body.is_empty());
}

#[test]
fn a_status_that_is_no_number_is_zero() {
    let (mut exchange, _) = Exchange::get("/");
    exchange.step(ExchangeEvent::RequestSent(0));
    let fields = vec![header_field(":status", "200"), header_field(":status", "fine")];
    exchange.step(event(0, H3Event::Headers(fields)));
    exchange.step(event(0, H3Event::Headers(vec![header_field("trailer", "t")])));
    let reply = finished(exchange.step(event(0, H3Event::Finished))).ok().unwrap();
    assert_eq!(reply.status, 0);
    assert_eq!(reply.headers, owned(&[("trailer", "t")]));
}

#[test]
fn what_ends_a_request_early() {
    let (mut exchange, _) = Exchange::get("/");
    let mut fails = |event| finished(exchange.step(event)).err().unwrap();
    assert!(matches!(fails(ExchangeEvent::NoSession), H3Error::ConnectionClosed));
    assert!(matches!(
        fails(ExchangeEvent::Http3Failed(quiche::h3::Error::StreamBlocked)),
        H3Error::Http3(quiche::h3::Error::StreamBlocked)
    ));
    assert!(matches!(
        fails(ExchangeEvent::RequestFlushed(Err(H3Error::ConnectionClosed))),
        H3Error::ConnectionClosed
    ));
    assert!(matches!(
        fails(ExchangeEvent::ReplyFlushed(Err(H3Error::StreamNotFound(3)))),
        H3Error::StreamNotFound(3)
    ));
    assert!(matches!(
        fails(ExchangeEvent::Received(Received::Failed(io_error()))),
        H3Error::Io(e) if e.kind() == std::io::ErrorKind::ConnectionReset
    ));
    assert!(matches!(
        fails(ExchangeEvent::Received(Received::TimedOut)),
        H3Error::HandshakeTimeout
    ));
    assert!(matches!(
        fails(ExchangeEvent::Polled(Polled::Failed(quiche::h3::Error::FrameError))),
        H3Error::Http3(quiche::h3::Error::FrameError)
    ));
    assert!(matches!(
        fails(ExchangeEvent::Polled(Polled::NotReady)),
        H3Error::ConnectionClosed
    ));
}

#[test]
fn flushing_goes_on_until_nothing_is_due() {
    assert!(matches!(flush_step(FlushEvent::Start), FlushAction::Send));
    assert!(matches!(
        flush_step(FlushEvent::Sent(SendOutcome::Wrote(9))),
        FlushAction::Transmit(9)
    ));
    assert!(matches!(flush_step(FlushEvent::Transmitted(Ok(()))), FlushAction::Send));
    assert!(matches!(
        flush_step(FlushEvent::Sent(SendOutcome::Done)),
        FlushAction::Finish(Ok(()))
    ));
    assert!(matches!(
        flush_step(FlushEvent::Sent(SendOutcome::Failed(quiche::Error::TlsFail))),
        FlushAction::Finish(Err(H3Error::Quic(quiche::Error::TlsFail)))
    ));
    assert!(matches!(
        flush_step(FlushEvent::Transmitted(Err(io_error()))),
        FlushAction::Finish(Err(H3Error::Io(_)))
    ));
}

#[test]
fn the_handshake_takes_its_course() {
    assert_eq!(HANDSHAKE_TIMEOUT_NANOS, std::time::Duration::from_secs(10).as_nanos());
    assert!(matches!(handshake_step(HandshakeEvent::Elapsed(0)), HandshakeAction::Flush));
    assert!(matches!(
        handshake_step(HandshakeEvent::Elapsed(10_000_000_000)),
        HandshakeAction::Flush
    ));
    assert!(matches!(
        handshake_step(HandshakeEvent::Elapsed(10_000_000_001)),
        HandshakeAction::Finish(Err(H3Error::HandshakeTimeout))
    ));
    assert!(matches!(
        handshake_step(HandshakeEvent::Flushed(Ok(()))),
        HandshakeAction::CheckEstablished
    ));
    assert!(matches!(
        handshake_step(HandshakeEvent::Established(false)),
        HandshakeAction::Receive
    ));
    assert!(matches!(
        handshake_step(HandshakeEvent::Received(Received::Packet)),
        HandshakeAction::Feed
    ));
    assert!(matches!(
        handshake_step(HandshakeEvent::Received(Received::TimedOut)),
        HandshakeAction::CheckTime
    ));
    assert!(matches!(handshake_step(HandshakeEvent::Fed), HandshakeAction::CheckTime));
    assert!(matches!(
        handshake_step(HandshakeEvent::Established(true)),
        HandshakeAction::StartHttp3
    ));
    assert!(matches!(
        handshake_step(HandshakeEvent::Http3Started(Ok(()))),
        HandshakeAction::Finish(Ok(()))
    ));
}

#[test]
fn what_fails_the_handshake() {
    assert!(matches!(
        handshake_step(HandshakeEvent::Flushed(Err(H3Error::Quic(quiche::Error::TlsFail)))),
        HandshakeAction::Finish(Err(H3Error::Quic(quiche::Error::TlsFail)))
    ));
    assert!(matches!(
        handshake_step(HandshakeEvent::Received(Received::Failed(io_error()))),
        HandshakeAction::Finish(Err(H3Error::Io(_)))
    ));
    assert!(matches!(
        handshake_step(HandshakeEvent::Http3Started(Err(H3Error::ConnectionClosed))),
        HandshakeAction::Finish(Err(H3Error::ConnectionClosed))
    ));
}

#[test]
fn outside_errors_keep_their_kind() {
    assert!(matches!(
        H3Error::from(quiche::Error::Done),
        H3Error::Quic(quiche::Error::Done)
    ));
    assert!(matches!(
        H3Error::from(quiche::h3::Error::Done),
        H3Error::Http3(quiche::h3::Error::Done)
    ));
    assert!(matches!(H3Error::from(io_error()), H3Error::Io(_)));
    assert!(matches!(H3Error::from(json_error()), H3Error::Serialization(_)));
}

#[test]
fn every_json_value_can_be_posted() {
    let values = [
        (Value::Null, "null"),
        (Value::from(-1), "-1"),
        (Value::from("a\"b"), "\"a\\\"b\""),
        (Value::Array(vec![Value::Bool(true), object("k", Value::Null)]), "[true,{\"k\":null}]"),
    ];
    for (value, text) in values {
        let (mut exchange, _) = Exchange::post_json("/", value).unwrap();
        match exchange.step(ExchangeEvent::RequestSent(0)) {
            ExchangeAction::SendBody { body, .. } => assert_eq!(body, text.as_bytes()),
            _ => panic!("the body follows"),
        }
    }
}
