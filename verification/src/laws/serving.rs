//! Laws of the requests and answers of a server.

use vstd::prelude::*;
use vstd::utf8::encode_utf8;

use crate::http::{
    all_decoded, field_views, last_value, pair_views, H3Event, HeaderField, Polled, TextField,
};
use crate::json::json_text;
use crate::laws::values::lemma_decimal;
use crate::laws::words::{
    is_absent, is_decimal, is_last, is_last_value, read_fields, said_by,
};
use crate::server::{
    begin_request, or_empty, response_fields, H3Request, H3Response, PendingRequests, RequestAction,
    RequestEvent, RequestView,
};
use crate::text::decimal;

verus! {

/// The library finds the last field of a name.
pub proof fn lemma_last(fields: Seq<TextField>, name: Seq<char>)
    ensures
        match last_value(fields, name) {
            Some(value) => exists|i: int| #[trigger]
                is_last(fields, name, i) && fields[i].1 == value,
            None => is_absent(fields, name),
        },
        is_last_value(fields, name, or_empty(last_value(fields, name))),
    decreases fields.len(),
{
    if fields.len() > 0 {
        let rest = fields.drop_last();
        let end = fields.len() - 1;
        if fields[end].0 == name {
            assert(is_last(fields, name, end));
        } else {
            lemma_last(rest, name);
            match last_value(rest, name) {
                Some(value) => {
                    let i = choose|i: int| #[trigger]
                        is_last(rest, name, i) && rest[i].1 == value;
                    assert forall|j: int| i < j < fields.len() implies (#[trigger] fields[j]).0
                        != name by {
                        if j < end {
                            assert(rest[j] == fields[j]);
                        }
                    }
                    assert(is_last(fields, name, i));
                },
                None => {
                    assert forall|j: int| 0 <= j < fields.len() implies (#[trigger] fields[j]).0
                        != name by {
                        if j < end {
                            assert(rest[j] == fields[j]);
                        }
                    }
                },
            }
        }
    }
}

/// The library reads header fields as they are read.
pub proof fn lemma_read(fields: Seq<HeaderField>)
    ensures
        all_decoded(field_views(fields)) == read_fields(fields),
{
    assert(all_decoded(field_views(fields)) =~= read_fields(fields));
}

/// Whether a request says what some header fields say, and has no body yet.
pub open spec fn is_begun_by(
    request: RequestView,
    conn_id: Seq<char>,
    stream_id: u64,
    fields: Seq<(Seq<char>, Seq<char>)>,
) -> bool {
    &&& is_last_value(fields, ":method"@, request.method)
    &&& is_last_value(fields, ":path"@, request.path)
    &&& request.headers == fields.filter(
        |f: (Seq<char>, Seq<char>)| f.0 != ":method"@ && f.0 != ":path"@,
    )
    &&& request.body == Seq::<u8>::empty()
    &&& request.stream_id == stream_id
    &&& request.conn_id == conn_id
}

/// Whether a request holds what is known of it.
pub open spec fn is_request(request: H3Request, known: RequestView) -> bool {
    &&& request.method@ == known.method
    &&& request.path@ == known.path
    &&& said_by(request.headers@) == known.headers
    &&& request.body@ == known.body
    &&& request.stream_id == known.stream_id
    &&& request.conn_id@ == known.conn_id
}

/// A request begins with the method and the path that the last fields of these names say,
/// and with all other fields as its headers, in order.
pub proof fn law_request_begins_with_its_headers(
    conn_id: &str,
    stream_id: u64,
    fields: &Vec<HeaderField>,
    r: H3Request,
)
    requires
        call_ensures(begin_request, (conn_id, stream_id, fields), r),
    ensures
        is_last_value(read_fields(fields@), ":method"@, r.method@),
        is_last_value(read_fields(fields@), ":path"@, r.path@),
        said_by(r.headers@) == read_fields(fields@).filter(
            |f: (Seq<char>, Seq<char>)| f.0 != ":method"@ && f.0 != ":path"@,
        ),
        r.body@.len() == 0,
        r.stream_id == stream_id,
        r.conn_id@ == conn_id@,
{
    lemma_read(fields@);
    lemma_last(read_fields(fields@), ":method"@);
    lemma_last(read_fields(fields@), ":path"@);
    assert(pair_views(r.headers@) =~= said_by(r.headers@));
}

/// A connection begins with no request.
pub proof fn law_no_request_at_first(conn_id: &str, handled: bool, q: PendingRequests)
    requires
        call_ensures(PendingRequests::new, (conn_id, handled), q),
    ensures
        q@.conn_id == conn_id@,
        q@.handled == handled,
        forall|id: u64| !q@.pending.contains_key(id),
{
}

/// Headers begin a request on their stream, in place of one that had begun there. The
/// requests on other streams stay.
pub proof fn law_headers_begin_a_request(
    q: &mut PendingRequests,
    stream_id: u64,
    fields: Vec<HeaderField>,
    action: RequestAction,
)
    requires
        call_ensures(
            PendingRequests::step,
            (q, RequestEvent::Polled(Polled::Event(stream_id, H3Event::Headers(fields)))),
            action,
        ),
    ensures
        action == RequestAction::Poll,
        final(q)@.conn_id == old(q)@.conn_id && final(q)@.handled == old(q)@.handled,
        final(q)@.pending == old(q)@.pending.insert(stream_id, final(q)@.pending[stream_id]),
        is_begun_by(
            final(q)@.pending[stream_id],
            old(q)@.conn_id,
            stream_id,
            read_fields(fields@),
        ),
{
    lemma_read(fields@);
    lemma_last(read_fields(fields@), ":method"@);
    lemma_last(read_fields(fields@), ":path"@);
}

/// Every piece of a body that has arrived is read, whatever has been read before, and reading
/// it changes nothing yet.
pub proof fn law_every_piece_of_a_body_is_read(
    q: &mut PendingRequests,
    stream_id: u64,
    action: RequestAction,
)
    requires
        call_ensures(
            PendingRequests::step,
            (q, RequestEvent::Polled(Polled::Event(stream_id, H3Event::Data))),
            action,
        ),
    ensures
        action == RequestAction::ReadBody(stream_id),
        final(q)@ == old(q)@,
{
}

/// Every piece that was read is put behind what its request had. The requests on other
/// streams stay, and a piece for no request is dropped.
pub proof fn law_pieces_are_put_together(
    q: &mut PendingRequests,
    stream_id: u64,
    bytes: Vec<u8>,
    action: RequestAction,
)
    requires
        call_ensures(PendingRequests::step, (q, RequestEvent::Body(stream_id, bytes)), action),
    ensures
        action == RequestAction::Poll,
        final(q)@.conn_id == old(q)@.conn_id && final(q)@.handled == old(q)@.handled,
        final(q)@.pending.dom() == old(q)@.pending.dom(),
        forall|id: u64|
            id != stream_id && old(q)@.pending.contains_key(id) ==> #[trigger] final(q)@.pending[id]
                == old(q)@.pending[id],
        old(q)@.pending.contains_key(stream_id) ==> final(q)@.pending[stream_id] == (RequestView {
            body: old(q)@.pending[stream_id].body + bytes@,
            ..old(q)@.pending[stream_id]
        }),
{
    assert(final(q)@.pending.dom() =~= old(q)@.pending.dom());
}

/// A finished stream hands its request, with all that arrived of it, to the handler where
/// there is one. The request is then gone, and the others stay.
pub proof fn law_finished_request_is_dispatched(
    q: &mut PendingRequests,
    stream_id: u64,
    action: RequestAction,
)
    requires
        call_ensures(
            PendingRequests::step,
            (q, RequestEvent::Polled(Polled::Event(stream_id, H3Event::Finished))),
            action,
        ),
    ensures
        final(q)@.conn_id == old(q)@.conn_id && final(q)@.handled == old(q)@.handled,
        final(q)@.pending == old(q)@.pending.remove(stream_id),
        old(q)@.pending.contains_key(stream_id) && old(q)@.handled ==> (action matches
            RequestAction::Dispatch(request) && is_request(request, old(q)@.pending[stream_id])),
        !old(q)@.pending.contains_key(stream_id) || !old(q)@.handled ==> action
            == RequestAction::Poll,
{
    if let RequestAction::Dispatch(request) = action {
        assert(pair_views(request.headers@) =~= said_by(request.headers@));
    }
}

/// Serving goes on as long as there are events, and stops where there are none or the session
/// fails or is not there. Neither changes the requests.
pub proof fn law_serving_goes_on_while_there_are_events(
    q: &mut PendingRequests,
    event: RequestEvent,
    action: RequestAction,
)
    requires
        call_ensures(PendingRequests::step, (q, event), action),
    ensures
        action == RequestAction::Stop <==> (event matches RequestEvent::Polled(p) && p !is Event),
        event matches RequestEvent::Polled(p) && p !is Event ==> final(q)@ == old(q)@,
        event is Dispatched ==> action == RequestAction::Poll && final(q)@ == old(q)@,
        event matches RequestEvent::Polled(Polled::Event(_, H3Event::Other)) ==> action
            == RequestAction::Poll && final(q)@ == old(q)@,
{
}

/// A plain answer has status 200, carries the body as it is, and announces its length.
pub proof fn law_plain_answer<B: Into<Vec<u8>>>(body: B, r: H3Response)
    requires
        call_ensures(H3Response::ok::<B>, (body,), r),
    ensures
        r.status == 200,
        call_ensures(<B as Into<Vec<u8>>>::into, (body,), r.body),
        r.headers@.len() == 1,
        r.headers@[0].0@ == "content-length"@,
        is_decimal(r.headers@[0].1@, r.body@.len() as int),
{
    let views = pair_views(r.headers@);
    assert(views.len() == 1);
    assert(views[0] == (r.headers@[0].0@, r.headers@[0].1@));
    lemma_decimal(r.body@.len());
}

/// A JSON answer has the status asked for, carries the text of the value, and says that it is
/// JSON and how long it is.
pub proof fn law_json_answer(status: u16, body: serde_json::Value, r: H3Response)
    requires
        call_ensures(H3Response::json, (status, body), r),
    ensures
        r.status == status,
        r.body@ == encode_utf8(json_text(body)),
        r.headers@.len() == 2,
        r.headers@[0].0@ == "content-type"@ && r.headers@[0].1@ == "application/json"@,
        r.headers@[1].0@ == "content-length"@,
        is_decimal(r.headers@[1].1@, r.body@.len() as int),
{
    let views = pair_views(r.headers@);
    assert(views.len() == 2);
    assert(views[0] == (r.headers@[0].0@, r.headers@[0].1@));
    assert(views[1] == (r.headers@[1].0@, r.headers@[1].1@));
    lemma_decimal(r.body@.len());
}

/// The answer to a request for something that does not exist is a JSON answer like any other
/// of its status and text.
pub proof fn law_not_found_answer(r: H3Response)
    requires
        call_ensures(H3Response::not_found, (), r),
    ensures
        r.status == 404,
        r.body@ == encode_utf8("{\"error\":\"not found\"}"@),
        r.headers@.len() == 2,
        r.headers@[0].0@ == "content-type"@ && r.headers@[0].1@ == "application/json"@,
        r.headers@[1].0@ == "content-length"@,
        is_decimal(r.headers@[1].1@, r.body@.len() as int),
{
    let views = pair_views(r.headers@);
    assert(views.len() == 2);
    assert(views[0] == (r.headers@[0].0@, r.headers@[0].1@));
    assert(views[1] == (r.headers@[1].0@, r.headers@[1].1@));
    lemma_decimal(r.body@.len());
}

/// An answer is written as its status in decimal, then the name of the server, then every
/// header of its own, in order and none left out.
pub proof fn law_answer_is_written_out(response: &H3Response, fields: Vec<HeaderField>)
    requires
        call_ensures(response_fields, (response,), fields),
    ensures
        fields@.len() == 2 + response.headers@.len(),
        fields@[0].name@ == encode_utf8(":status"@),
        exists|text: Seq<char>| #[trigger]
            is_decimal(text, response.status as int) && fields@[0].value@ == encode_utf8(text),
        fields@[1].name@ == encode_utf8("server"@),
        fields@[1].value@ == encode_utf8("quic-h3/0.1"@),
        forall|i: int|
            0 <= i < response.headers@.len() ==> (#[trigger] fields@[2 + i]).name@ == encode_utf8(
                response.headers@[i].0@,
            ) && fields@[2 + i].value@ == encode_utf8(response.headers@[i].1@),
{
    let views = field_views(fields@);
    assert(views.len() == fields@.len());
    assert(views[0] == fields@[0]@);
    assert(views[1] == fields@[1]@);
    lemma_decimal(response.status as nat);
    assert(is_decimal(decimal(response.status as nat), response.status as int));
    assert forall|i: int| 0 <= i < response.headers@.len() implies (#[trigger] fields@[2 + i]).name@
        == encode_utf8(response.headers@[i].0@) && fields@[2 + i].value@ == encode_utf8(
        response.headers@[i].1@,
    ) by {
        assert(views[2 + i] == fields@[2 + i]@);
        assert(response@.headers[i] == (response.headers@[i].0@, response.headers@[i].1@));
    }
}

} // verus!
