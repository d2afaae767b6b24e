//! Laws of packets and of the loop of the server.

use vstd::prelude::*;

use crate::error::H3Error;
use crate::listener::{ServerAction, ServerEvent, ServerLoop};
use crate::transport::{
    conn_id_from, conn_id_text, header_accepted, lower_hex, new_conn_id, packet_dcid, packet_type,
    random_bytes, read_packet, IncomingPacket, PacketType, SendOutcome,
};

verus! {

/// Whether a character is a hexadecimal digit in lower case.
pub open spec fn is_hex(c: char) -> bool {
    '0' <= c <= '9' || 'a' <= c <= 'f'
}

/// The value of a hexadecimal digit.
pub open spec fn hex_value(c: char) -> int {
    if c <= '9' {
        c as int - '0' as int
    } else {
        c as int - 'a' as int + 10
    }
}

/// Whether a text is how some bytes are written in hexadecimal.
pub open spec fn is_hex_of(text: Seq<char>, bytes: Seq<u8>) -> bool {
    &&& text.len() == 2 * bytes.len()
    &&& forall|i: int|
        #![trigger bytes[i]]
        0 <= i < bytes.len() ==> is_hex(text[2 * i]) && is_hex(text[2 * i + 1]) && 16 * hex_value(
            text[2 * i],
        ) + hex_value(text[2 * i + 1]) == bytes[i]
}

/// The library writes bytes in hexadecimal.
pub proof fn lemma_hex(bytes: Seq<u8>)
    ensures
        is_hex_of(lower_hex(bytes), bytes),
{
    let text = lower_hex(bytes);
    assert forall|i: int|
        #![trigger bytes[i]]
        0 <= i < bytes.len() implies is_hex(text[2 * i]) && is_hex(text[2 * i + 1]) && 16
        * hex_value(text[2 * i]) + hex_value(text[2 * i + 1]) == bytes[i] by {
        let high = 2 * i;
        let low = 2 * i + 1;
        assert(high / 2 == i && high % 2 == 0);
        assert(low / 2 == i && low % 2 == 1);
    }
}

/// An identifier is written with two digits for each of its bytes.
pub proof fn law_identifier_is_written_in_hexadecimal(dcid: &[u8], text: String)
    requires
        call_ensures(conn_id_text, (dcid,), text),
    ensures
        is_hex_of(text@, dcid@),
{
    lemma_hex(dcid@);
}

/// The identifier of a new connection is what was drawn for it, twenty bytes long. Where
/// nothing could be drawn there is none.
pub proof fn law_identifier_is_what_was_drawn(
    random: Option<Vec<u8>>,
    given: Result<Vec<u8>, H3Error>,
    fresh: Result<Vec<u8>, H3Error>,
)
    requires
        call_ensures(conn_id_from, (random,), given),
        call_ensures(new_conn_id, (), fresh),
    ensures
        random matches Some(bytes) ==> given == Ok::<Vec<u8>, H3Error>(bytes),
        random is None ==> (given matches Err(H3Error::InvalidFrame(why)) && why@
            == "rng failed"@),
        exists|drawn: Result<Vec<u8>, ring::error::Unspecified>| #[trigger]
            call_ensures(random_bytes, (20,), drawn) && match drawn {
                Ok(bytes) => bytes@.len() == 20 && fresh == Ok::<Vec<u8>, H3Error>(bytes),
                Err(_) => fresh matches Err(H3Error::InvalidFrame(why)) && why@ == "rng failed"@,
            },
{
}

/// A packet that is read is known by the identifier that it carries, and is left as it is.
pub proof fn law_packet_is_known_by_its_identifier(
    packet: &mut [u8],
    r: Result<IncomingPacket, quiche::Error>,
)
    requires
        call_ensures(read_packet, (packet,), r),
    ensures
        final(packet)@ == old(packet)@,
        r is Ok <==> header_accepted(old(packet)@, 20),
        r matches Ok(p) ==> p.ty == packet_type(old(packet)@) && p.dcid@ == packet_dcid(
            old(packet)@,
            20,
        ) && is_hex_of(p.conn_id@, p.dcid@),
        r matches Ok(p) ==> (old(packet)@[0] < 0x80 ==> p.ty == PacketType::Short && p.dcid@
            == old(packet)@.subrange(1, 21)),
{
    if let Ok(p) = r {
        lemma_hex(p.dcid@);
    }
}

/// A server begins with no connection.
pub proof fn law_no_connection_at_first<C>(server: ServerLoop<C>)
    requires
        call_ensures(ServerLoop::<C>::new, (), server),
    ensures
        forall|id: Seq<char>| !server@.connections.contains_key(id),
{
}

/// The connection at hand is the one that is kept under the current identifier.
pub proof fn law_connection_at_hand<C>(server: &ServerLoop<C>, connection: Option<&C>)
    requires
        call_ensures(ServerLoop::<C>::connection, (server,), connection),
    ensures
        connection is Some <==> server@.connections.contains_key(server@.current),
        connection matches Some(c) ==> *c == server@.connections[server@.current],
{
}

/// Every packet for a connection that is kept goes to it, whatever its kind.
pub proof fn law_packet_goes_to_its_connection<C>(
    server: &mut ServerLoop<C>,
    packet: IncomingPacket,
    action: ServerAction,
)
    requires
        old(server)@.connections.contains_key(packet.conn_id@),
        call_ensures(ServerLoop::<C>::step, (server, ServerEvent::Packet(Ok(packet))), action),
    ensures
        action == ServerAction::Feed,
        final(server)@.current == packet.conn_id@,
        final(server)@.connections == old(server)@.connections,
{
}

/// An initial packet for no connection opens one, under the identifier that it carries; any
/// other packet for no connection is dropped.
pub proof fn law_packet_for_no_connection<C>(
    server: &mut ServerLoop<C>,
    packet: IncomingPacket,
    action: ServerAction,
)
    requires
        !old(server)@.connections.contains_key(packet.conn_id@),
        call_ensures(ServerLoop::<C>::step, (server, ServerEvent::Packet(Ok(packet))), action),
    ensures
        packet.ty == PacketType::Initial ==> (action matches ServerAction::Accept { conn_id, scid }
            && conn_id@ == packet.conn_id@ && scid@ == packet.dcid@) && final(server)@.current
            == packet.conn_id@,
        packet.ty != PacketType::Initial ==> action == ServerAction::Receive,
        final(server)@.connections == old(server)@.connections,
{
}

/// What comes of the bytes of a packet: it goes to the connection whose identifier it
/// carries, opens it, or is dropped.
pub proof fn law_bytes_of_a_packet<C>(
    server: &mut ServerLoop<C>,
    packet: &mut [u8],
    id: Seq<char>,
    action: ServerAction,
)
    requires
        call_ensures(ServerLoop::<C>::receive, (server, packet), action),
        is_hex_of(id, packet_dcid(old(packet)@, 20)),
    ensures
        final(packet)@ == old(packet)@,
        final(server)@.connections == old(server)@.connections,
        !header_accepted(old(packet)@, 20) ==> action == ServerAction::Receive,
        header_accepted(old(packet)@, 20) && old(server)@.connections.contains_key(id) ==> action
            == ServerAction::Feed && final(server)@.current == id,
        header_accepted(old(packet)@, 20) && !old(server)@.connections.contains_key(id)
            && packet_type(old(packet)@) == PacketType::Initial ==> (action matches
            ServerAction::Accept { conn_id, scid } && conn_id@ == id && scid@ == packet_dcid(
            old(packet)@,
            20,
        )) && final(server)@.current == id,
        header_accepted(old(packet)@, 20) && !old(server)@.connections.contains_key(id)
            && packet_type(old(packet)@) != PacketType::Initial ==> action
            == ServerAction::Receive,
{
    let dcid = packet_dcid(old(packet)@, 20);
    let text = lower_hex(dcid);
    lemma_hex(dcid);
    assert forall|k: int| 0 <= k < text.len() implies text[k] == id[k] by {
        let i = k / 2;
        let byte = dcid[i];
        assert(k == 2 * i || k == 2 * i + 1);
    }
    assert(text =~= id);
}

/// A connection that was opened is kept under the identifier of its packet and takes the
/// packet. The others stay.
pub proof fn law_opened_connection_is_kept<C>(
    server: &mut ServerLoop<C>,
    connection: C,
    action: ServerAction,
)
    requires
        call_ensures(ServerLoop::<C>::step, (server, ServerEvent::Accepted(connection)), action),
    ensures
        action == ServerAction::Feed,
        final(server)@.current == old(server)@.current,
        final(server)@.connections == old(server)@.connections.insert(
            old(server)@.current,
            connection,
        ),
{
}

/// A connection that is found closed is forgotten, and no other; one that is not stays. Then
/// the next packet is received.
pub proof fn law_closed_connection_is_forgotten<C>(
    server: &mut ServerLoop<C>,
    closed: bool,
    action: ServerAction,
)
    requires
        call_ensures(ServerLoop::<C>::step, (server, ServerEvent::Closed(closed)), action),
    ensures
        action == ServerAction::Receive,
        closed ==> final(server)@.connections == old(server)@.connections.remove(
            old(server)@.current,
        ),
        !closed ==> final(server)@.connections == old(server)@.connections,
{
}

/// Whether an event neither opens nor closes a connection and is no packet.
pub open spec fn is_within_a_round<C>(event: ServerEvent<C>) -> bool {
    !(event is Packet || event is Accepted || event is Closed)
}

/// What is done once a connection has taken a packet, whatever the connection and whatever
/// was done before: its session is started where it is established and has none, its requests
/// are looked after where it has a session, its realtime streams are looked after in any case,
/// and packets are sent until there are none.
pub proof fn law_round_of_a_packet<C>(
    server: &mut ServerLoop<C>,
    event: ServerEvent<C>,
    action: ServerAction,
)
    requires
        call_ensures(ServerLoop::<C>::step, (server, event), action),
    ensures
        event is Fed ==> action == ServerAction::CheckStatus,
        event matches ServerEvent::Status { established, http3 } ==> action == (if established
            && !http3 {
            ServerAction::StartHttp3
        } else {
            ServerAction::CheckHttp3
        }),
        event matches ServerEvent::Http3Started(Ok(_)) ==> action == ServerAction::CheckHttp3,
        event == ServerEvent::<C>::Http3Ready(true) ==> action == ServerAction::ProcessRequests,
        event == ServerEvent::<C>::Http3Ready(false) ==> action == ServerAction::ProcessStreams,
        event is RequestsProcessed ==> action == ServerAction::ProcessStreams,
        event is StreamsProcessed || event is Transmitted ==> action == ServerAction::Send,
        event matches ServerEvent::Sent(SendOutcome::Wrote(len)) ==> action
            == ServerAction::Transmit(len),
        event matches ServerEvent::Sent(o) && o !is Wrote ==> action == ServerAction::CheckClosed,
        is_within_a_round(event) ==> final(server)@ == old(server)@,
{
}

/// The server stops where a connection cannot be opened or its session cannot be started, with
/// that error, and nowhere else. What cannot be received or read is passed over.
pub proof fn law_server_stops_only_with_these_errors<C>(
    server: &mut ServerLoop<C>,
    event: ServerEvent<C>,
    action: ServerAction,
)
    requires
        call_ensures(ServerLoop::<C>::step, (server, event), action),
    ensures
        event matches ServerEvent::AcceptFailed(e) ==> action == ServerAction::Stop(
            H3Error::Quic(e),
        ),
        event matches ServerEvent::Http3Started(Err(e)) ==> action == ServerAction::Stop(e),
        action is Stop ==> event is AcceptFailed || (event matches ServerEvent::Http3Started(r)
            && r is Err),
        event is ReceiveFailed || (event matches ServerEvent::Packet(r) && r is Err) ==> action
            == ServerAction::Receive && final(server)@ == old(server)@,
{
}

} // verus!
