//! Packets and connection identifiers.

use vstd::prelude::*;

use crate::error::H3Error;

verus! {

/// The error of `ring`, which says nothing.
#[verifier::external_type_specification]
#[verifier::external_body]
pub struct ExUnspecified(ring::error::Unspecified);

/// The kinds of QUIC packets.
#[derive(Debug, Clone, Copy, PartialEq, Eq, Structural)]
pub enum PacketType {
    Initial,
    Retry,
    Handshake,
    ZeroRtt,
    VersionNegotiation,
    Short,
}

/// The length of the connection identifiers of this library, the longest that QUIC allows.
pub const CONN_ID_LEN: usize = 20;

/// What asking a QUIC connection for the next packet to send comes to.
pub enum SendOutcome {
    /// A packet of this length has been written.
    Wrote(usize),
    /// There is nothing to send.
    Done,
    /// The connection failed.
    Failed(quiche::Error),
}

/// What waiting for a packet to arrive comes to.
pub enum Received {
    /// A packet arrived.
    Packet,
    /// The socket failed.
    Failed(std::io::Error),
    /// No packet arrived in time.
    TimedOut,
}

/// A packet whose header has been read.
#[derive(Debug)]
pub struct IncomingPacket {
    pub ty: PacketType,
    /// The identifier of the connection that the packet is for.
    pub dcid: Vec<u8>,
    /// The same identifier as text.
    pub conn_id: String,
}

/// Whether `quiche::Header::from_slice` takes a packet, given the length of the connection
/// identifiers in packets that do not say it.
pub uninterp spec fn header_accepted(packet: Seq<u8>, dcid_len: nat) -> bool;

/// Whether a packet has the short form of a header.
pub open spec fn has_short_header(packet: Seq<u8>) -> bool {
    packet[0] < 0x80
}

/// The kind of a packet, as its first bytes say it.
pub open spec fn packet_type(packet: Seq<u8>) -> PacketType {
    if has_short_header(packet) {
        PacketType::Short
    } else if packet[1] == 0 && packet[2] == 0 && packet[3] == 0 && packet[4] == 0 {
        PacketType::VersionNegotiation
    } else if packet[0] / 16 % 4 == 0 {
        PacketType::Initial
    } else if packet[0] / 16 % 4 == 1 {
        PacketType::ZeroRtt
    } else if packet[0] / 16 % 4 == 2 {
        PacketType::Handshake
    } else {
        PacketType::Retry
    }
}

/// The identifier of the connection that a packet is for.
pub open spec fn packet_dcid(packet: Seq<u8>, dcid_len: nat) -> Seq<u8> {
    if has_short_header(packet) {
        packet.subrange(1, 1 + dcid_len as int)
    } else {
        packet.subrange(6, 6 + packet[5] as int)
    }
}

/// The hexadecimal digit of a number below sixteen, in lower case.
pub open spec fn hex_char(d: int) -> char {
    if d < 10 {
        (48 + d) as char
    } else {
        (87 + d) as char
    }
}

/// A byte string in hexadecimal, two digits in lower case for each byte.
pub open spec fn lower_hex(bytes: Seq<u8>) -> Seq<char> {
    Seq::new(
        2 * bytes.len(),
        |i: int|
            if i % 2 == 0 {
                hex_char(bytes[i / 2] as int / 16)
            } else {
                hex_char(bytes[i / 2] as int % 16)
            },
    )
}

/// `quiche::Header::from_slice`, with identifiers of `quiche::MAX_CONN_ID_LEN` bytes in
/// short headers: reads the header of a packet and leaves the packet as it is. Of a header
/// that it takes, the kind and the connection identifier stand where QUIC puts them. A
/// packet with a short header is taken exactly if it is long enough for the identifier, an
/// empty packet never. Which packets with a long header it takes is only named here.
#[verifier::external_body]
fn parse_header(packet: &mut [u8]) -> (r: Result<(PacketType, Vec<u8>), quiche::Error>)
    ensures
        final(packet)@ == old(packet)@,
        r is Ok <==> header_accepted(old(packet)@, CONN_ID_LEN as nat),
        old(packet)@.len() == 0 ==> r is Err,
        old(packet)@.len() > 0 && has_short_header(old(packet)@) ==> (r is Ok <==> old(
            packet,
        )@.len() >= 1 + CONN_ID_LEN),
        r matches Ok(h) ==> h.0 == packet_type(old(packet)@) && h.1@ == packet_dcid(
            old(packet)@,
            CONN_ID_LEN as nat,
        ),
{
    let header = quiche::Header::from_slice(packet, quiche::MAX_CONN_ID_LEN)?;
    let ty = match header.ty {
        quiche::Type::Initial => PacketType::Initial,
        quiche::Type::Retry => PacketType::Retry,
        quiche::Type::Handshake => PacketType::Handshake,
        quiche::Type::ZeroRTT => PacketType::ZeroRtt,
        quiche::Type::VersionNegotiation => PacketType::VersionNegotiation,
        quiche::Type::Short => PacketType::Short,
    };
    Ok((ty, header.dcid.to_vec()))
}

/// `Debug` of `quiche::ConnectionId`: the identifier in hexadecimal, two digits in lower
/// case for each byte.
#[verifier::external_body]
fn connection_id_debug(dcid: &[u8]) -> (text: String)
    ensures
        text@ == lower_hex(dcid@),
{
    format!("{:?}", quiche::ConnectionId::from_ref(dcid))
}

/// `fill` of `ring::rand::SystemRandom`: as many bytes as asked for, or a failure. The
/// bytes are random, so nothing is said of them.
#[verifier::external_body]
pub fn random_bytes(len: usize) -> (r: Result<Vec<u8>, ring::error::Unspecified>)
    ensures
        r matches Ok(bytes) ==> bytes@.len() == len,
{
    let mut bytes = vec![0u8; len];
    ring::rand::SecureRandom::fill(&ring::rand::SystemRandom::new(), &mut bytes)?;
    Ok(bytes)
}

/// The text by which a connection is known.
pub fn conn_id_text(dcid: &[u8]) -> (text: String)
    ensures
        text@ == lower_hex(dcid@),
{
    connection_id_debug(dcid)
}

/// Reads the header of a packet.
pub fn read_packet(packet: &mut [u8]) -> (r: Result<IncomingPacket, quiche::Error>)
    ensures
        final(packet)@ == old(packet)@,
        r is Ok <==> header_accepted(old(packet)@, CONN_ID_LEN as nat),
        old(packet)@.len() == 0 ==> r is Err,
        old(packet)@.len() > 0 && has_short_header(old(packet)@) ==> (r is Ok <==> old(
            packet,
        )@.len() >= 1 + CONN_ID_LEN),
        r matches Ok(p) ==> {
            &&& p.ty == packet_type(old(packet)@)
            &&& p.dcid@ == packet_dcid(old(packet)@, CONN_ID_LEN as nat)
            &&& p.conn_id@ == lower_hex(p.dcid@)
        },
{
    match parse_header(packet) {
        Ok((ty, dcid)) => {
            let conn_id = conn_id_text(dcid.as_slice());
            Ok(IncomingPacket { ty, dcid, conn_id })
        },
        Err(e) => Err(e),
    }
}

/// The identifier of a new connection, given what the source of randomness came up with.
pub fn conn_id_from(random: Option<Vec<u8>>) -> (r: Result<Vec<u8>, H3Error>)
    ensures
        match random {
            Some(bytes) => r == Ok::<Vec<u8>, H3Error>(bytes),
            None => r matches Err(H3Error::InvalidFrame(why)) && why@ == "rng failed"@,
        },
{
    match random {
        Some(bytes) => Ok(bytes),
        None => Err(H3Error::InvalidFrame(String::from("rng failed"))),
    }
}

/// Draws the identifier of a new connection: the random bytes that were drawn for it, or an
/// error where none could be drawn.
pub fn new_conn_id() -> (r: Result<Vec<u8>, H3Error>)
    ensures
        exists|drawn: Result<Vec<u8>, ring::error::Unspecified>| #[trigger]
            call_ensures(random_bytes, (CONN_ID_LEN,), drawn) && match drawn {
                Ok(bytes) => r == Ok::<Vec<u8>, H3Error>(bytes) && bytes@.len() == CONN_ID_LEN,
                Err(_) => r matches Err(H3Error::InvalidFrame(why)) && why@ == "rng failed"@,
            },
{
    let drawn = random_bytes(CONN_ID_LEN);
    assert(call_ensures(random_bytes, (CONN_ID_LEN,), drawn));
    let random: Option<Vec<u8>> = match drawn {
        Ok(bytes) => Some(bytes),
        Err(_) => None,
    };
    conn_id_from(random)
}

proof fn lemma_hex_byte(a: u8, b: u8)
    requires
        hex_char(a as int / 16) == hex_char(b as int / 16),
        hex_char(a as int % 16) == hex_char(b as int % 16),
    ensures
        a == b,
{
}

/// Connections are told apart by their text: no two identifiers have the same.
pub proof fn law_conn_id_identifies(a: Seq<u8>, b: Seq<u8>)
    requires
        lower_hex(a) == lower_hex(b),
    ensures
        a == b,
{
    assert(lower_hex(a).len() == 2 * a.len());
    assert(lower_hex(b).len() == 2 * b.len());
    assert forall|i: int| 0 <= i < a.len() implies a[i] == b[i] by {
        let high = 2 * i;
        let low = 2 * i + 1;
        assert(high / 2 == i && high % 2 == 0);
        assert(low / 2 == i && low % 2 == 1);
        assert(lower_hex(a)[high] == hex_char(a[i] as int / 16));
        assert(lower_hex(b)[high] == hex_char(b[i] as int / 16));
        assert(lower_hex(a)[low] == hex_char(a[i] as int % 16));
        assert(lower_hex(b)[low] == hex_char(b[i] as int % 16));
        lemma_hex_byte(a[i], b[i]);
    }
    assert(a =~= b);
}

/// Every packet with a short header that is long enough finds the connection whose
/// identifier it carries, whatever follows the identifier.
pub proof fn law_short_packet_names_connection(first: u8, dcid: Seq<u8>, rest: Seq<u8>)
    requires
        first < 0x80,
        dcid.len() == CONN_ID_LEN,
    ensures
        packet_type(seq![first] + dcid + rest) == PacketType::Short,
        packet_dcid(seq![first] + dcid + rest, CONN_ID_LEN as nat) == dcid,
{
    let packet = seq![first] + dcid + rest;
    assert(packet[0] == first);
    assert(packet.subrange(1, 1 + CONN_ID_LEN as int) =~= dcid);
}

} // verus!
