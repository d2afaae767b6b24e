use airnomads::listener::{ServerAction, ServerEvent, ServerLoop};
use airnomads::transport::{
    conn_id_from, conn_id_text, new_conn_id, read_packet, IncomingPacket, PacketType, SendOutcome,
    CONN_ID_LEN,
};
use airnomads::H3Error;

fn short_packet(first: u8, dcid: [u8; 20]) -> Vec<u8> {
    let mut packet = vec![first];
    packet.extend_from_slice(&dcid);
    packet.extend_from_slice(b"payload");
    packet
}

fn initial_packet(dcid: &[u8]) -> Vec<u8> {
    let mut packet = vec![0xc3, 0, 0, 0, 1, dcid.len() as u8];
    packet.extend_from_slice(dcid);
    packet.extend_from_slice(&[0, 0]);
    packet
}

#[test]
fn identifiers_are_written_in_hexadecimal() {
    assert_eq!(conn_id_text(&[]), "");
    assert_eq!(conn_id_text(&[0x00, 0x0a, 0xf0, 0x9b, 0xff]), "000af09bff");
}

#[test]
fn identifiers_are_as_long_as_they_can_be() {
    assert_eq!(CONN_ID_LEN, quiche::MAX_CONN_ID_LEN);
    let a = new_conn_id().ok().unwrap();
    let b = new_conn_id().ok().unwrap();
    assert_eq!(a.len(), CONN_ID_LEN);
    assert_ne!(a, b);
}

#[test]
fn without_randomness_there_is_no_identifier() {
    assert_eq!(conn_id_from(Some(vec![1, 2])).ok(), Some(vec![1, 2]));
    assert!(matches!(conn_id_from(None), Err(H3Error::InvalidFrame(why)) if why == "rng failed"));
}

#[test]
fn short_headers_carry_the_identifier_behind_the_first_byte() {
    let dcid = [0xab; 20];
    let mut packet = short_packet(0x41, dcid);
    let copy = packet.clone();
    let read = read_packet(&mut packet).unwrap();
    assert_eq!(packet, copy);
    assert_eq!(read.ty, PacketType::Short);
    assert_eq!(read.dcid, dcid);
    assert_eq!(read.conn_id, "ab".repeat(20));
    assert!(read_packet(&mut packet[..20].to_vec()).is_err());
    assert_eq!(read_packet(&mut packet[..21].to_vec()).unwrap().dcid, dcid);
    assert!(read_packet(&mut []).is_err());
}

#[test]
fn long_headers_say_what_they_are() {
    let mut packet = initial_packet(&[1, 2, 3]);
    let read = read_packet(&mut packet).unwrap();
    assert_eq!(read.ty, PacketType::Initial);
    assert_eq!(read.dcid, vec![1, 2, 3]);
    assert_eq!(read.conn_id, "010203");
    let kinds = [
        (0xd0, PacketType::ZeroRtt),
        (0xe0, PacketType::Handshake),
        (0xf0, PacketType::Retry),
    ];
    for (first, ty) in kinds {
        let mut packet = initial_packet(&[9]);
        packet[0] = first;
        packet.extend_from_slice(&[0; 16]);
        assert_eq!(read_packet(&mut packet).unwrap().ty, ty);
    }
    let mut negotiation = vec![0x80, 0, 0, 0, 0, 1, 7, 0, 0, 0, 0, 1];
    let read = read_packet(&mut negotiation).unwrap();
    assert_eq!((read.ty, read.dcid), (PacketType::VersionNegotiation, vec![7]));
    assert!(read_packet(&mut initial_packet(&[5; 21])).is_err());
}

#[test]
fn an_initial_packet_opens_a_connection() {
    let mut server: ServerLoop<u32> = ServerLoop::new();
    let mut packet = initial_packet(&[1, 2]);
    match server.receive(&mut packet) {
        ServerAction::Accept { conn_id, scid } => {
            assert_eq!(conn_id, "0102");
            assert_eq!(scid, vec![1, 2]);
        }
        _ => panic!("the connection is new"),
    }
    assert!(server.connection().is_none());
    assert!(matches!(server.step(ServerEvent::Accepted(7)), ServerAction::Feed));
    assert_eq!(server.connection(), Some(&7));
    assert!(matches!(server.receive(&mut packet), ServerAction::Feed));
    assert_eq!(server.connection(), Some(&7));
}

#[test]
fn other_packets_of_unknown_connections_are_dropped() {
    let mut server: ServerLoop<u32> = ServerLoop::new();
    let mut packet = short_packet(0x40, [3; 20]);
    assert!(matches!(server.receive(&mut packet), ServerAction::Receive));
    assert!(matches!(server.receive(&mut [0x40, 1]), ServerAction::Receive));
    assert!(matches!(server.receive(&mut []), ServerAction::Receive));
    assert!(matches!(server.step(ServerEvent::ReceiveFailed), ServerAction::Receive));
    assert!(matches!(
        server.step(ServerEvent::Packet(Err(quiche::Error::InvalidPacket))),
        ServerAction::Receive
    ));
}

fn known_packet(id: &str, ty: PacketType) -> ServerEvent<u32> {
    ServerEvent::Packet(Ok(IncomingPacket { ty, dcid: vec![], conn_id: id.to_string() }))
}

#[test]
fn packets_reach_their_connection_until_it_is_closed() {
    let mut server: ServerLoop<u32> = ServerLoop::new();
    for (id, connection) in [("a", 1), ("b", 2)] {
        assert!(matches!(
            server.step(known_packet(id, PacketType::Initial)),
            ServerAction::Accept { .. }
        ));
        server.step(ServerEvent::Accepted(connection));
        assert!(matches!(server.step(ServerEvent::Closed(false)), ServerAction::Receive));
    }
    assert!(matches!(server.step(known_packet("a", PacketType::Short)), ServerAction::Feed));
    assert_eq!(server.connection(), Some(&1));
    assert!(matches!(server.step(ServerEvent::Closed(true)), ServerAction::Receive));
    assert!(matches!(server.step(known_packet("a", PacketType::Short)), ServerAction::Receive));
    assert!(matches!(server.step(known_packet("b", PacketType::Handshake)), ServerAction::Feed));
    assert_eq!(server.connection(), Some(&2));
    assert!(matches!(
        server.step(known_packet("a", PacketType::Initial)),
        ServerAction::Accept { .. }
    ));
}

#[test]
fn what_is_done_with_a_packet() {
    let mut server: ServerLoop<u32> = ServerLoop::new();
    let mut step = |event| server.step(event);
    assert!(matches!(step(ServerEvent::Fed), ServerAction::CheckStatus));
    assert!(matches!(
        step(ServerEvent::Status { established: true, http3: false }),
        ServerAction::StartHttp3
    ));
    for (established, http3) in [(true, true), (false, false), (false, true)] {
        assert!(matches!(
            step(ServerEvent::Status { established, http3 }),
            ServerAction::CheckHttp3
        ));
    }
    assert!(matches!(step(ServerEvent::Http3Started(Ok(()))), ServerAction::CheckHttp3));
    assert!(matches!(step(ServerEvent::Http3Ready(true)), ServerAction::ProcessRequests));
    assert!(matches!(step(ServerEvent::Http3Ready(false)), ServerAction::ProcessStreams));
    assert!(matches!(step(ServerEvent::RequestsProcessed), ServerAction::ProcessStreams));
    assert!(matches!(step(ServerEvent::StreamsProcessed), ServerAction::Send));
    assert!(matches!(
        step(ServerEvent::Sent(SendOutcome::Wrote(1200))),
        ServerAction::Transmit(1200)
    ));
    assert!(matches!(step(ServerEvent::Transmitted), ServerAction::Send));
    assert!(matches!(step(ServerEvent::Sent(SendOutcome::Done)), ServerAction::CheckClosed));
    assert!(matches!(
        step(ServerEvent::Sent(SendOutcome::Failed(quiche::Error::TlsFail))),
        ServerAction::CheckClosed
    ));
}

#[test]
fn what_stops_the_server() {
    let mut server: ServerLoop<u32> = ServerLoop::new();
    assert!(matches!(
        server.step(ServerEvent::AcceptFailed(quiche::Error::CryptoFail)),
        ServerAction::Stop(H3Error::Quic(quiche::Error::CryptoFail))
    ));
    assert!(matches!(
        server.step(ServerEvent::Http3Started(Err(H3Error::ConnectionClosed))),
        ServerAction::Stop(H3Error::ConnectionClosed)
    ));
}
