//! The loop of the server: which connection a packet belongs to, what is done with the
//! packet, and when connections come and go.

use vstd::hash_map::StringHashMap;
use vstd::prelude::*;

use crate::error::H3Error;
use crate::transport::{
    has_short_header, header_accepted, lower_hex, packet_dcid, packet_type, read_packet,
    IncomingPacket, PacketType, SendOutcome, CONN_ID_LEN,
};

verus! {

/// What the outside world answers to a step of the server.
pub enum ServerEvent<C> {
    /// No packet could be received.
    ReceiveFailed,
    /// A packet was received, and this is what its header says.
    Packet(Result<IncomingPacket, quiche::Error>),
    /// A new connection was opened.
    Accepted(C),
    /// A new connection could not be opened.
    AcceptFailed(quiche::Error),
    /// The connection has taken the packet in, or refused it.
    Fed,
    /// Whether the connection is established, and whether it has an HTTP/3 session.
    Status { established: bool, http3: bool },
    /// What starting the HTTP/3 session came to.
    Http3Started(Result<(), H3Error>),
    /// Whether the connection has an HTTP/3 session.
    Http3Ready(bool),
    /// The requests have been looked after.
    RequestsProcessed,
    /// The realtime streams have been looked after.
    StreamsProcessed,
    /// What asking the connection for a packet came to.
    Sent(SendOutcome),
    /// The packet has been sent, or could not be sent.
    Transmitted,
    /// Whether the connection is closed.
    Closed(bool),
}

/// What the server is to do next. All but the first two are about the current connection.
pub enum ServerAction {
    /// Receive a packet.
    Receive,
    /// Open a connection.
    Accept { conn_id: String, scid: Vec<u8> },
    /// Hand the packet to the connection.
    Feed,
    /// Find out whether the connection is established and has an HTTP/3 session.
    CheckStatus,
    /// Start the HTTP/3 session.
    StartHttp3,
    /// Find out whether the connection has an HTTP/3 session.
    CheckHttp3,
    /// Look after the requests.
    ProcessRequests,
    /// Look after the realtime streams.
    ProcessStreams,
    /// Ask the connection for a packet to send.
    Send,
    /// Send a packet of this length to where the last packet came from.
    Transmit(usize),
    /// Find out whether the connection is closed.
    CheckClosed,
    /// Give up.
    Stop(H3Error),
}

/// What the server knows.
#[verifier::ext_equal]
pub struct ServerState<C> {
    /// The open connections, by the text of their identifiers.
    pub connections: Map<Seq<char>, C>,
    /// The connection that the last packet was for.
    pub current: Seq<char>,
}

/// What follows the header of a packet. A packet for a known connection goes to it. A packet
/// for an unknown connection opens it if it is an initial packet, and is dropped otherwise.
pub open spec fn packet_step<C>(s: ServerState<C>, packet: IncomingPacket) -> (
    ServerState<C>,
    ServerAction,
) {
    let found = ServerState { current: packet.conn_id@, ..s };
    if s.connections.contains_key(packet.conn_id@) {
        (found, ServerAction::Feed)
    } else if packet.ty == PacketType::Initial {
        (found, ServerAction::Accept { conn_id: packet.conn_id, scid: packet.dcid })
    } else {
        (s, ServerAction::Receive)
    }
}

/// One step of the server.
pub open spec fn server_step<C>(s: ServerState<C>, event: ServerEvent<C>) -> (
    ServerState<C>,
    ServerAction,
) {
    match event {
        ServerEvent::ReceiveFailed => (s, ServerAction::Receive),
        ServerEvent::Packet(Err(_)) => (s, ServerAction::Receive),
        ServerEvent::Packet(Ok(packet)) => packet_step(s, packet),
        ServerEvent::Accepted(connection) => (
            ServerState { connections: s.connections.insert(s.current, connection), ..s },
            ServerAction::Feed,
        ),
        ServerEvent::AcceptFailed(e) => (s, ServerAction::Stop(H3Error::Quic(e))),
        ServerEvent::Fed => (s, ServerAction::CheckStatus),
        ServerEvent::Status { established, http3 } => (
            s,
            if established && !http3 {
                ServerAction::StartHttp3
            } else {
                ServerAction::CheckHttp3
            },
        ),
        ServerEvent::Http3Started(Ok(_)) => (s, ServerAction::CheckHttp3),
        ServerEvent::Http3Started(Err(e)) => (s, ServerAction::Stop(e)),
        ServerEvent::Http3Ready(ready) => (
            s,
            if ready {
                ServerAction::ProcessRequests
            } else {
                ServerAction::ProcessStreams
            },
        ),
        ServerEvent::RequestsProcessed => (s, ServerAction::ProcessStreams),
        ServerEvent::StreamsProcessed => (s, ServerAction::Send),
        ServerEvent::Sent(SendOutcome::Wrote(len)) => (s, ServerAction::Transmit(len)),
        ServerEvent::Sent(SendOutcome::Done) => (s, ServerAction::CheckClosed),
        ServerEvent::Sent(SendOutcome::Failed(_)) => (s, ServerAction::CheckClosed),
        ServerEvent::Transmitted => (s, ServerAction::Send),
        ServerEvent::Closed(true) => (
            ServerState { connections: s.connections.remove(s.current), ..s },
            ServerAction::Receive,
        ),
        ServerEvent::Closed(false) => (s, ServerAction::Receive),
    }
}

/// What comes of a packet, byte by byte: one whose header cannot be read is dropped, and any
/// other is for the connection whose identifier it carries.
pub open spec fn packet_received<C>(
    s: ServerState<C>,
    packet: Seq<u8>,
    after: ServerState<C>,
    action: ServerAction,
) -> bool {
    let dcid = packet_dcid(packet, CONN_ID_LEN as nat);
    let found = ServerState { current: lower_hex(dcid), ..s };
    if !header_accepted(packet, CONN_ID_LEN as nat) {
        after == s && action == ServerAction::Receive
    } else if s.connections.contains_key(lower_hex(dcid)) {
        after == found && action == ServerAction::Feed
    } else if packet_type(packet) == PacketType::Initial {
        after == found && (action matches ServerAction::Accept { conn_id, scid } && conn_id@
            == lower_hex(dcid) && scid@ == dcid)
    } else {
        after == s && action == ServerAction::Receive
    }
}

/// The open connections of a server, and the one that the last packet was for.
#[verifier::reject_recursive_types(C)]
pub struct ServerLoop<C> {
    connections: StringHashMap<C>,
    current: String,
}

impl<C> View for ServerLoop<C> {
    type V = ServerState<C>;

    closed spec fn view(&self) -> ServerState<C> {
        ServerState { connections: self.connections@, current: self.current@ }
    }
}

impl<C> ServerLoop<C> {
    /// A server without connections, which is about to receive its first packet.
    pub fn new() -> (server: ServerLoop<C>)
        ensures
            server@ == (ServerState {
                connections: Map::<Seq<char>, C>::empty(),
                current: Seq::empty(),
            }),
    {
        ServerLoop { connections: StringHashMap::new(), current: String::new() }
    }

    /// The connection that the last packet was for.
    pub fn connection(&self) -> (connection: Option<&C>)
        ensures
            match connection {
                Some(c) => self@.connections.contains_key(self@.current) && *c
                    == self@.connections[self@.current],
                None => !self@.connections.contains_key(self@.current),
            },
    {
        self.connections.get(self.current.as_str())
    }

    /// Takes in what the outside world answered to the last action, and says what is to be
    /// done next.
    pub fn step(&mut self, event: ServerEvent<C>) -> (action: ServerAction)
        ensures
            (final(self)@, action) == server_step(old(self)@, event),
    {
        match event {
            ServerEvent::ReceiveFailed => ServerAction::Receive,
            ServerEvent::Packet(Err(_)) => ServerAction::Receive,
            ServerEvent::Packet(Ok(packet)) => {
                if self.connections.contains_key(packet.conn_id.as_str()) {
                    self.current = packet.conn_id;
                    ServerAction::Feed
                } else if packet.ty == PacketType::Initial {
                    self.current = packet.conn_id.clone();
                    ServerAction::Accept { conn_id: packet.conn_id, scid: packet.dcid }
                } else {
                    ServerAction::Receive
                }
            },
            ServerEvent::Accepted(connection) => {
                self.connections.insert(self.current.clone(), connection);
                ServerAction::Feed
            },
            ServerEvent::AcceptFailed(e) => ServerAction::Stop(H3Error::from(e)),
            ServerEvent::Fed => ServerAction::CheckStatus,
            ServerEvent::Status { established, http3 } => {
                if established && !http3 {
                    ServerAction::StartHttp3
                } else {
                    ServerAction::CheckHttp3
                }
            },
            ServerEvent::Http3Started(Ok(_)) => ServerAction::CheckHttp3,
            ServerEvent::Http3Started(Err(e)) => ServerAction::Stop(e),
            ServerEvent::Http3Ready(ready) => {
                if ready {
                    ServerAction::ProcessRequests
                } else {
                    ServerAction::ProcessStreams
                }
            },
            ServerEvent::RequestsProcessed => ServerAction::ProcessStreams,
            ServerEvent::StreamsProcessed => ServerAction::Send,
            ServerEvent::Sent(SendOutcome::Wrote(len)) => ServerAction::Transmit(len),
            ServerEvent::Sent(SendOutcome::Done) => ServerAction::CheckClosed,
            ServerEvent::Sent(SendOutcome::Failed(_)) => ServerAction::CheckClosed,
            ServerEvent::Transmitted => ServerAction::Send,
            ServerEvent::Closed(closed) => {
                if closed {
                    self.connections.remove(self.current.as_str());
                }
                ServerAction::Receive
            },
        }
    }

    /// Reads the header of a packet that was received, and says what is to be done with the
    /// packet. Whatever the packet holds, the connections stay as they are.
    pub fn receive(&mut self, packet: &mut [u8]) -> (action: ServerAction)
        ensures
            final(packet)@ == old(packet)@,
            packet_received(old(self)@, old(packet)@, final(self)@, action),
            old(packet)@.len() == 0 ==> !header_accepted(old(packet)@, CONN_ID_LEN as nat),
            old(packet)@.len() > 0 && has_short_header(old(packet)@) ==> (header_accepted(
                old(packet)@,
                CONN_ID_LEN as nat,
            ) <==> old(packet)@.len() >= 1 + CONN_ID_LEN),
    {
        let header = read_packet(packet);
        self.step(ServerEvent::Packet(header))
    }
}

/// A packet for a connection that is not open is dropped, unless it is an initial packet.
pub proof fn law_unknown_packet_is_dropped<C>(s: ServerState<C>, packet: IncomingPacket)
    requires
        !s.connections.contains_key(packet.conn_id@),
        packet.ty != PacketType::Initial,
    ensures
        server_step(s, ServerEvent::Packet(Ok(packet))) == (s, ServerAction::Receive),
{
}

/// A connection is opened only for an initial packet whose identifier is not in use, and
/// under that identifier.
pub proof fn law_connections_open_with_initial<C>(s: ServerState<C>, event: ServerEvent<C>)
    ensures
        server_step(s, event).1 matches ServerAction::Accept { conn_id, scid } ==> (event matches
            ServerEvent::Packet(Ok(packet)) && packet.ty == PacketType::Initial && conn_id
            == packet.conn_id && scid == packet.dcid && !s.connections.contains_key(conn_id@)
            && server_step(s, event).0.current == conn_id@),
{
}

/// Connections other than the current one are never touched. The current one changes only
/// when it is opened or found closed.
pub proof fn law_connections_are_kept<C>(s: ServerState<C>, event: ServerEvent<C>, id: Seq<char>)
    requires
        id != s.current || (event !is Accepted && event != ServerEvent::<C>::Closed(true)),
    ensures
        server_step(s, event).0.connections.contains_key(id) == s.connections.contains_key(id),
        s.connections.contains_key(id) ==> server_step(s, event).0.connections[id]
            == s.connections[id],
{
}

/// The packets of a connection reach it from when it was opened until it is found closed;
/// after that they are dropped, unless they open the connection anew.
pub proof fn law_packets_reach_open_connections<C>(
    s: ServerState<C>,
    connection: C,
    packet: IncomingPacket,
)
    requires
        packet.conn_id@ == s.current,
    ensures
        ({
            let opened = server_step(s, ServerEvent::Accepted(connection)).0;
            let (after, action) = server_step(opened, ServerEvent::Packet(Ok(packet)));
            &&& action == ServerAction::Feed
            &&& after.connections[after.current] == connection
        }),
        ({
            let closed = server_step(s, ServerEvent::Closed(true)).0;
            let action = server_step(closed, ServerEvent::Packet(Ok(packet))).1;
            if packet.ty == PacketType::Initial {
                action is Accept
            } else {
                action == ServerAction::Receive
            }
        }),
{
}

/// Nothing that a packet holds, and no failure to receive or to send, stops the server. It
/// stops only where a connection cannot be opened or its HTTP/3 session cannot be started.
pub proof fn law_server_goes_on<C>(s: ServerState<C>, event: ServerEvent<C>)
    ensures
        server_step(s, event).1 is Stop <==> (event is AcceptFailed || (event matches
            ServerEvent::Http3Started(r) && r is Err)),
{
}

/// Requests are looked after only on a connection that has an HTTP/3 session, and a session
/// is started only on an established connection that has none.
pub proof fn law_requests_need_http3<C>(s: ServerState<C>, event: ServerEvent<C>)
    ensures
        server_step(s, event).1 == ServerAction::ProcessRequests <==> event
            == ServerEvent::<C>::Http3Ready(true),
        server_step(s, event).1 == ServerAction::StartHttp3 <==> event == (ServerEvent::<
            C,
        >::Status { established: true, http3: false }),
{
}

/// Whether an event is an answer to an action of the server.
pub open spec fn server_answers<C>(action: ServerAction, event: ServerEvent<C>) -> bool {
    match action {
        ServerAction::Receive => event is ReceiveFailed || event is Packet,
        ServerAction::Accept { .. } => event is Accepted || event is AcceptFailed,
        ServerAction::Feed => event is Fed,
        ServerAction::CheckStatus => event is Status,
        ServerAction::StartHttp3 => event is Http3Started,
        ServerAction::CheckHttp3 => event is Http3Ready,
        ServerAction::ProcessRequests => event is RequestsProcessed,
        ServerAction::ProcessStreams => event is StreamsProcessed,
        ServerAction::Send => event is Sent,
        ServerAction::Transmit(_) => event is Transmitted,
        ServerAction::CheckClosed => event is Closed,
        ServerAction::Stop(_) => false,
    }
}

/// Whether an action is about the current connection.
pub open spec fn about_current(action: ServerAction) -> bool {
    !(action is Receive || action is Accept || action is Stop)
}

/// Whether the connection that an action is about is open.
pub open spec fn current_is_open<C>(s: ServerState<C>, action: ServerAction) -> bool {
    about_current(action) ==> s.connections.contains_key(s.current)
}

/// What the server is to do is always about a connection that is open, from one step to the
/// next.
pub proof fn law_current_connection_is_open<C>(
    s: ServerState<C>,
    action: ServerAction,
    event: ServerEvent<C>,
)
    requires
        current_is_open(s, action),
        server_answers(action, event),
    ensures
        current_is_open(server_step(s, event).0, server_step(s, event).1),
{
}

/// The order in which a packet is dealt with. A connection takes a packet once it is found
/// or opened; then its HTTP/3 session is started where that is due, its requests are looked
/// after where it has a session, its realtime streams are looked after, and packets are sent
/// until there are none. Only then is it found out whether the connection is closed.
pub proof fn law_packet_is_dealt_with_in_order<C>(
    s: ServerState<C>,
    earlier: ServerEvent<C>,
    later: ServerEvent<C>,
)
    requires
        server_answers(server_step(s, earlier).1, later),
    ensures
        later is Accepted || later is AcceptFailed ==> (earlier matches ServerEvent::Packet(Ok(p))
            && p.ty == PacketType::Initial && !s.connections.contains_key(p.conn_id@)),
        later is Fed ==> earlier is Accepted || (earlier matches ServerEvent::Packet(Ok(p))
            && s.connections.contains_key(p.conn_id@)),
        later is Status ==> earlier is Fed,
        later is Http3Started ==> earlier == (ServerEvent::<C>::Status {
            established: true,
            http3: false,
        }),
        later is Http3Ready ==> earlier is Status || (earlier matches ServerEvent::Http3Started(r)
            && r is Ok),
        later is RequestsProcessed ==> earlier == ServerEvent::<C>::Http3Ready(true),
        later is StreamsProcessed ==> earlier is RequestsProcessed || earlier == ServerEvent::<
            C,
        >::Http3Ready(false),
        later is Sent ==> earlier is StreamsProcessed || earlier is Transmitted,
        later is Transmitted ==> (earlier matches ServerEvent::Sent(o) && o is Wrote),
        later is Closed ==> (earlier matches ServerEvent::Sent(o) && o !is Wrote),
        later is Packet || later is ReceiveFailed ==> earlier is Closed || earlier is ReceiveFailed
            || earlier is Packet,
{
}

} // verus!
