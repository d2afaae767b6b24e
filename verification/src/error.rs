//! What can go wrong.

use vstd::prelude::*;

verus! {

/// The error of a QUIC connection, carried and never looked into.
#[verifier::external_type_specification]
#[verifier::external_body]
pub struct ExQuicError(quiche::Error);

/// The error of an HTTP/3 connection, carried and never looked into.
#[verifier::external_type_specification]
#[verifier::external_body]
pub struct ExHttp3Error(quiche::h3::Error);

/// The error of a socket, carried and never looked into.
#[verifier::external_type_specification]
#[verifier::external_body]
pub struct ExIoError(std::io::Error);

/// The error of writing or reading JSON, carried and never looked into.
#[verifier::external_type_specification]
#[verifier::external_body]
pub struct ExJsonError(serde_json::Error);

/// Every way in which an operation of this library fails.
#[derive(Debug)]
pub enum H3Error {
    /// The QUIC connection failed.
    Quic(quiche::Error),
    /// The HTTP/3 connection failed.
    Http3(quiche::h3::Error),
    /// The socket failed.
    Io(std::io::Error),
    /// The connection has no HTTP/3 session, or the receiver of a message is gone.
    ConnectionClosed,
    /// There is no stream of this number.
    StreamNotFound(u64),
    /// A value could not be written as JSON.
    Serialization(serde_json::Error),
    /// The handshake, or the answer to a request, took too long.
    HandshakeTimeout,
    /// A frame could not be made.
    InvalidFrame(String),
    /// There is no channel, or no member of a channel, of this name.
    ChannelNotFound(String),
    /// An address could not be read.
    AddrErr(String),
}

impl From<quiche::Error> for H3Error {
    fn from(e: quiche::Error) -> (r: H3Error) {
        H3Error::Quic(e)
    }
}

impl vstd::std_specs::convert::FromSpecImpl<quiche::Error> for H3Error {
    open spec fn obeys_from_spec() -> bool {
        true
    }

    open spec fn from_spec(e: quiche::Error) -> H3Error {
        H3Error::Quic(e)
    }
}

impl From<quiche::h3::Error> for H3Error {
    fn from(e: quiche::h3::Error) -> (r: H3Error) {
        H3Error::Http3(e)
    }
}

impl vstd::std_specs::convert::FromSpecImpl<quiche::h3::Error> for H3Error {
    open spec fn obeys_from_spec() -> bool {
        true
    }

    open spec fn from_spec(e: quiche::h3::Error) -> H3Error {
        H3Error::Http3(e)
    }
}

impl From<std::io::Error> for H3Error {
    fn from(e: std::io::Error) -> (r: H3Error) {
        H3Error::Io(e)
    }
}

impl vstd::std_specs::convert::FromSpecImpl<std::io::Error> for H3Error {
    open spec fn obeys_from_spec() -> bool {
        true
    }

    open spec fn from_spec(e: std::io::Error) -> H3Error {
        H3Error::Io(e)
    }
}

impl From<serde_json::Error> for H3Error {
    fn from(e: serde_json::Error) -> (r: H3Error) {
        H3Error::Serialization(e)
    }
}

impl vstd::std_specs::convert::FromSpecImpl<serde_json::Error> for H3Error {
    open spec fn obeys_from_spec() -> bool {
        true
    }

    open spec fn from_spec(e: serde_json::Error) -> H3Error {
        H3Error::Serialization(e)
    }
}

} // verus!
