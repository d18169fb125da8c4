//! Errors of this library.

use vstd::prelude::*;

verus! {

/// Error of a qonductor operation. Errors of the HTTP client, the WebSocket,
/// protobuf decoding, JSON and I/O carry their message.
#[derive(Debug, Clone, PartialEq)]
pub enum Error {
    /// Authentication failed.
    Auth(String),
    /// HTTP request failed.
    Http(String),
    /// WebSocket error.
    WebSocket(String),
    /// Protobuf decoding error.
    Proto(String),
    /// JSON parsing error.
    Json(String),
    /// Invalid response from server.
    InvalidResponse(String),
    /// Track not found.
    TrackNotFound(u64),
    /// Stream error.
    Stream(String),
    /// Session expired.
    SessionExpired,
    /// Connection closed.
    ConnectionClosed,
    /// IO error.
    Io(String),
    /// mDNS error.
    Mdns(String),
    /// Discovery server error.
    Discovery(String),
    /// Protocol error.
    Protocol(String),
}

} // verus!
