//! What travels over a websocket.

use vstd::prelude::*;

verus! {

/// Response object returned by the callbacks of a websocket client.
#[derive(Debug)]
pub enum WsResponse {
    Empty,
    Close,
    Pong(String),
    Text(String),
    Bytes(Vec<u8>),
}

/// A frame received from the server. The reason that a close frame may state is
/// not kept, for it decides nothing.
#[derive(Debug)]
pub enum Frame {
    Text(Option<Vec<u8>>),
    Binary(Option<Vec<u8>>),
    Ping(String),
    Pong(String),
    Close,
}

/// Why an endpoint closes a connection.
#[derive(Debug, Clone, Copy, PartialEq, Eq, Structural)]
pub enum CloseCode {
    /// The purpose of the connection has been fulfilled.
    Normal,
    /// The connection ends because of a protocol error.
    Protocol,
}

/// Reason for closing a connection.
#[derive(Debug)]
pub struct CloseReason {
    pub code: CloseCode,
    pub description: Option<String>,
}

impl From<CloseCode> for CloseReason {
    fn from(code: CloseCode) -> (r: Self) {
        CloseReason { code, description: None }
    }
}

impl vstd::std_specs::convert::FromSpecImpl<CloseCode> for CloseReason {
    open spec fn obeys_from_spec() -> bool {
        true
    }

    open spec fn from_spec(code: CloseCode) -> Self {
        CloseReason { code, description: None }
    }
}

/// A message for the server.
#[derive(Debug)]
pub enum Message {
    Text(String),
    Binary(Vec<u8>),
    Pong(String),
    Close(Option<CloseReason>),
}

/// What a websocket asks of the sink that leads to the server. Each operation
/// either succeeds or fails with a protocol error.
#[derive(Debug)]
pub enum SinkOp {
    Send(Message),
    Flush,
    Close,
}

} // verus!
