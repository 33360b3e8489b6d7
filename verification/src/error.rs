//! The errors of a websocket.

use actix_http::ws::ProtocolError;
use vstd::prelude::*;
use vstd::std_specs::convert::FromSpecImpl;

verus! {

/// Why a message of the server could not be read.
#[derive(Debug)]
pub enum ParseError {
    MalformedMessage(String),
}

/// Why a websocket failed.
#[derive(Debug)]
#[allow(inconsistent_fields)]
pub enum WebSocketError {
    /// The connection could not be made, or was not upgraded.
    HyperError(hyper::Error),
    /// The upgrade request could not be built; the text describes the cause.
    RequestBuilderError(String),
    /// A frame could not be read or written.
    ProtocolError(ProtocolError),
    /// A frame could not be written, and closing the connection then failed too.
    AbnormalShutdownError { protocol_error: ProtocolError, shutdown_error: ProtocolError },
    /// A message could not be parsed; closing the connection then failed where
    /// `shutdown_error` is present.
    ParserError { parse_error: ParseError, shutdown_error: Option<ProtocolError> },
    /// The `on_error` callback failed to deal with `original_error`.
    OnFailError { original_error: Box<WebSocketError>, on_fail_error: Box<WebSocketError> },
    /// The websocket ended without leaving a result for its shutdown handle.
    ShutdownError(crossbeam_channel::RecvError),
}

impl From<ProtocolError> for WebSocketError {
    fn from(err: ProtocolError) -> (r: Self) {
        WebSocketError::ProtocolError(err)
    }
}

impl FromSpecImpl<ProtocolError> for WebSocketError {
    open spec fn obeys_from_spec() -> bool {
        true
    }

    open spec fn from_spec(err: ProtocolError) -> Self {
        WebSocketError::ProtocolError(err)
    }
}

impl From<hyper::Error> for WebSocketError {
    fn from(err: hyper::Error) -> (r: Self) {
        WebSocketError::HyperError(err)
    }
}

impl FromSpecImpl<hyper::Error> for WebSocketError {
    open spec fn obeys_from_spec() -> bool {
        true
    }

    open spec fn from_spec(err: hyper::Error) -> Self {
        WebSocketError::HyperError(err)
    }
}

impl From<crossbeam_channel::RecvError> for WebSocketError {
    fn from(err: crossbeam_channel::RecvError) -> (r: Self) {
        WebSocketError::ShutdownError(err)
    }
}

impl FromSpecImpl<crossbeam_channel::RecvError> for WebSocketError {
    open spec fn obeys_from_spec() -> bool {
        true
    }

    open spec fn from_spec(err: crossbeam_channel::RecvError) -> Self {
        WebSocketError::ShutdownError(err)
    }
}

} // verus!
