//! The course of a websocket, from the moment it is open to its end.

use crate::error::{ParseError, WebSocketError};
use crate::message::{CloseCode, Frame, SinkOp, WsResponse};
use crate::reply::{handle_response, response_start, shutdown_result, to_result, Reply};
use crate::shutdown::{close_op, do_shutdown, Shutdown, Step};
use actix_http::ws::ProtocolError;
use vstd::prelude::*;

verus! {

/// How the connection stands once a frame has been dealt with.
#[derive(Debug)]
pub enum ConnectionStatus {
    Open,
    UnexpectedClose(WebSocketError),
    Close(Result<(), WebSocketError>),
}

/// What a sink operation is performed for.
#[derive(Debug)]
pub enum Exchange {
    /// The response of `on_open`.
    Opening(Reply),
    /// The response of `on_message`, or the answer to a ping.
    Replying(Reply),
    /// Closing the connection because a message could not be parsed.
    Rejecting { parse_error: ParseError, shutdown: Shutdown },
    /// Closing the connection because the server closed it.
    Closing(Shutdown),
    /// Closing the connection because the websocket is to stop.
    Stopping(Shutdown),
}

/// Where the error of an unexpected closing came from.
#[derive(Debug, Clone, Copy, PartialEq, Eq, Structural)]
pub enum Origin {
    /// The response of `on_open` could not be carried out.
    Opening,
    /// A frame could not be dealt with.
    Frame,
    /// No frame could be read.
    Stream,
}

/// How a websocket ends: what is reported to its shutdown handle, if anything, and
/// what running it comes to.
#[derive(Debug)]
pub struct Ending {
    pub report: Option<Result<(), WebSocketError>>,
    pub outcome: Result<(), WebSocketError>,
}

/// Where a websocket stands, by what is to be done next. `T` is the type of its messages.
#[derive(Debug)]
pub enum Stage<T> {
    /// Perform the operation on the sink.
    Perform(SinkOp, Exchange),
    /// Wait for a frame.
    NextFrame,
    /// Parse the payload of a frame.
    Parse(Option<Vec<u8>>),
    /// Hand the message to `on_message`.
    Deliver(T),
    /// Look whether the websocket is to go on running.
    Check(ConnectionStatus),
    /// Hand the error to `on_error`, for the websocket has closed unexpectedly.
    Recover(Origin, WebSocketError),
    /// Report the result, and end.
    Finish(Ending),
}

/// The bytes of a payload that may be missing.
pub open spec fn payload_bytes(payload: Option<Vec<u8>>) -> Seq<u8> {
    match payload {
        Some(bytes) => bytes@,
        None => seq![],
    }
}

/// The bytes of a payload: none where there is no payload.
pub fn into_bytes(payload: Option<Vec<u8>>) -> (r: Vec<u8>)
    ensures
        r@ == payload_bytes(payload),
        payload matches Some(bytes) ==> r@ == bytes@,
        payload is None ==> r@.len() == 0,
{
    match payload {
        Some(bytes) => bytes,
        None => Vec::new(),
    }
}

impl Ending {
    /// The end of a websocket that reports `result`.
    pub open spec fn reporting(result: Result<(), WebSocketError>) -> Ending {
        Ending { report: Some(result), outcome: Ok(()) }
    }

    /// The end of a websocket that reports nothing.
    pub open spec fn silent(outcome: Result<(), WebSocketError>) -> Ending {
        Ending { report: None, outcome }
    }
}

impl<T> Stage<T> {
    /// The stage that follows from the response of `on_open`: a failure to carry it out
    /// closes the websocket unexpectedly; otherwise the first frame is awaited.
    pub open spec fn opening(step: Step<Reply, Result<(), WebSocketError>>) -> Stage<T> {
        match step {
            Step::Perform(op, reply) => Stage::Perform(op, Exchange::Opening(reply)),
            Step::Done(Ok(())) => Stage::NextFrame,
            Step::Done(Err(err)) => Stage::Recover(Origin::Opening, err),
        }
    }

    /// The stage that follows from a response to a frame: a failure to carry it out
    /// closes the connection unexpectedly.
    pub open spec fn replying(step: Step<Reply, Result<(), WebSocketError>>) -> Stage<T> {
        match step {
            Step::Perform(op, reply) => Stage::Perform(op, Exchange::Replying(reply)),
            Step::Done(Ok(())) => Stage::Check(ConnectionStatus::Open),
            Step::Done(Err(err)) => Stage::Check(ConnectionStatus::UnexpectedClose(err)),
        }
    }

    /// The stage that a frame leads to, or the end of the incoming frames. An error among
    /// them closes the websocket unexpectedly.
    pub open spec fn after_frame(incoming: Result<Option<Frame>, ProtocolError>) -> Stage<T> {
        match incoming {
            Err(err) => Stage::Recover(Origin::Stream, WebSocketError::ProtocolError(err)),
            Ok(None) => Stage::Finish(Ending::silent(Ok(()))),
            Ok(Some(Frame::Text(payload))) => Stage::Parse(payload),
            Ok(Some(Frame::Binary(payload))) => Stage::Parse(payload),
            Ok(Some(Frame::Ping(text))) => Stage::replying(response_start(WsResponse::Pong(text))),
            Ok(Some(Frame::Pong(_))) => Stage::Check(ConnectionStatus::Open),
            Ok(Some(Frame::Close)) => Stage::Perform(
                close_op(CloseCode::Normal),
                Exchange::Closing(Shutdown::Sending),
            ),
        }
    }

    /// The stage that the parsing of a payload leads to.
    pub open spec fn after_parse(parsed: Result<T, ParseError>) -> Stage<T> {
        match parsed {
            Ok(message) => Stage::Deliver(message),
            Err(parse_error) => Stage::Perform(
                close_op(CloseCode::Protocol),
                Exchange::Rejecting { parse_error, shutdown: Shutdown::Sending },
            ),
        }
    }

    /// The stage that follows once a frame has been dealt with, where `running` tells
    /// whether the websocket is to go on.
    pub open spec fn after_check(running: bool, status: ConnectionStatus) -> Stage<T> {
        match status {
            ConnectionStatus::Open if running => Stage::NextFrame,
            ConnectionStatus::Open => Stage::Perform(
                close_op(CloseCode::Normal),
                Exchange::Stopping(Shutdown::Sending),
            ),
            ConnectionStatus::UnexpectedClose(err) => Stage::Recover(Origin::Frame, err),
            ConnectionStatus::Close(result) => Stage::Finish(Ending::reporting(result)),
        }
    }

    /// The stage that follows once `on_error` has dealt with an error. Where it failed, its
    /// failure together with the error is what the websocket comes to. Where it succeeded,
    /// an error that arose over a frame counts as dealt with, and one of the opening or of
    /// the incoming frames is what the websocket comes to. The result is reported, but for
    /// that of an error of the incoming frames, which is what running the websocket comes to.
    pub open spec fn after_recovery(
        origin: Origin,
        error: WebSocketError,
        result: Result<(), WebSocketError>,
    ) -> Stage<T> {
        let outcome = match result {
            Ok(()) if origin is Frame => Ok(()),
            Ok(()) => Err(error),
            Err(failure) => Err(
                WebSocketError::OnFailError {
                    original_error: Box::new(error),
                    on_fail_error: Box::new(failure),
                },
            ),
        };
        match origin {
            Origin::Stream => Stage::Finish(Ending::silent(outcome)),
            _ => Stage::Finish(Ending::reporting(outcome)),
        }
    }

    /// Goes on with the response of `on_open`.
    fn open_with(step: Step<Reply, Result<(), WebSocketError>>) -> (r: Self)
        ensures
            r == Stage::<T>::opening(step),
    {
        match step {
            Step::Perform(op, reply) => Stage::Perform(op, Exchange::Opening(reply)),
            Step::Done(Ok(())) => Stage::NextFrame,
            Step::Done(Err(err)) => Stage::Recover(Origin::Opening, err),
        }
    }

    /// Goes on with a response to a frame.
    fn reply_with(step: Step<Reply, Result<(), WebSocketError>>) -> (r: Self)
        ensures
            r == Stage::<T>::replying(step),
    {
        match step {
            Step::Perform(op, reply) => Stage::Perform(op, Exchange::Replying(reply)),
            Step::Done(Ok(())) => Stage::Check(ConnectionStatus::Open),
            Step::Done(Err(err)) => Stage::Check(ConnectionStatus::UnexpectedClose(err)),
        }
    }

    /// Takes the response of `on_open`.
    pub fn opened(response: WsResponse) -> (r: Self)
        ensures
            r == Stage::<T>::opening(response_start(response)),
    {
        Stage::open_with(handle_response(response))
    }

    /// Takes a frame; `None` where no more frames come.
    pub fn received(incoming: Result<Option<Frame>, ProtocolError>) -> (r: Self)
        ensures
            r == Stage::<T>::after_frame(incoming),
    {
        match incoming {
            Err(err) => Stage::Recover(Origin::Stream, WebSocketError::from(err)),
            Ok(None) => Stage::Finish(Ending { report: None, outcome: Ok(()) }),
            Ok(Some(Frame::Text(payload))) => Stage::Parse(payload),
            Ok(Some(Frame::Binary(payload))) => Stage::Parse(payload),
            Ok(Some(Frame::Ping(msg))) => Stage::reply_with(handle_response(WsResponse::Pong(msg))),
            Ok(Some(Frame::Pong(_))) => Stage::Check(ConnectionStatus::Open),
            Ok(Some(Frame::Close)) => {
                let (op, shutdown) = do_shutdown(CloseCode::Normal);
                Stage::Perform(op, Exchange::Closing(shutdown))
            },
        }
    }

    /// Takes what the parsing of a payload came to.
    pub fn parsed(parsed: Result<T, ParseError>) -> (r: Self)
        ensures
            r == Stage::<T>::after_parse(parsed),
    {
        match parsed {
            Ok(message) => Stage::Deliver(message),
            Err(parse_error) => {
                let (op, shutdown) = do_shutdown(CloseCode::Protocol);
                Stage::Perform(op, Exchange::Rejecting { parse_error, shutdown })
            },
        }
    }

    /// Takes the response of `on_message`.
    pub fn responded(response: WsResponse) -> (r: Self)
        ensures
            r == Stage::<T>::replying(response_start(response)),
    {
        Stage::reply_with(handle_response(response))
    }

    /// Takes whether the websocket is to go on, after a frame has left the connection
    /// in the given status.
    pub fn checked(running: bool, status: ConnectionStatus) -> (r: Self)
        ensures
            r == Stage::<T>::after_check(running, status),
    {
        match (running, status) {
            (true, ConnectionStatus::Open) => Stage::NextFrame,
            (false, ConnectionStatus::Open) => {
                let (op, shutdown) = do_shutdown(CloseCode::Normal);
                Stage::Perform(op, Exchange::Stopping(shutdown))
            },
            (_, ConnectionStatus::UnexpectedClose(original_error)) => Stage::Recover(
                Origin::Frame,
                original_error,
            ),
            (_, ConnectionStatus::Close(result)) => Stage::Finish(
                Ending { report: Some(result), outcome: Ok(()) },
            ),
        }
    }

    /// Takes what `on_error` returned for the error that it was given.
    pub fn recovered(
        origin: Origin,
        original_error: WebSocketError,
        result: Result<(), WebSocketError>,
    ) -> (r: Self)
        ensures
            r == Stage::<T>::after_recovery(origin, original_error, result),
    {
        let outcome = match result {
            Ok(()) => match origin {
                Origin::Frame => Ok(()),
                Origin::Opening | Origin::Stream => Err(original_error),
            },
            Err(on_fail_error) => Err(
                WebSocketError::OnFailError {
                    original_error: Box::new(original_error),
                    on_fail_error: Box::new(on_fail_error),
                },
            ),
        };
        match origin {
            Origin::Stream => Stage::Finish(Ending { report: None, outcome }),
            Origin::Opening | Origin::Frame => Stage::Finish(
                Ending { report: Some(outcome), outcome: Ok(()) },
            ),
        }
    }
}

impl Exchange {
    /// The stage that follows the operation performed for an exchange.
    pub open spec fn after<T>(self, outcome: Result<(), ProtocolError>) -> Stage<T> {
        match self {
            Exchange::Opening(reply) => Stage::opening(reply.after(outcome)),
            Exchange::Replying(reply) => Stage::replying(reply.after(outcome)),
            Exchange::Rejecting { parse_error, shutdown } => match shutdown.after(outcome) {
                Step::Perform(op, shutdown) => Stage::Perform(
                    op,
                    Exchange::Rejecting { parse_error, shutdown },
                ),
                Step::Done(result) => Stage::Check(
                    ConnectionStatus::UnexpectedClose(
                        WebSocketError::ParserError {
                            parse_error,
                            shutdown_error: match result {
                                Ok(()) => None,
                                Err(err) => Some(err),
                            },
                        },
                    ),
                ),
            },
            Exchange::Closing(shutdown) => match shutdown.after(outcome) {
                Step::Perform(op, shutdown) => Stage::Perform(op, Exchange::Closing(shutdown)),
                Step::Done(result) => Stage::Check(ConnectionStatus::Close(shutdown_result(result))),
            },
            Exchange::Stopping(shutdown) => match shutdown.after(outcome) {
                Step::Perform(op, shutdown) => Stage::Perform(op, Exchange::Stopping(shutdown)),
                Step::Done(result) => Stage::Finish(Ending::reporting(shutdown_result(result))),
            },
        }
    }

    /// Takes the outcome of the operation performed for the exchange.
    pub fn resume<T>(self, outcome: Result<(), ProtocolError>) -> (r: Stage<T>)
        ensures
            r == self.after::<T>(outcome),
    {
        match self {
            Exchange::Opening(reply) => Stage::open_with(reply.resume(outcome)),
            Exchange::Replying(reply) => Stage::reply_with(reply.resume(outcome)),
            Exchange::Rejecting { parse_error, shutdown } => match shutdown.resume(outcome) {
                Step::Perform(op, shutdown) => Stage::Perform(
                    op,
                    Exchange::Rejecting { parse_error, shutdown },
                ),
                Step::Done(result) => {
                    let shutdown_error = match result {
                        Ok(()) => None,
                        Err(protocol_error) => Some(protocol_error),
                    };
                    Stage::Check(
                        ConnectionStatus::UnexpectedClose(
                            WebSocketError::ParserError { parse_error, shutdown_error },
                        ),
                    )
                },
            },
            Exchange::Closing(shutdown) => match shutdown.resume(outcome) {
                Step::Perform(op, shutdown) => Stage::Perform(op, Exchange::Closing(shutdown)),
                Step::Done(result) => Stage::Check(ConnectionStatus::Close(to_result(result))),
            },
            Exchange::Stopping(shutdown) => match shutdown.resume(outcome) {
                Step::Perform(op, shutdown) => Stage::Perform(op, Exchange::Stopping(shutdown)),
                Step::Done(result) => Stage::Finish(
                    Ending { report: Some(to_result(result)), outcome: Ok(()) },
                ),
            },
        }
    }
}

} // verus!
