//! Carrying out the response of a callback.

use crate::error::WebSocketError;
use crate::message::{CloseCode, Message, SinkOp, WsResponse};
use crate::shutdown::{close_op, do_shutdown, law_shutdown_operations, Shutdown, Step};
use actix_http::ws::ProtocolError;
use vstd::prelude::*;

verus! {

/// A response under way, by what it waits for.
#[derive(Debug)]
pub enum Reply {
    /// Sending the message, which is to be flushed where `flush` is set.
    Sending { flush: bool },
    /// Flushing the message.
    Flushing,
    /// Closing the connection, for the message could not be sent or flushed.
    Aborting { protocol_error: ProtocolError, shutdown: Shutdown },
    /// Closing the connection, as the response demands.
    Closing { shutdown: Shutdown },
}

/// The message that a response sends.
pub open spec fn response_message(res: WsResponse) -> Option<Message> {
    match res {
        WsResponse::Text(text) => Some(Message::Text(text)),
        WsResponse::Bytes(bytes) => Some(Message::Binary(bytes)),
        WsResponse::Pong(text) => Some(Message::Pong(text)),
        WsResponse::Close => None,
        WsResponse::Empty => None,
    }
}

/// How a response is begun: an empty one is done at once, one that closes begins a
/// normal shutdown, and any other sends its message.
pub open spec fn response_start(res: WsResponse) -> Step<Reply, Result<(), WebSocketError>> {
    match response_message(res) {
        Some(message) => Step::Perform(
            SinkOp::Send(message),
            Reply::Sending { flush: !(res is Pong) },
        ),
        None if res is Close => Step::Perform(
            close_op(CloseCode::Normal),
            Reply::Closing { shutdown: Shutdown::Sending },
        ),
        None => Step::Done(Ok(())),
    }
}

/// What a shutdown comes to, as a result of the websocket.
pub open spec fn shutdown_result(result: Result<(), ProtocolError>) -> Result<(), WebSocketError> {
    match result {
        Ok(()) => Ok(()),
        Err(err) => Err(WebSocketError::ProtocolError(err)),
    }
}

/// The error of a response that failed with `protocol_error`, where the shutdown that
/// followed came to `result`.
pub open spec fn abort_error(
    protocol_error: ProtocolError,
    result: Result<(), ProtocolError>,
) -> WebSocketError {
    match result {
        Ok(()) => WebSocketError::ProtocolError(protocol_error),
        Err(shutdown_error) => WebSocketError::AbnormalShutdownError {
            protocol_error,
            shutdown_error,
        },
    }
}

/// Takes what a shutdown came to as a result of the websocket.
pub fn to_result(result: Result<(), ProtocolError>) -> (r: Result<(), WebSocketError>)
    ensures
        r == shutdown_result(result),
{
    match result {
        Ok(()) => Ok(()),
        Err(err) => Err(WebSocketError::from(err)),
    }
}

/// Starts to carry out a response.
pub fn handle_response(res: WsResponse) -> (r: Step<Reply, Result<(), WebSocketError>>)
    ensures
        r == response_start(res),
        r is Done <==> res is Empty,
        r matches Step::Done(result) ==> result is Ok,
        res matches WsResponse::Text(text) ==> r == Step::<
            Reply,
            Result<(), WebSocketError>,
        >::Perform(SinkOp::Send(Message::Text(text)), Reply::Sending { flush: true }),
        res matches WsResponse::Bytes(bytes) ==> r == Step::<
            Reply,
            Result<(), WebSocketError>,
        >::Perform(SinkOp::Send(Message::Binary(bytes)), Reply::Sending { flush: true }),
        res matches WsResponse::Pong(text) ==> r == Step::<
            Reply,
            Result<(), WebSocketError>,
        >::Perform(SinkOp::Send(Message::Pong(text)), Reply::Sending { flush: false }),
{
    match res {
        WsResponse::Text(msg) => Step::Perform(
            SinkOp::Send(Message::Text(msg)),
            Reply::Sending { flush: true },
        ),
        WsResponse::Bytes(bytes) => Step::Perform(
            SinkOp::Send(Message::Binary(bytes)),
            Reply::Sending { flush: true },
        ),
        WsResponse::Pong(msg) => Step::Perform(
            SinkOp::Send(Message::Pong(msg)),
            Reply::Sending { flush: false },
        ),
        WsResponse::Close => {
            let (op, shutdown) = do_shutdown(CloseCode::Normal);
            Step::Perform(op, Reply::Closing { shutdown })
        },
        WsResponse::Empty => Step::Done(Ok(())),
    }
}

impl Reply {
    /// How a response goes on after the operation that it waits for.
    pub open spec fn after(self, outcome: Result<(), ProtocolError>) -> Step<
        Reply,
        Result<(), WebSocketError>,
    > {
        match self {
            Reply::Aborting { protocol_error, shutdown } => match shutdown.after(outcome) {
                Step::Perform(op, shutdown) => Step::Perform(
                    op,
                    Reply::Aborting { protocol_error, shutdown },
                ),
                Step::Done(result) => Step::Done(Err(abort_error(protocol_error, result))),
            },
            Reply::Closing { shutdown } => match shutdown.after(outcome) {
                Step::Perform(op, shutdown) => Step::Perform(op, Reply::Closing { shutdown }),
                Step::Done(result) => Step::Done(shutdown_result(result)),
            },
            _ => match outcome {
                Err(protocol_error) => Step::Perform(
                    close_op(CloseCode::Protocol),
                    Reply::Aborting { protocol_error, shutdown: Shutdown::Sending },
                ),
                Ok(()) if self == (Reply::Sending { flush: true }) => Step::Perform(
                    SinkOp::Flush,
                    Reply::Flushing,
                ),
                Ok(()) => Step::Done(Ok(())),
            },
        }
    }

    /// Takes the outcome of the operation that the response waits for.
    pub fn resume(self, outcome: Result<(), ProtocolError>) -> (r: Step<
        Reply,
        Result<(), WebSocketError>,
    >)
        ensures
            r == self.after(outcome),
    {
        match self {
            Reply::Sending { flush } => match outcome {
                Ok(()) => if flush {
                    Step::Perform(SinkOp::Flush, Reply::Flushing)
                } else {
                    Step::Done(Ok(()))
                },
                Err(protocol_error) => abort(protocol_error),
            },
            Reply::Flushing => match outcome {
                Ok(()) => Step::Done(Ok(())),
                Err(protocol_error) => abort(protocol_error),
            },
            Reply::Aborting { protocol_error, shutdown } => match shutdown.resume(outcome) {
                Step::Perform(op, shutdown) => Step::Perform(
                    op,
                    Reply::Aborting { protocol_error, shutdown },
                ),
                Step::Done(Ok(())) => Step::Done(Err(WebSocketError::from(protocol_error))),
                Step::Done(Err(shutdown_error)) => Step::Done(
                    Err(WebSocketError::AbnormalShutdownError { protocol_error, shutdown_error }),
                ),
            },
            Reply::Closing { shutdown } => match shutdown.resume(outcome) {
                Step::Perform(op, shutdown) => Step::Perform(op, Reply::Closing { shutdown }),
                Step::Done(result) => Step::Done(to_result(result)),
            },
        }
    }
}

/// Starts to close the connection after a message could not be sent or flushed.
fn abort(protocol_error: ProtocolError) -> (r: Step<Reply, Result<(), WebSocketError>>)
    ensures
        r == Step::<Reply, Result<(), WebSocketError>>::Perform(
            close_op(CloseCode::Protocol),
            Reply::Aborting { protocol_error, shutdown: Shutdown::Sending },
        ),
{
    let (op, shutdown) = do_shutdown(CloseCode::Protocol);
    Step::Perform(op, Reply::Aborting { protocol_error, shutdown })
}

impl Reply {
    /// The operations that follow the one a response waits for, and what the response
    /// comes to, where `outcomes` holds the outcomes of the operations in their order,
    /// from the one that it waits for; `None` where the outcomes end before it does.
    pub open spec fn run(self, outcomes: Seq<Result<(), ProtocolError>>) -> (
        Seq<SinkOp>,
        Option<Result<(), WebSocketError>>,
    )
        decreases outcomes.len(),
    {
        if outcomes.len() == 0 {
            (seq![], None)
        } else {
            match self.after(outcomes.first()) {
                Step::Done(result) => (seq![], Some(result)),
                Step::Perform(op, reply) => {
                    let (ops, result) = reply.run(outcomes.drop_first());
                    (seq![op] + ops, result)
                },
            }
        }
    }
}

/// What a response that failed with `protocol_error` comes to, where the shutdown that
/// followed has come to `result`, or has not ended.
pub open spec fn aborted(
    protocol_error: ProtocolError,
    result: Option<Result<(), ProtocolError>>,
) -> Option<Result<(), WebSocketError>> {
    match result {
        Some(result) => Some(Err(abort_error(protocol_error, result))),
        None => None,
    }
}

/// A response that closes runs as its shutdown does, and comes to the same.
pub proof fn law_close_response(shutdown: Shutdown, outcomes: Seq<Result<(), ProtocolError>>)
    ensures
        (Reply::Closing { shutdown }).run(outcomes).0 == shutdown.run(outcomes).0,
        (Reply::Closing { shutdown }).run(outcomes).1 == (match shutdown.run(outcomes).1 {
            Some(result) => Some(shutdown_result(result)),
            None => None,
        }),
    decreases outcomes.len(),
{
    if outcomes.len() > 0 {
        if let Step::Perform(_, next) = shutdown.after(outcomes.first()) {
            law_close_response(next, outcomes.drop_first());
        }
    }
}

/// A response that failed closes the connection and always comes to an error: to what
/// failed, together with what went wrong in the closing if anything did.
pub proof fn law_aborted_response(
    protocol_error: ProtocolError,
    shutdown: Shutdown,
    outcomes: Seq<Result<(), ProtocolError>>,
)
    ensures
        (Reply::Aborting { protocol_error, shutdown }).run(outcomes) == (
            shutdown.run(outcomes).0,
            aborted(protocol_error, shutdown.run(outcomes).1),
        ),
    decreases outcomes.len(),
{
    if outcomes.len() > 0 {
        if let Step::Perform(_, next) = shutdown.after(outcomes.first()) {
            law_aborted_response(protocol_error, next, outcomes.drop_first());
        }
    }
}

/// The operations that follow the sending of a message, and what the response comes to,
/// where the message is to be flushed if `flush` is set.
pub open spec fn message_run(flush: bool, outcomes: Seq<Result<(), ProtocolError>>) -> (
    Seq<SinkOp>,
    Option<Result<(), WebSocketError>>,
) {
    if let Err(err) = outcomes[0] {
        let (ops, result) = Shutdown::Sending.run(outcomes.skip(1));
        (seq![close_op(CloseCode::Protocol)] + ops, aborted(err, result))
    } else if !flush {
        (seq![], Some(Ok(())))
    } else if let Err(err) = outcomes[1] {
        let (ops, result) = Shutdown::Sending.run(outcomes.skip(2));
        (seq![SinkOp::Flush, close_op(CloseCode::Protocol)] + ops, aborted(err, result))
    } else {
        (seq![SinkOp::Flush], Some(Ok(())))
    }
}

/// A message that is sent and then flushed, where it is to be, runs as stated.
proof fn lemma_message_run(flush: bool, outcomes: Seq<Result<(), ProtocolError>>)
    requires
        outcomes.len() >= 2,
    ensures
        (Reply::Sending { flush }).run(outcomes) == message_run(flush, outcomes),
{
    reveal_with_fuel(Reply::run, 3);
    let reply = Reply::Sending { flush };
    assert(outcomes.drop_first() =~= outcomes.skip(1));
    assert(outcomes.drop_first().drop_first() =~= outcomes.skip(2));
    if let Err(err) = outcomes[0] {
        law_aborted_response(err, Shutdown::Sending, outcomes.skip(1));
    } else if !flush {
        assert(reply.run(outcomes).0 =~= seq![]);
    } else if let Err(err) = outcomes[1] {
        law_aborted_response(err, Shutdown::Sending, outcomes.skip(2));
        let (ops, _) = Shutdown::Sending.run(outcomes.skip(2));
        assert(reply.run(outcomes).0 =~= seq![SinkOp::Flush, close_op(CloseCode::Protocol)] + ops);
    } else {
        assert(reply.run(outcomes).0 =~= seq![SinkOp::Flush]);
    }
}

/// A response with a message sends it, and flushes it unless it is a pong. It comes to
/// success where both succeed. Where one fails, the connection is closed with the code
/// for a protocol error, and the response comes to an error that tells what failed.
pub proof fn law_message_response(res: WsResponse, outcomes: Seq<Result<(), ProtocolError>>)
    requires
        response_message(res) is Some,
        outcomes.len() >= 2,
    ensures
        response_start(res) matches Step::Perform(op, reply) && {
            &&& op == SinkOp::Send(response_message(res)->0)
            &&& reply.run(outcomes) == message_run(!(res is Pong), outcomes)
        },
{
    lemma_message_run(!(res is Pong), outcomes);
}

/// A response takes six operations at the most, and has then come to a result.
pub proof fn law_response_ends(res: WsResponse, outcomes: Seq<Result<(), ProtocolError>>)
    requires
        outcomes.len() >= 6,
    ensures
        response_start(res) matches Step::Perform(op, reply) ==> {
            &&& reply.run(outcomes).1 is Some
            &&& reply.run(outcomes).0.len() <= 5
        },
{
    if response_message(res) is Some {
        law_message_response(res, outcomes);
        law_shutdown_operations(outcomes.skip(1));
        law_shutdown_operations(outcomes.skip(2));
    } else {
        law_close_response(Shutdown::Sending, outcomes);
        law_shutdown_operations(outcomes);
    }
}

} // verus!
