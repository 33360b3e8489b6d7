//! What the functions of the library do, told by their arguments and their results alone.

use crate::client::{
    Context, ErrorCallback, Igniter, MessageCallback, OpenCallback, WebSocketClient,
};
use crate::dialogue::{Action, Dialogue, Finished};
use crate::error::{ParseError, WebSocketError};
use crate::external::{built_request, client_codec_of};
use crate::listen::{Connection, Listen, ShutdownHandle, Stopping};
use crate::message::{CloseCode, CloseReason, Frame, Message, SinkOp, WsResponse};
use crate::parse::ParseBytes;
use crate::reply::{handle_response, to_result, Reply};
use crate::session::{into_bytes, payload_bytes, ConnectionStatus, Ending, Exchange, Origin, Stage};
use crate::shutdown::{do_shutdown, Shutdown, Step};
use actix_http::ws::ProtocolError;
use crossbeam_channel::{bounded, Receiver, RecvError, Sender};
use std::sync::atomic::{AtomicBool, Ordering};
use vstd::prelude::*;

verus! {

/// A client is made for the whole URL that it is given, with the callback for messages that it
/// is given, and with no other callback. It tells the URL as it is, and a copy of it is the
/// same client.
pub proof fn law_client<T, M, O, E>(
    url: &str,
    on_message: M,
    client: WebSocketClient<T, M, O, E>,
    told: String,
    copy: WebSocketClient<T, M, O, E>,
)
    requires
        call_ensures(WebSocketClient::<T, M, O, E>::new, (url, on_message), client),
        call_ensures(WebSocketClient::<T, M, O, E>::url, (&client,), told),
        call_ensures(WebSocketClient::<T, M, O, E>::clone, (&client,), copy),
    ensures
        client.url@ == url@,
        *client.on_message == on_message,
        client.on_open is None,
        client.on_error is None,
        told@ == url@,
        copy == client,
{
}

/// A context holds the igniter and the client that it was made with. A copy of it holds the
/// same client and a copy of the igniter.
pub proof fn law_context<I: Clone, T, M, O, E>(
    igniter: I,
    client: WebSocketClient<T, M, O, E>,
    context: Context<I, WebSocketClient<T, M, O, E>>,
    copy: Context<I, WebSocketClient<T, M, O, E>>,
)
    requires
        call_ensures(
            Context::<I, WebSocketClient<T, M, O, E>>::new,
            (igniter, client),
            context,
        ),
        call_ensures(Context::<I, WebSocketClient<T, M, O, E>>::clone, (&context,), copy),
    ensures
        context.igniter == igniter,
        context.ws == client,
        cloned(igniter, copy.igniter),
        copy.ws == client,
{
}

/// Starting the websocket of a context has its igniter start its client, and returns what that
/// came to. The igniter that a context hands out is a copy of its own.
pub proof fn law_start_ws<I: Igniter<W>, W>(
    context: Context<I, W>,
    started: Result<(), WebSocketError>,
    igniter: I,
)
    requires
        call_ensures(Context::<I, W>::start_ws, (&context,), started),
        call_ensures(Context::<I, W>::igniter, (&context,), igniter),
    ensures
        call_ensures(I::start_ws, (&context.igniter, &context.ws), started),
        cloned(context.igniter, igniter),
{
}

/// Any bytes can be parsed as a message of bytes, and the message is these bytes.
pub proof fn law_bytes_parsed(bytes: &[u8], parsed: Result<Vec<u8>, ParseError>)
    requires
        call_ensures(Vec::<u8>::from_bytes, (bytes,), parsed),
    ensures
        parsed matches Ok(message) && message@ == bytes@,
{
}

/// The bytes of a payload are those that came with the frame: as many, and the same byte at
/// each place. A missing payload has no bytes.
pub proof fn law_payload(payload: Option<Vec<u8>>, bytes: Vec<u8>)
    requires
        call_ensures(into_bytes, (payload,), bytes),
    ensures
        payload_bytes(payload) == bytes@,
        payload matches Some(given) ==> {
            &&& bytes@ == given@
            &&& bytes@.len() == given@.len()
            &&& forall|i: int| 0 <= i < given@.len() ==> #[trigger] bytes@[i] == given@[i]
        },
        payload is None ==> bytes@.len() == 0,
{
}

/// The bytes of a payload that is there are the payload, whatever its length, and those of a
/// missing payload are none.
pub proof fn law_payload_kept(given: Vec<u8>)
    ensures
        payload_bytes(Some(given)) == given@,
        payload_bytes(None) == Seq::<u8>::empty(),
{
}

/// A response is begun by sending what it holds, whatever that is: a text as a text, bytes as
/// bytes, and a pong as a pong. A text and bytes are then flushed. A response that closes is
/// begun by sending a close message with the normal code. Only the empty response performs
/// nothing, and it succeeds.
pub proof fn law_response_begins(res: WsResponse, begun: Step<Reply, Result<(), WebSocketError>>)
    requires
        call_ensures(handle_response, (res,), begun),
    ensures
        match res {
            WsResponse::Text(text) => begun matches Step::Perform(op, reply) && {
                &&& op == SinkOp::Send(Message::Text(text))
                &&& reply == (Reply::Sending { flush: true })
            },
            WsResponse::Bytes(bytes) => begun matches Step::Perform(op, reply) && {
                &&& op == SinkOp::Send(Message::Binary(bytes))
                &&& reply == (Reply::Sending { flush: true })
            },
            WsResponse::Pong(text) => begun matches Step::Perform(op, reply) && {
                &&& op == SinkOp::Send(Message::Pong(text))
                &&& reply == (Reply::Sending { flush: false })
            },
            WsResponse::Close => begun matches Step::Perform(op, reply) && {
                &&& op == SinkOp::Send(
                    Message::Close(
                        Some(CloseReason { code: CloseCode::Normal, description: None }),
                    ),
                )
                &&& reply == (Reply::Closing { shutdown: Shutdown::Sending })
            },
            WsResponse::Empty => begun matches Step::Done(result) && result is Ok,
        },
{
}

/// A shutdown begins by sending a close message with the code that it is given and without
/// a description.
pub proof fn law_shutdown_begins(close_code: CloseCode, begun: (SinkOp, Shutdown))
    requires
        call_ensures(do_shutdown, (close_code,), begun),
    ensures
        begun.0 == SinkOp::Send(
            Message::Close(Some(CloseReason { code: close_code, description: None })),
        ),
        begun.1 is Sending,
{
}

/// A shutdown that waits for the sending goes on with the flushing, and one that waits for
/// the flushing with the closing; where any of these failed, the sink is closed once more.
/// The outcome of a closing that succeeded, or of the last one, is what the shutdown comes to.
pub proof fn law_shutdown_goes_on(
    closing: Shutdown,
    outcome: Result<(), ProtocolError>,
    next: Step<Shutdown, Result<(), ProtocolError>>,
)
    requires
        call_ensures(Shutdown::resume, (closing, outcome), next),
    ensures
        match next {
            Step::Perform(op, then_closing) => {
                &&& !(closing is Retrying)
                &&& outcome is Err ==> op is Close && then_closing is Retrying
                &&& outcome is Ok && closing is Sending ==> op is Flush && then_closing is Flushing
                &&& outcome is Ok && closing is Flushing ==> op is Close && then_closing is Closing
                &&& outcome is Ok ==> !(closing is Closing)
            },
            Step::Done(result) => {
                &&& result == outcome
                &&& closing is Retrying || closing is Closing && outcome is Ok
            },
        },
{
}

/// What a shutdown came to is what the websocket came to: its success, or its protocol error.
pub proof fn law_shutdown_counts(
    result: Result<(), ProtocolError>,
    counted: Result<(), WebSocketError>,
)
    requires
        call_ensures(to_result, (result,), counted),
    ensures
        result is Ok <==> counted is Ok,
        result matches Err(err) ==> counted matches Err(WebSocketError::ProtocolError(kept)) && kept
            == err,
{
}

/// A response whose message could not be sent or flushed sends a close message with the code
/// for a protocol error. One whose message was sent is flushed where it is to be, and succeeds
/// otherwise.
pub proof fn law_response_goes_on(
    reply: Reply,
    outcome: Result<(), ProtocolError>,
    next: Step<Reply, Result<(), WebSocketError>>,
)
    requires
        reply is Sending || reply is Flushing,
        call_ensures(Reply::resume, (reply, outcome), next),
    ensures
        match outcome {
            Err(err) => next matches Step::Perform(op, aborting) && {
                &&& op == SinkOp::Send(
                    Message::Close(
                        Some(CloseReason { code: CloseCode::Protocol, description: None }),
                    ),
                )
                &&& aborting == (Reply::Aborting {
                    protocol_error: err,
                    shutdown: Shutdown::Sending,
                })
            },
            Ok(()) if reply == (Reply::Sending { flush: true }) => next matches Step::Perform(
                op,
                flushing,
            ) && op is Flush && flushing is Flushing,
            Ok(()) => next matches Step::Done(result) && result is Ok,
        },
{
}

/// A response that closes the connection does what its shutdown does. One that closes as it
/// demands comes to what the shutdown comes to. One that failed comes to the protocol error
/// that it failed with, together with that of the shutdown if it failed too.
pub proof fn law_response_closes(
    reply: Reply,
    closing: Shutdown,
    outcome: Result<(), ProtocolError>,
    next: Step<Reply, Result<(), WebSocketError>>,
    step: Step<Shutdown, Result<(), ProtocolError>>,
)
    requires
        reply matches Reply::Aborting { shutdown, .. } ==> shutdown == closing,
        reply matches Reply::Closing { shutdown } ==> shutdown == closing,
        call_ensures(Reply::resume, (reply, outcome), next),
        call_ensures(Shutdown::resume, (closing, outcome), step),
    ensures
        reply is Closing ==> match step {
            Step::Perform(op, then_closing) => next matches Step::Perform(next_op, then_reply) && {
                &&& next_op == op
                &&& then_reply == (Reply::Closing { shutdown: then_closing })
            },
            Step::Done(Ok(())) => next matches Step::Done(result) && result is Ok,
            Step::Done(Err(err)) => next matches Step::Done(result) && result == Err::<
                (),
                WebSocketError,
            >(WebSocketError::ProtocolError(err)),
        },
        reply matches Reply::Aborting { protocol_error, .. } ==> match step {
            Step::Perform(op, then_closing) => next matches Step::Perform(next_op, then_reply) && {
                &&& next_op == op
                &&& then_reply == (Reply::Aborting { protocol_error, shutdown: then_closing })
            },
            Step::Done(Ok(())) => next matches Step::Done(result) && result == Err::<
                (),
                WebSocketError,
            >(WebSocketError::ProtocolError(protocol_error)),
            Step::Done(Err(err)) => next matches Step::Done(result) && result == Err::<
                (),
                WebSocketError,
            >(
                WebSocketError::AbnormalShutdownError { protocol_error, shutdown_error: err },
            ),
        },
{
}

/// The response of `on_open` is carried out as any other response is. Once it succeeded the
/// first frame is awaited, and a failure is handed to `on_error`.
pub proof fn law_opened<T>(
    response: WsResponse,
    begun: Step<Reply, Result<(), WebSocketError>>,
    stage: Stage<T>,
)
    requires
        call_ensures(handle_response, (response,), begun),
        call_ensures(Stage::<T>::opened, (response,), stage),
    ensures
        match begun {
            Step::Perform(op, reply) => stage == Stage::<T>::Perform(op, Exchange::Opening(reply)),
            Step::Done(Ok(())) => stage is NextFrame,
            Step::Done(Err(err)) => stage == Stage::<T>::Recover(Origin::Opening, err),
        },
{
}

/// The response of `on_message` is carried out as any other response is. Once it succeeded the
/// connection is open, and with a failure it has closed unexpectedly.
pub proof fn law_responded<T>(
    response: WsResponse,
    begun: Step<Reply, Result<(), WebSocketError>>,
    stage: Stage<T>,
)
    requires
        call_ensures(handle_response, (response,), begun),
        call_ensures(Stage::<T>::responded, (response,), stage),
    ensures
        match begun {
            Step::Perform(op, reply) => stage == Stage::<T>::Perform(op, Exchange::Replying(reply)),
            Step::Done(Ok(())) => stage == Stage::<T>::Check(ConnectionStatus::Open),
            Step::Done(Err(err)) => stage == Stage::<T>::Check(
                ConnectionStatus::UnexpectedClose(err),
            ),
        },
{
}

/// The payload of a text frame or of a binary frame is parsed as it is. A ping is answered by
/// a pong with its text, and a pong leaves the connection open. A close frame is answered by a
/// close message with the normal code. The end of the frames ends the websocket without a
/// report, and an error among them is handed to `on_error`.
pub proof fn law_received<T>(incoming: Result<Option<Frame>, ProtocolError>, stage: Stage<T>)
    requires
        call_ensures(Stage::<T>::received, (incoming,), stage),
    ensures
        match incoming {
            Ok(Some(Frame::Text(payload))) => stage == Stage::<T>::Parse(payload),
            Ok(Some(Frame::Binary(payload))) => stage == Stage::<T>::Parse(payload),
            Ok(Some(Frame::Ping(text))) => stage == Stage::<T>::Perform(
                SinkOp::Send(Message::Pong(text)),
                Exchange::Replying(Reply::Sending { flush: false }),
            ),
            Ok(Some(Frame::Pong(_))) => stage == Stage::<T>::Check(ConnectionStatus::Open),
            Ok(Some(Frame::Close)) => stage == Stage::<T>::Perform(
                SinkOp::Send(
                    Message::Close(
                        Some(CloseReason { code: CloseCode::Normal, description: None }),
                    ),
                ),
                Exchange::Closing(Shutdown::Sending),
            ),
            Ok(None) => stage matches Stage::Finish(ending) && {
                &&& ending.report is None
                &&& ending.outcome is Ok
            },
            Err(err) => stage == Stage::<T>::Recover(
                Origin::Stream,
                WebSocketError::ProtocolError(err),
            ),
        },
{
}

/// A message that could be parsed is handed to `on_message` as it is. One that could not is
/// answered by a close message with the code for a protocol error.
pub proof fn law_parsed<T>(parsed: Result<T, ParseError>, stage: Stage<T>)
    requires
        call_ensures(Stage::<T>::parsed, (parsed,), stage),
    ensures
        match parsed {
            Ok(message) => stage == Stage::<T>::Deliver(message),
            Err(parse_error) => stage == Stage::<T>::Perform(
                SinkOp::Send(
                    Message::Close(
                        Some(CloseReason { code: CloseCode::Protocol, description: None }),
                    ),
                ),
                Exchange::Rejecting { parse_error, shutdown: Shutdown::Sending },
            ),
        },
{
}

/// Where the connection is open, the next frame is awaited if the flag was seen set, and a
/// close message with the normal code is sent if it was seen cleared. Otherwise it does not
/// matter how the flag was seen: an error is handed to `on_error`, and what the closing came
/// to is reported.
pub proof fn law_checked<T>(running: bool, status: ConnectionStatus, stage: Stage<T>)
    requires
        call_ensures(Stage::<T>::checked, (running, status), stage),
    ensures
        match status {
            ConnectionStatus::Open if running => stage is NextFrame,
            ConnectionStatus::Open => stage == Stage::<T>::Perform(
                SinkOp::Send(
                    Message::Close(
                        Some(CloseReason { code: CloseCode::Normal, description: None }),
                    ),
                ),
                Exchange::Stopping(Shutdown::Sending),
            ),
            ConnectionStatus::UnexpectedClose(err) => stage == Stage::<T>::Recover(
                Origin::Frame,
                err,
            ),
            ConnectionStatus::Close(result) => stage matches Stage::Finish(ending) && {
                &&& ending.report == Some(result)
                &&& ending.outcome is Ok
            },
        },
{
}

/// Once `on_error` has returned, the websocket has ended. A failure of `on_error` is what it
/// comes to, together with the error that it was given. With a success, that is the error
/// itself, but for an error over a frame, which counts as dealt with. It is reported, but for
/// an error of the incoming frames, which is what running the websocket comes to.
pub proof fn law_recovered<T>(
    origin: Origin,
    error: WebSocketError,
    result: Result<(), WebSocketError>,
    stage: Stage<T>,
)
    requires
        call_ensures(Stage::<T>::recovered, (origin, error, result), stage),
    ensures
        stage matches Stage::Finish(ending) && {
            let told = if origin is Stream {
                ending.outcome
            } else {
                ending.report->0
            };
            &&& ending.report is None <==> origin is Stream
            &&& !(origin is Stream) ==> ending.outcome is Ok
            &&& result matches Err(failure) ==> told == Err::<(), WebSocketError>(
                WebSocketError::OnFailError {
                    original_error: Box::new(error),
                    on_fail_error: Box::new(failure),
                },
            )
            &&& result is Ok && origin is Frame ==> told is Ok
            &&& result is Ok && !(origin is Frame) ==> told == Err::<(), WebSocketError>(error)
        },
{
}

/// An exchange that carries out a response does what the response does. Once that succeeded,
/// the first frame is awaited after the opening, and the connection is open after a frame. A
/// failure is handed to `on_error` after the opening, and closes the connection unexpectedly
/// after a frame.
pub proof fn law_response_exchanged<T>(
    reply: Reply,
    outcome: Result<(), ProtocolError>,
    step: Step<Reply, Result<(), WebSocketError>>,
    opening: Stage<T>,
    replying: Stage<T>,
)
    requires
        call_ensures(Reply::resume, (reply, outcome), step),
        call_ensures(Exchange::resume::<T>, (Exchange::Opening(reply), outcome), opening),
        call_ensures(Exchange::resume::<T>, (Exchange::Replying(reply), outcome), replying),
    ensures
        match step {
            Step::Perform(op, next) => {
                &&& opening == Stage::<T>::Perform(op, Exchange::Opening(next))
                &&& replying == Stage::<T>::Perform(op, Exchange::Replying(next))
            },
            Step::Done(Ok(())) => {
                &&& opening is NextFrame
                &&& replying == Stage::<T>::Check(ConnectionStatus::Open)
            },
            Step::Done(Err(err)) => {
                &&& opening == Stage::<T>::Recover(Origin::Opening, err)
                &&& replying == Stage::<T>::Check(ConnectionStatus::UnexpectedClose(err))
            },
        },
{
}

/// An exchange that closes the connection does what its shutdown does. After a message that
/// could not be parsed, the connection has then closed unexpectedly, with an error that holds
/// why it could not be parsed and what the shutdown failed with if it failed. After a close
/// frame, and where the websocket was to stop, what the shutdown came to is what counts.
pub proof fn law_shutdown_exchanged<T>(
    closing: Shutdown,
    outcome: Result<(), ProtocolError>,
    parse_error: ParseError,
    step: Step<Shutdown, Result<(), ProtocolError>>,
    rejecting: Stage<T>,
    answering: Stage<T>,
    stopping: Stage<T>,
)
    requires
        call_ensures(Shutdown::resume, (closing, outcome), step),
        call_ensures(
            Exchange::resume::<T>,
            (Exchange::Rejecting { parse_error, shutdown: closing }, outcome),
            rejecting,
        ),
        call_ensures(Exchange::resume::<T>, (Exchange::Closing(closing), outcome), answering),
        call_ensures(Exchange::resume::<T>, (Exchange::Stopping(closing), outcome), stopping),
    ensures
        match step {
            Step::Perform(op, next) => {
                &&& rejecting == Stage::<T>::Perform(
                    op,
                    Exchange::Rejecting { parse_error, shutdown: next },
                )
                &&& answering == Stage::<T>::Perform(op, Exchange::Closing(next))
                &&& stopping == Stage::<T>::Perform(op, Exchange::Stopping(next))
            },
            Step::Done(Ok(())) => {
                &&& rejecting == Stage::<T>::Check(
                    ConnectionStatus::UnexpectedClose(
                        WebSocketError::ParserError { parse_error, shutdown_error: None },
                    ),
                )
                &&& answering == Stage::<T>::Check(ConnectionStatus::Close(Ok(())))
                &&& stopping == Stage::<T>::Finish(
                    Ending { report: Some(Ok(())), outcome: Ok(()) },
                )
            },
            Step::Done(Err(err)) => {
                &&& rejecting == Stage::<T>::Check(
                    ConnectionStatus::UnexpectedClose(
                        WebSocketError::ParserError { parse_error, shutdown_error: Some(err) },
                    ),
                )
                &&& answering == Stage::<T>::Check(
                    ConnectionStatus::Close(Err(WebSocketError::ProtocolError(err))),
                )
                &&& stopping == Stage::<T>::Finish(
                    Ending {
                        report: Some(Err(WebSocketError::ProtocolError(err))),
                        outcome: Ok(()),
                    },
                )
            },
        },
{
}

impl<T, M, O, E, I> Dialogue<T, M, O, E, I> where
    T: ParseBytes<T> + 'static,
    M: MessageCallback<Context<I, WebSocketClient<T, M, O, E>>, T>,
    O: OpenCallback<Context<I, WebSocketClient<T, M, O, E>>>,
    E: ErrorCallback<Context<I, WebSocketClient<T, M, O, E>>>,
    I: Clone,
 {
    /// Where the client has an `on_error` callback, every error is handed to it, whatever the
    /// error is, wherever it came from, and whatever other callbacks the client has. The
    /// callback gets the error itself and a copy of the context. The websocket ends with what
    /// the callback returned.
    pub proof fn law_on_error(self, origin: Origin, error: WebSocketError, action: Action)
        requires
            self.settles(Stage::Recover(origin, error), action),
        ensures
            self.context.ws.on_error matches Some(callback) ==> exists|
                context: Context<I, WebSocketClient<T, M, O, E>>,
                result: Result<(), WebSocketError>,
            |
                {
                    &&& #[trigger] call_ensures(E::on_error, (&*callback, &error, context), result)
                    &&& cloned(self.context.igniter, context.igniter)
                    &&& context.ws == self.context.ws
                    &&& action == Action::Finish(
                        match (origin, result) {
                            (Origin::Stream, Ok(())) => Ending {
                                report: None,
                                outcome: Err(error),
                            },
                            (Origin::Stream, Err(failure)) => Ending {
                                report: None,
                                outcome: Err(
                                    WebSocketError::OnFailError {
                                        original_error: Box::new(error),
                                        on_fail_error: Box::new(failure),
                                    },
                                ),
                            },
                            (Origin::Opening, Ok(())) => Ending {
                                report: Some(Err(error)),
                                outcome: Ok(()),
                            },
                            (Origin::Frame, Ok(())) => Ending {
                                report: Some(Ok(())),
                                outcome: Ok(()),
                            },
                            (_, Err(failure)) => Ending {
                                report: Some(
                                    Err(
                                        WebSocketError::OnFailError {
                                            original_error: Box::new(error),
                                            on_fail_error: Box::new(failure),
                                        },
                                    ),
                                ),
                                outcome: Ok(()),
                            },
                        },
                    )
                },
            self.context.ws.on_error is None ==> action == Action::Finish(
                match origin {
                    Origin::Stream => Ending { report: None, outcome: Err(error) },
                    Origin::Opening => Ending { report: Some(Err(error)), outcome: Ok(()) },
                    Origin::Frame => Ending { report: Some(Ok(())), outcome: Ok(()) },
                },
            ),
    {
        reveal_with_fuel(Dialogue::settles, 3);
    }

    /// Once a frame has been dealt with, the flag is looked at. Where the connection is open,
    /// the next frame is awaited if the flag was seen set, and a close message with the normal
    /// code is sent if it was seen cleared. Where it is not, how the flag was seen does not
    /// matter.
    pub proof fn law_flag(self, status: ConnectionStatus, action: Action)
        requires
            self.settles(Stage::Check(status), action),
        ensures
            exists|running: bool| #[trigger]
                call_ensures(
                    AtomicBool::load,
                    (&self.running.cell(), Ordering::SeqCst),
                    running,
                ) && (status is Open ==> action == if running {
                    Action::NextFrame
                } else {
                    Action::Perform(
                        SinkOp::Send(
                            Message::Close(
                                Some(CloseReason { code: CloseCode::Normal, description: None }),
                            ),
                        ),
                        Exchange::Stopping(Shutdown::Sending),
                    )
                }),
            status matches ConnectionStatus::UnexpectedClose(error) ==> self.settles(
                Stage::Recover(Origin::Frame, error),
                action,
            ),
            status matches ConnectionStatus::Close(result) ==> action == Action::Finish(
                Ending { report: Some(result), outcome: Ok(()) },
            ),
    {
        reveal_with_fuel(Dialogue::settles, 3);
        let running = choose|running: bool| #[trigger]
            self.sees(running) && self.settles(Stage::after_check(running, status), action);
        assert(call_ensures(
            AtomicBool::load,
            (&self.running.cell(), Ordering::SeqCst),
            running,
        ));
    }

    /// A message is handed to `on_message` as it is, with a copy of the context, and what
    /// the callback returned is begun. The flag is looked at once nothing is to be sent.
    pub proof fn law_on_message(self, message: T, action: Action)
        requires
            self.settles(Stage::Deliver(message), action),
        ensures
            exists|context: Context<I, WebSocketClient<T, M, O, E>>, response: WsResponse|
                {
                    &&& #[trigger] call_ensures(
                        M::on_message,
                        (&*self.context.ws.on_message, context, message),
                        response,
                    )
                    &&& cloned(self.context.igniter, context.igniter)
                    &&& context.ws == self.context.ws
                    &&& match response {
                        WsResponse::Text(text) => action == Action::Perform(
                            SinkOp::Send(Message::Text(text)),
                            Exchange::Replying(Reply::Sending { flush: true }),
                        ),
                        WsResponse::Bytes(bytes) => action == Action::Perform(
                            SinkOp::Send(Message::Binary(bytes)),
                            Exchange::Replying(Reply::Sending { flush: true }),
                        ),
                        WsResponse::Pong(text) => action == Action::Perform(
                            SinkOp::Send(Message::Pong(text)),
                            Exchange::Replying(Reply::Sending { flush: false }),
                        ),
                        WsResponse::Close => action == Action::Perform(
                            SinkOp::Send(
                                Message::Close(
                                    Some(
                                        CloseReason {
                                            code: CloseCode::Normal,
                                            description: None,
                                        },
                                    ),
                                ),
                            ),
                            Exchange::Replying(Reply::Closing { shutdown: Shutdown::Sending }),
                        ),
                        WsResponse::Empty => self.settles(Stage::Check(ConnectionStatus::Open), action),
                    }
                },
    {
        reveal_with_fuel(Dialogue::settles, 2);
    }

    /// Where the client has an `on_open` callback, it is called with a copy of the context
    /// once the connection has been made and upgraded, and what it returned is begun. Where
    /// there is none, or where nothing is to be sent, the first frame is awaited. A failure
    /// to connect is what running the websocket comes to, and nothing is reported.
    pub proof fn law_connected(self, outcome: Result<(), hyper::Error>, action: Action)
        requires
            call_ensures(Self::connected, (&self, outcome), action),
        ensures
            outcome matches Err(err) ==> action == Action::Finish(
                Ending { report: None, outcome: Err(WebSocketError::HyperError(err)) },
            ),
            outcome is Ok && self.context.ws.on_open is None ==> action is NextFrame,
            outcome is Ok ==> (self.context.ws.on_open matches Some(callback) ==> exists|
                context: Context<I, WebSocketClient<T, M, O, E>>,
                response: WsResponse,
            |
                {
                    &&& #[trigger] call_ensures(O::on_open, (&*callback, context), response)
                    &&& cloned(self.context.igniter, context.igniter)
                    &&& context.ws == self.context.ws
                    &&& match response {
                        WsResponse::Text(text) => action == Action::Perform(
                            SinkOp::Send(Message::Text(text)),
                            Exchange::Opening(Reply::Sending { flush: true }),
                        ),
                        WsResponse::Bytes(bytes) => action == Action::Perform(
                            SinkOp::Send(Message::Binary(bytes)),
                            Exchange::Opening(Reply::Sending { flush: true }),
                        ),
                        WsResponse::Pong(text) => action == Action::Perform(
                            SinkOp::Send(Message::Pong(text)),
                            Exchange::Opening(Reply::Sending { flush: false }),
                        ),
                        WsResponse::Close => action == Action::Perform(
                            SinkOp::Send(
                                Message::Close(
                                    Some(
                                        CloseReason {
                                            code: CloseCode::Normal,
                                            description: None,
                                        },
                                    ),
                                ),
                            ),
                            Exchange::Opening(Reply::Closing { shutdown: Shutdown::Sending }),
                        ),
                        WsResponse::Empty => action is NextFrame,
                    }
                }),
    {
        reveal_with_fuel(Dialogue::settles, 2);
    }

    /// The parser is called on the bytes of a payload: on exactly those that came, and on none
    /// where the payload is missing. What it made of them is handed to `on_message`. What it
    /// could not make anything of is answered by a close message with the code for a protocol
    /// error.
    pub proof fn law_parser(self, payload: Option<Vec<u8>>, action: Action)
        requires
            self.settles(Stage::Parse(payload), action),
        ensures
            exists|bytes: &[u8], parsed: Result<T, ParseError>|
                {
                    &&& #[trigger] call_ensures(T::from_bytes, (bytes,), parsed)
                    &&& payload matches Some(given) ==> bytes@ == given@
                    &&& payload is None ==> bytes@.len() == 0
                    &&& match parsed {
                        Ok(message) => self.settles(Stage::Deliver(message), action),
                        Err(parse_error) => action == Action::Perform(
                            SinkOp::Send(
                                Message::Close(
                                    Some(
                                        CloseReason {
                                            code: CloseCode::Protocol,
                                            description: None,
                                        },
                                    ),
                                ),
                            ),
                            Exchange::Rejecting { parse_error, shutdown: Shutdown::Sending },
                        ),
                    }
                },
    {
        reveal_with_fuel(Dialogue::settles, 2);
    }

    /// A ping is answered by a pong with the same text, a pong only has the flag looked at,
    /// and a close frame is answered by a close message with the normal code. The end of the
    /// frames ends the websocket without a report. The payload of any other frame is parsed,
    /// and an error among the frames is handed to `on_error`.
    pub proof fn law_incoming(self, incoming: Result<Option<Frame>, ProtocolError>, action: Action)
        requires
            call_ensures(Self::received, (&self, incoming), action),
        ensures
            match incoming {
                Ok(Some(Frame::Text(payload))) => self.settles(Stage::Parse(payload), action),
                Ok(Some(Frame::Binary(payload))) => self.settles(Stage::Parse(payload), action),
                Ok(Some(Frame::Ping(text))) => action == Action::Perform(
                    SinkOp::Send(Message::Pong(text)),
                    Exchange::Replying(Reply::Sending { flush: false }),
                ),
                Ok(Some(Frame::Pong(_))) => self.settles(
                    Stage::Check(ConnectionStatus::Open),
                    action,
                ),
                Ok(Some(Frame::Close)) => action == Action::Perform(
                    SinkOp::Send(
                        Message::Close(
                            Some(CloseReason { code: CloseCode::Normal, description: None }),
                        ),
                    ),
                    Exchange::Closing(Shutdown::Sending),
                ),
                Ok(None) => action == Action::Finish(Ending { report: None, outcome: Ok(()) }),
                Err(err) => self.settles(
                    Stage::Recover(Origin::Stream, WebSocketError::ProtocolError(err)),
                    action,
                ),
            },
    {
        reveal_with_fuel(Dialogue::settles, 2);
    }

    /// A frame with a text or with bytes, of whatever length, has the parser called on exactly
    /// these bytes. What the parser made of them is what `on_message` is called with, and the
    /// text or the bytes that it returns, of whatever length, are what is sent.
    pub proof fn law_conversation(self, given: Vec<u8>, frame: Frame, action: Action)
        requires
            frame == Frame::Text(Some(given)) || frame == Frame::Binary(Some(given)),
            call_ensures(Self::received, (&self, Ok(Some(frame))), action),
        ensures
            exists|bytes: &[u8], parsed: Result<T, ParseError>|
                {
                    &&& #[trigger] call_ensures(T::from_bytes, (bytes,), parsed)
                    &&& bytes@ == given@
                    &&& parsed matches Ok(message) ==> exists|
                        context: Context<I, WebSocketClient<T, M, O, E>>,
                        response: WsResponse,
                    |
                        {
                            &&& #[trigger] call_ensures(
                                M::on_message,
                                (&*self.context.ws.on_message, context, message),
                                response,
                            )
                            &&& response matches WsResponse::Text(text) ==> action
                                == Action::Perform(
                                SinkOp::Send(Message::Text(text)),
                                Exchange::Replying(Reply::Sending { flush: true }),
                            )
                            &&& response matches WsResponse::Bytes(sent) ==> action
                                == Action::Perform(
                                SinkOp::Send(Message::Binary(sent)),
                                Exchange::Replying(Reply::Sending { flush: true }),
                            )
                        }
                },
    {
        self.law_incoming(Ok(Some(frame)), action);
        self.law_parser(Some(given), action);
        let (bytes, parsed) = choose|bytes: &[u8], parsed: Result<T, ParseError>|
            {
                &&& #[trigger] call_ensures(T::from_bytes, (bytes,), parsed)
                &&& bytes@ == given@
                &&& parsed matches Ok(message) ==> self.settles(Stage::Deliver(message), action)
            };
        if let Ok(message) = parsed {
            self.law_on_message(message, action);
        }
    }

    /// Where the flag can no longer be seen set, no frame that leaves the connection open is
    /// followed by another one: a close message with the normal code is sent instead, and what
    /// the closing came to will be reported.
    pub proof fn law_cleared_flag(self, action: Action)
        requires
            forall|running: bool| #[trigger]
                call_ensures(AtomicBool::load, (&self.running.cell(), Ordering::SeqCst), running)
                    ==> !running,
            self.settles(Stage::Check(ConnectionStatus::Open), action),
        ensures
            action == Action::Perform(
                SinkOp::Send(
                    Message::Close(
                        Some(CloseReason { code: CloseCode::Normal, description: None }),
                    ),
                ),
                Exchange::Stopping(Shutdown::Sending),
            ),
    {
        self.law_flag(ConnectionStatus::Open, action);
    }

    /// A report is sent to the shutdown handle as it is, and is lost if and only if that
    /// failed. What running the websocket came to is told as it is.
    pub proof fn law_finished(self, ending: Ending, finished: Finished)
        requires
            call_ensures(Self::finish, (self, ending), finished),
        ensures
            finished.outcome == ending.outcome,
            ending.report is None ==> !finished.report_lost,
            ending.report matches Some(report) ==> exists|sent| #[trigger]
                call_ensures(
                    Sender::<Result<(), WebSocketError>>::send,
                    (&self.reporter.channel(), report),
                    sent,
                ) && finished.report_lost == (sent is Err),
    {
    }

    /// What an operation came to leads to what the stage that its exchange then stands at
    /// leads to.
    pub proof fn law_performed(
        self,
        exchange: Exchange,
        outcome: Result<(), ProtocolError>,
        stage: Stage<T>,
        action: Action,
    )
        requires
            call_ensures(Self::performed, (&self, exchange, outcome), action),
            call_ensures(Exchange::resume::<T>, (exchange, outcome), stage),
        ensures
            self.settles(stage, action),
    {
    }

    /// A dialogue that is to perform an operation, to wait for a frame or to end asks for
    /// just that, with nothing called before.
    pub proof fn law_asked(self, stage: Stage<T>, action: Action)
        requires
            call_ensures(Self::settle, (&self, stage), action),
        ensures
            stage matches Stage::Perform(op, exchange) ==> action == Action::Perform(op, exchange),
            stage is NextFrame ==> action is NextFrame,
            stage matches Stage::Finish(ending) ==> action == Action::Finish(ending),
            self.settles(stage, action),
    {
    }
}

impl<M, O, E, I> Dialogue<Vec<u8>, M, O, E, I> where
    M: MessageCallback<Context<I, WebSocketClient<Vec<u8>, M, O, E>>, Vec<u8>>,
    O: OpenCallback<Context<I, WebSocketClient<Vec<u8>, M, O, E>>>,
    E: ErrorCallback<Context<I, WebSocketClient<Vec<u8>, M, O, E>>>,
    I: Clone,
 {
    /// Where messages are bytes, `on_message` is called with the bytes of the frame: with all
    /// of them, in their order, and with nothing else.
    pub proof fn law_bytes_delivered(self, given: Vec<u8>, frame: Frame, action: Action)
        requires
            frame == Frame::Text(Some(given)) || frame == Frame::Binary(Some(given)),
            call_ensures(Self::received, (&self, Ok(Some(frame))), action),
        ensures
            exists|
                message: Vec<u8>,
                context: Context<I, WebSocketClient<Vec<u8>, M, O, E>>,
                response: WsResponse,
            |
                {
                    &&& #[trigger] call_ensures(
                        M::on_message,
                        (&*self.context.ws.on_message, context, message),
                        response,
                    )
                    &&& message@ == given@
                    &&& cloned(self.context.igniter, context.igniter)
                    &&& context.ws == self.context.ws
                },
    {
        self.law_incoming(Ok(Some(frame)), action);
        self.law_parser(Some(given), action);
        let (bytes, parsed) = choose|bytes: &[u8], parsed: Result<Vec<u8>, ParseError>|
            {
                &&& #[trigger] call_ensures(Vec::<u8>::from_bytes, (bytes,), parsed)
                &&& bytes@ == given@
                &&& parsed matches Ok(message) ==> self.settles(Stage::Deliver(message), action)
            };
        assert(parsed is Ok);
        self.law_on_message(parsed->Ok_0, action);
    }
}

impl<T, M, O, E> WebSocketClient<T, M, O, E> {
    /// The request for a websocket is built for the whole URL, whatever it is, with the four
    /// header fields that ask for an upgrade to a websocket of version 13.
    pub proof fn law_upgrade_request(url: Seq<char>)
        ensures
            Self::upgrade_request(url) == built_request(
                url,
                ("upgrade"@, "websocket"@),
                ("connection"@, "Upgrade"@),
                ("sec-websocket-version"@, "13"@),
                ("sec-websocket-key"@, "13"@),
            ),
    {
    }

    /// A websocket is made if and only if the request for the URL of its client can be built,
    /// and is started with that request; otherwise the text on why it cannot be built is the
    /// error. Its codec is that of a client that accepts frames of up to ten million bytes. Its
    /// callbacks get the igniter and the client as their context. Its flag was made set, and the
    /// handle that it is stopped with clears the very flag that its dialogue looks at, and
    /// receives from the channel for one result that its dialogue sends to.
    pub proof fn law_listen<I>(
        self,
        igniter: I,
        made: Result<Listen<T, M, O, E, I>, WebSocketError>,
        taken: (Connection<T, M, O, E, I>, ShutdownHandle),
    )
        requires
            call_ensures(WebSocketClient::<T, M, O, E>::listen::<I>, (&self, igniter), made),
            made matches Ok(listen) ==> call_ensures(
                Listen::<T, M, O, E, I>::into_shutdown_handle,
                (listen,),
                taken,
            ),
        ensures
            match built_request(
                self.url@,
                ("upgrade"@, "websocket"@),
                ("connection"@, "Upgrade"@),
                ("sec-websocket-version"@, "13"@),
                ("sec-websocket-key"@, "13"@),
            ) {
                Err(text) => made matches Err(WebSocketError::RequestBuilderError(reason))
                    && reason@ == text,
                Ok(request) => made matches Ok(listen) && {
                    let (connection, handle) = taken;
                    let dialogue = connection.dialogue;
                    &&& connection == listen.connection
                    &&& connection.request == request
                    &&& connection.codec == client_codec_of(10_000_000usize)
                    &&& dialogue.context.igniter == igniter
                    &&& dialogue.context.ws == self
                    &&& handle.running.flag() == dialogue.running
                    &&& listen.running == dialogue.running
                    &&& call_ensures(AtomicBool::new, (true,), dialogue.running.cell())
                    &&& call_ensures(
                        bounded::<Result<(), WebSocketError>>,
                        (1usize,),
                        (dialogue.reporter.channel(), handle.receiver),
                    )
                },
            },
    {
    }
}

/// A shutdown returns what the websocket reported, as it is, and an error that holds why
/// nothing was received where the websocket ended without a report.
pub proof fn law_shutdown_result(
    received: Result<Result<(), WebSocketError>, RecvError>,
    result: Result<(), WebSocketError>,
)
    requires
        call_ensures(ShutdownHandle::result, (received,), result),
    ensures
        match received {
            Ok(reported) => result == reported,
            Err(err) => result == Err::<(), WebSocketError>(WebSocketError::ShutdownError(err)),
        },
{
}

/// A copy of a handle clears the same flag, and receives from a copy of the receiver.
pub proof fn law_handle_copy(handle: ShutdownHandle, copy: ShutdownHandle)
    requires
        call_ensures(ShutdownHandle::clone, (&handle,), copy),
    ensures
        copy.running.flag() == handle.running.flag(),
        copy.running == handle.running,
        cloned(handle.receiver, copy.receiver),
{
}

/// A handle that is told to stop the websocket clears the flag, and goes on to receive from
/// the same channel.
pub proof fn law_stopping(handle: ShutdownHandle, stopping: Stopping)
    requires
        call_ensures(ShutdownHandle::stop, (handle,), stopping),
    ensures
        call_ensures(
            AtomicBool::store,
            (&handle.running.flag().cell(), false, Ordering::SeqCst),
            (),
        ),
        stopping.receiver == handle.receiver,
{
}

/// Waiting returns what was received: the report as it is, or an error where there is none.
pub proof fn law_waiting(stopping: Stopping, result: Result<(), WebSocketError>)
    requires
        call_ensures(Stopping::wait, (stopping,), result),
    ensures
        exists|received: Result<Result<(), WebSocketError>, RecvError>| #[trigger]
            call_ensures(
                Receiver::<Result<(), WebSocketError>>::recv,
                (&stopping.receiver,),
                received,
            ) && match received {
                Ok(reported) => result == reported,
                Err(err) => result == Err::<(), WebSocketError>(WebSocketError::ShutdownError(err)),
            },
{
}

} // verus!
