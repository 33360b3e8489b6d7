//! What holds of a websocket over its whole course, whatever the server, the network,
//! the callbacks and the shutdown handle do.

use crate::client::{Context, ErrorCallback, MessageCallback, OpenCallback, WebSocketClient};
use crate::dialogue::{Action, Dialogue};
use crate::error::{ParseError, WebSocketError};
use crate::message::{CloseCode, Frame, Message, SinkOp, WsResponse};
use crate::parse::ParseBytes;
use crate::reply::{law_response_ends, response_start, shutdown_result, Reply};
use crate::session::{ConnectionStatus, Ending, Exchange, Origin, Stage};
use crate::shutdown::{close_op, law_shutdown_operations, Shutdown, Step};
use actix_http::ws::ProtocolError;
use vstd::prelude::*;

pub mod conduct;

verus! {

/// What can happen to a websocket.
pub enum Event<T> {
    /// An operation on the sink has an outcome.
    Outcome(Result<(), ProtocolError>),
    /// A frame has come, or no more frames come.
    Incoming(Result<Option<Frame>, ProtocolError>),
    /// The parser has returned.
    Parsed(Result<T, ParseError>),
    /// `on_message` has returned.
    Response(WsResponse),
    /// The flag has been looked at.
    Running(bool),
    /// `on_error` has returned.
    Recovered(Result<(), WebSocketError>),
}

impl<T> Stage<T> {
    /// Whether a stage waits for the event.
    pub open spec fn awaits(self, event: Event<T>) -> bool {
        match self {
            Stage::Perform(..) => event is Outcome,
            Stage::NextFrame => event is Incoming,
            Stage::Parse(_) => event is Parsed,
            Stage::Deliver(_) => event is Response,
            Stage::Check(_) => event is Running,
            Stage::Recover(..) => event is Recovered,
            Stage::Finish(_) => false,
        }
    }

    /// The stage that an event leads to. An event that is not awaited changes nothing.
    pub open spec fn step(self, event: Event<T>) -> Stage<T> {
        match (self, event) {
            (Stage::Perform(_, exchange), Event::Outcome(outcome)) => exchange.after(outcome),
            (Stage::NextFrame, Event::Incoming(incoming)) => Stage::after_frame(incoming),
            (Stage::Parse(_), Event::Parsed(parsed)) => Stage::after_parse(parsed),
            (Stage::Deliver(_), Event::Response(response)) => Stage::replying(
                response_start(response),
            ),
            (Stage::Check(status), Event::Running(running)) => Stage::after_check(running, status),
            (Stage::Recover(origin, error), Event::Recovered(result)) => Stage::after_recovery(
                origin,
                error,
                result,
            ),
            _ => self,
        }
    }

    /// The stage that a sequence of events leads to.
    pub open spec fn run(self, events: Seq<Event<T>>) -> Stage<T>
        decreases events.len(),
    {
        if events.len() == 0 {
            self
        } else {
            self.step(events.first()).run(events.drop_first())
        }
    }

    /// The operations that are performed on the sink in the course of the events.
    pub open spec fn performs(self, events: Seq<Event<T>>) -> Seq<SinkOp>
        decreases events.len(),
    {
        if events.len() == 0 {
            seq![]
        } else {
            let rest = self.step(events.first()).performs(events.drop_first());
            match self {
                Stage::Perform(op, _) if events.first() is Outcome => seq![op] + rest,
                _ => rest,
            }
        }
    }
}

/// Once a websocket has ended, nothing that happens changes that: it reports no second
/// time, performs no further operation and waits for no further frame.
pub proof fn law_end_is_final<T>(ending: Ending, events: Seq<Event<T>>)
    ensures
        Stage::<T>::Finish(ending).run(events) == Stage::<T>::Finish(ending),
        Stage::<T>::Finish(ending).performs(events) == Seq::<SinkOp>::empty(),
    decreases events.len(),
{
    if events.len() > 0 {
        law_end_is_final(ending, events.drop_first());
    }
}

/// Once it is open, a websocket ends without a report in no other case than that no more
/// frames come, and running it comes to an error in no other case than that the frames end
/// with one.
pub proof fn law_report<T>(stage: Stage<T>, event: Event<T>)
    requires
        !(stage is Finish),
        stage.step(event) is Finish,
    ensures
        ({
            let ending = stage.step(event)->Finish_0;
            let stream_failed = stage matches Stage::Recover(Origin::Stream, _);
            &&& ending.report is None <==> stage is NextFrame || stream_failed
            &&& ending.outcome is Err <==> stream_failed
        }),
{
}

/// A websocket that closes due to an unexpected error ends only by way of `on_error`. That
/// error may be one of the incoming frames, of the response to the opening, or one that
/// arose over a frame. Every other end is that the frames end without an error, that the
/// server closed the connection, or that the websocket was to stop.
pub proof fn law_error_callback<T>(stage: Stage<T>, event: Event<T>, error: WebSocketError)
    requires
        !(stage is Finish),
    ensures
        error matches WebSocketError::ProtocolError(err) ==> Stage::<T>::after_frame(Err(err))
            == Stage::<T>::Recover(Origin::Stream, error),
        Stage::<T>::opening(Step::Done(Err(error))) == Stage::<T>::Recover(Origin::Opening, error),
        forall|running: bool|
            #[trigger] Stage::<T>::after_check(running, ConnectionStatus::UnexpectedClose(error))
                == Stage::<T>::Recover(Origin::Frame, error),
        stage.step(event) is Finish ==> {
            ||| stage is Recover
            ||| stage is NextFrame && event == Event::<T>::Incoming(Ok(None))
            ||| stage matches Stage::Check(ConnectionStatus::Close(_))
            ||| stage matches Stage::Perform(_, Exchange::Stopping(_))
        },
{
}

/// How often `on_error` is called in the course of the events.
pub open spec fn recoveries<T>(stage: Stage<T>, events: Seq<Event<T>>) -> nat
    decreases events.len(),
{
    if events.len() == 0 {
        0
    } else {
        let rest = recoveries(stage.step(events.first()), events.drop_first());
        if stage is Recover && events.first() is Recovered {
            1 + rest
        } else {
            rest
        }
    }
}

/// A websocket calls `on_error` once at the most, and has ended once that has returned.
pub proof fn law_one_recovery<T>(stage: Stage<T>, events: Seq<Event<T>>)
    ensures
        recoveries(stage, events) <= 1,
        recoveries(stage, events) == 1 ==> stage.run(events) is Finish,
        stage is Finish ==> recoveries(stage, events) == 0,
    decreases events.len(),
{
    if events.len() > 0 {
        law_one_recovery(stage.step(events.first()), events.drop_first());
        if let Stage::Finish(ending) = stage.step(events.first()) {
            law_end_is_final(ending, events.drop_first());
        }
    }
}

/// A frame is waited for only after the response to the opening has been carried out, or
/// after the last frame has left the connection open and the flag was seen set since.
pub proof fn law_next_frame<T>(stage: Stage<T>, event: Event<T>)
    requires
        !(stage is NextFrame),
        stage.step(event) is NextFrame,
    ensures
        ({
            ||| stage matches Stage::Perform(_, Exchange::Opening(_))
            ||| stage == Stage::<T>::Check(ConnectionStatus::Open) && event == Event::<T>::Running(
                true,
            )
        }),
{
}

/// What follows a sequence of events follows the stage that it leads to.
proof fn lemma_run_concat<T>(stage: Stage<T>, first: Seq<Event<T>>, last: Seq<Event<T>>)
    ensures
        stage.run(first + last) == stage.run(first).run(last),
        stage.performs(first + last) == stage.performs(first) + stage.run(first).performs(last),
    decreases first.len(),
{
    if first.len() == 0 {
        assert(first + last =~= last);
    } else {
        assert((first + last).drop_first() =~= first.drop_first() + last);
        lemma_run_concat(stage.step(first.first()), first.drop_first(), last);
    }
}

/// The events in which operations on the sink have the given outcomes.
pub open spec fn outcome_events<T>(outcomes: Seq<Result<(), ProtocolError>>) -> Seq<Event<T>> {
    outcomes.map_values(|outcome: Result<(), ProtocolError>| Event::<T>::Outcome(outcome))
}

/// Where no operation on the sink is to be performed, outcomes change nothing.
proof fn lemma_no_operation<T>(stage: Stage<T>, outcomes: Seq<Result<(), ProtocolError>>)
    requires
        !(stage is Perform),
    ensures
        stage.run(outcome_events(outcomes)) == stage,
        stage.performs(outcome_events(outcomes)) == Seq::<SinkOp>::empty(),
    decreases outcomes.len(),
{
    if outcomes.len() > 0 {
        lemma_first_outcome::<T>(outcomes);
        lemma_no_operation(stage, outcomes.drop_first());
    }
}

proof fn lemma_first_outcome<T>(outcomes: Seq<Result<(), ProtocolError>>)
    requires
        outcomes.len() > 0,
    ensures
        outcome_events::<T>(outcomes).len() == outcomes.len(),
        outcome_events::<T>(outcomes).first() == Event::<T>::Outcome(outcomes.first()),
        outcome_events::<T>(outcomes).drop_first() == outcome_events::<T>(outcomes.drop_first()),
{
    assert(outcome_events::<T>(outcomes).drop_first() =~= outcome_events::<T>(
        outcomes.drop_first(),
    ));
}

/// What an exchange that closes the connection leads to, where closing came to `result`.
pub open spec fn after_closing<T>(exchange: Exchange, result: Result<(), ProtocolError>) -> Stage<T> {
    match exchange {
        Exchange::Stopping(_) => Stage::Finish(Ending::reporting(shutdown_result(result))),
        Exchange::Closing(_) => Stage::Check(ConnectionStatus::Close(shutdown_result(result))),
        Exchange::Rejecting { parse_error, .. } => Stage::Check(
            ConnectionStatus::UnexpectedClose(
                WebSocketError::ParserError {
                    parse_error,
                    shutdown_error: match result {
                        Ok(()) => None,
                        Err(err) => Some(err),
                    },
                },
            ),
        ),
        _ => Stage::NextFrame,
    }
}

/// The shutdown of an exchange that closes the connection.
pub open spec fn closing_of(exchange: Exchange) -> Option<Shutdown> {
    match exchange {
        Exchange::Stopping(closing) => Some(closing),
        Exchange::Closing(closing) => Some(closing),
        Exchange::Rejecting { shutdown: closing, .. } => Some(closing),
        _ => None,
    }
}

/// An exchange that closes the connection performs the operations of its shutdown and no
/// others, and goes on with what the shutdown came to.
pub proof fn law_closing_exchange<T>(
    op: SinkOp,
    exchange: Exchange,
    outcomes: Seq<Result<(), ProtocolError>>,
)
    requires
        closing_of(exchange) matches Some(closing) && closing.run(outcomes).1 is Some,
    ensures
        ({
            let (ops, result) = closing_of(exchange)->0.run(outcomes);
            let stage = Stage::<T>::Perform(op, exchange);
            &&& stage.run(outcome_events(outcomes)) == after_closing::<T>(exchange, result->0)
            &&& stage.performs(outcome_events(outcomes)) == seq![op] + ops
        }),
    decreases outcomes.len(),
{
    let stage = Stage::<T>::Perform(op, exchange);
    let closing = closing_of(exchange)->0;
    let rest = outcomes.drop_first();
    lemma_first_outcome::<T>(outcomes);
    match exchange.after::<T>(outcomes.first()) {
        Stage::Perform(next_op, next) => {
            law_closing_exchange::<T>(next_op, next, rest);
        },
        next => {
            lemma_no_operation(next, rest);
            assert(stage.performs(outcome_events(outcomes)) =~= seq![op]);
            assert(closing.run(outcomes).0 =~= seq![]);
        },
    }
}

/// An exchange that carries out a response to a frame performs the operations of the
/// response and no others. The connection is open after a success, and closed
/// unexpectedly after a failure.
pub proof fn law_reply_exchange<T>(
    op: SinkOp,
    reply: Reply,
    outcomes: Seq<Result<(), ProtocolError>>,
)
    requires
        reply.run(outcomes).1 is Some,
    ensures
        ({
            let (ops, result) = reply.run(outcomes);
            let stage = Stage::<T>::Perform(op, Exchange::Replying(reply));
            &&& stage.run(outcome_events(outcomes)) == Stage::<T>::replying(Step::Done(result->0))
            &&& stage.performs(outcome_events(outcomes)) == seq![op] + ops
        }),
    decreases outcomes.len(),
{
    let stage = Stage::<T>::Perform(op, Exchange::Replying(reply));
    let rest = outcomes.drop_first();
    lemma_first_outcome::<T>(outcomes);
    match reply.after(outcomes.first()) {
        Step::Perform(next_op, next) => {
            law_reply_exchange::<T>(next_op, next, rest);
        },
        Step::Done(result) => {
            lemma_no_operation(Stage::<T>::replying(Step::Done(result)), rest);
            assert(stage.performs(outcome_events(outcomes)) =~= seq![op]);
            assert(reply.run(outcomes).0 =~= seq![]);
        },
    }
}

/// An exchange that carries out the response to the opening performs the operations of
/// the response and no others. A success leads to the first frame; a failure is handed to
/// `on_error`.
pub proof fn law_opening_exchange<T>(
    op: SinkOp,
    reply: Reply,
    outcomes: Seq<Result<(), ProtocolError>>,
)
    requires
        reply.run(outcomes).1 is Some,
    ensures
        ({
            let (ops, result) = reply.run(outcomes);
            let stage = Stage::<T>::Perform(op, Exchange::Opening(reply));
            &&& stage.run(outcome_events(outcomes)) == (match result->0 {
                Ok(()) => Stage::<T>::NextFrame,
                Err(err) => Stage::<T>::Recover(Origin::Opening, err),
            })
            &&& stage.performs(outcome_events(outcomes)) == seq![op] + ops
        }),
    decreases outcomes.len(),
{
    let stage = Stage::<T>::Perform(op, Exchange::Opening(reply));
    let rest = outcomes.drop_first();
    lemma_first_outcome::<T>(outcomes);
    match reply.after(outcomes.first()) {
        Step::Perform(next_op, next) => {
            law_opening_exchange::<T>(next_op, next, rest);
        },
        Step::Done(result) => {
            lemma_no_operation(Stage::<T>::opening(Step::Done(result)), rest);
            assert(stage.performs(outcome_events(outcomes)) =~= seq![op]);
            assert(reply.run(outcomes).0 =~= seq![]);
        },
    }
}

/// An event leads to the stage that follows it.
proof fn lemma_one_event<T>(stage: Stage<T>, event: Event<T>)
    ensures
        stage.run(seq![event]) == stage.step(event),
        !(stage is Perform) ==> stage.performs(seq![event]) == Seq::<SinkOp>::empty(),
{
    reveal_with_fuel(Stage::run, 2);
    reveal_with_fuel(Stage::performs, 2);
}

/// Once the flag has been cleared, the next frame that leaves the connection open is the
/// last: the connection is closed in the normal way, what that came to is reported, and
/// the websocket has ended.
pub proof fn law_stop<T>(outcomes: Seq<Result<(), ProtocolError>>)
    requires
        Shutdown::Sending.run(outcomes).1 is Some,
    ensures
        ({
            let (ops, result) = Shutdown::Sending.run(outcomes);
            let stage = Stage::<T>::Check(ConnectionStatus::Open);
            let events = seq![Event::<T>::Running(false)] + outcome_events(outcomes);
            &&& stage.run(events) == Stage::<T>::Finish(
                Ending::reporting(shutdown_result(result->0)),
            )
            &&& stage.performs(events) == seq![close_op(CloseCode::Normal)] + ops
        }),
{
    let stage = Stage::<T>::Check(ConnectionStatus::Open);
    let stop = Event::<T>::Running(false);
    lemma_one_event(stage, stop);
    lemma_run_concat(stage, seq![stop], outcome_events(outcomes));
    law_closing_exchange::<T>(
        close_op(CloseCode::Normal),
        Exchange::Stopping(Shutdown::Sending),
        outcomes,
    );
}

/// A close frame is answered by closing the connection in the normal way. What that came
/// to is reported, and the websocket has ended, whether or not it was to go on.
pub proof fn law_close_frame<T>(outcomes: Seq<Result<(), ProtocolError>>, running: bool)
    requires
        Shutdown::Sending.run(outcomes).1 is Some,
    ensures
        ({
            let (ops, result) = Shutdown::Sending.run(outcomes);
            let stage = Stage::<T>::NextFrame;
            let events = seq![Event::<T>::Incoming(Ok(Some(Frame::Close)))] + outcome_events(
                outcomes,
            ) + seq![Event::<T>::Running(running)];
            &&& stage.run(events) == Stage::<T>::Finish(
                Ending::reporting(shutdown_result(result->0)),
            )
            &&& stage.performs(events) == seq![close_op(CloseCode::Normal)] + ops
        }),
{
    let (ops, result) = Shutdown::Sending.run(outcomes);
    let stage = Stage::<T>::NextFrame;
    let close = Event::<T>::Incoming(Ok(Some(Frame::Close)));
    let check = Event::<T>::Running(running);
    lemma_one_event(stage, close);
    lemma_run_concat(stage, seq![close], outcome_events(outcomes));
    law_closing_exchange::<T>(
        close_op(CloseCode::Normal),
        Exchange::Closing(Shutdown::Sending),
        outcomes,
    );
    let closed = Stage::<T>::Check(ConnectionStatus::Close(shutdown_result(result->0)));
    lemma_one_event(closed, check);
    lemma_run_concat(stage, seq![close] + outcome_events(outcomes), seq![check]);
}

/// An unexpected closing over a frame is handed to `on_error`, whether or not the websocket
/// was to go on. Its success is reported as success, its failure together with the error
/// that it was given. Either way the websocket has ended, and no further operation is
/// performed.
pub proof fn law_unexpected_close<T>(
    error: WebSocketError,
    running: bool,
    result: Result<(), WebSocketError>,
)
    ensures
        ({
            let stage = Stage::<T>::Check(ConnectionStatus::UnexpectedClose(error));
            let events = seq![Event::<T>::Running(running), Event::<T>::Recovered(result)];
            &&& stage.step(events[0]) == Stage::<T>::Recover(Origin::Frame, error)
            &&& stage.run(events) == Stage::<T>::Finish(
                Ending::reporting(
                    match result {
                        Ok(()) => Ok(()),
                        Err(failure) => Err(on_fail(error, failure)),
                    },
                ),
            )
            &&& stage.performs(events) == Seq::<SinkOp>::empty()
        }),
{
    let stage = Stage::<T>::Check(ConnectionStatus::UnexpectedClose(error));
    let check = Event::<T>::Running(running);
    let recovery = Event::<T>::Recovered(result);
    lemma_one_event(stage, check);
    lemma_one_event(Stage::<T>::Recover(Origin::Frame, error), recovery);
    lemma_run_concat(stage, seq![check], seq![recovery]);
    assert(seq![check] + seq![recovery] =~= seq![check, recovery]);
}

/// The error of a websocket whose `on_error` failed.
pub open spec fn on_fail(error: WebSocketError, failure: WebSocketError) -> WebSocketError {
    WebSocketError::OnFailError {
        original_error: Box::new(error),
        on_fail_error: Box::new(failure),
    }
}

/// An error of the incoming frames is handed to `on_error`, and is then what running the
/// websocket comes to, together with the failure of `on_error` if it failed. Nothing is
/// reported, and no further operation is performed.
pub proof fn law_stream_error<T>(err: ProtocolError, result: Result<(), WebSocketError>)
    ensures
        ({
            let error = WebSocketError::ProtocolError(err);
            let stage = Stage::<T>::NextFrame;
            let events = seq![Event::<T>::Incoming(Err(err)), Event::<T>::Recovered(result)];
            &&& stage.step(events[0]) == Stage::<T>::Recover(Origin::Stream, error)
            &&& stage.run(events) == Stage::<T>::Finish(
                Ending::silent(
                    match result {
                        Ok(()) => Err(error),
                        Err(failure) => Err(on_fail(error, failure)),
                    },
                ),
            )
            &&& stage.performs(events) == Seq::<SinkOp>::empty()
        }),
{
    let stage = Stage::<T>::NextFrame;
    let failed = Event::<T>::Incoming(Err(err));
    let recovery = Event::<T>::Recovered(result);
    lemma_one_event(stage, failed);
    lemma_one_event(stage.step(failed), recovery);
    lemma_run_concat(stage, seq![failed], seq![recovery]);
    assert(seq![failed] + seq![recovery] =~= seq![failed, recovery]);
}

/// A failure to carry out the response to the opening is handed to `on_error`, and is then
/// reported, together with the failure of `on_error` if it failed.
pub proof fn law_failed_opening<T>(
    op: SinkOp,
    reply: Reply,
    outcomes: Seq<Result<(), ProtocolError>>,
    result: Result<(), WebSocketError>,
)
    requires
        reply.run(outcomes).1 matches Some(Err(_)),
    ensures
        ({
            let error = reply.run(outcomes).1->0->Err_0;
            let stage = Stage::<T>::Perform(op, Exchange::Opening(reply));
            let events = outcome_events(outcomes) + seq![Event::<T>::Recovered(result)];
            &&& stage.run(outcome_events(outcomes)) == Stage::<T>::Recover(Origin::Opening, error)
            &&& stage.run(events) == Stage::<T>::Finish(
                Ending::reporting(
                    match result {
                        Ok(()) => Err(error),
                        Err(failure) => Err(on_fail(error, failure)),
                    },
                ),
            )
            &&& stage.performs(events) == seq![op] + reply.run(outcomes).0
        }),
{
    let error = reply.run(outcomes).1->0->Err_0;
    let stage = Stage::<T>::Perform(op, Exchange::Opening(reply));
    let recovery = Event::<T>::Recovered(result);
    law_opening_exchange::<T>(op, reply, outcomes);
    lemma_one_event(Stage::<T>::Recover(Origin::Opening, error), recovery);
    lemma_run_concat(stage, outcome_events(outcomes), seq![recovery]);
}

/// A message that cannot be parsed never reaches `on_message`. The connection is closed
/// with the code for a protocol error, and closes unexpectedly, with an error that tells
/// why the message could not be parsed and what went wrong in the closing if anything did.
pub proof fn law_malformed_message<T>(
    payload: Option<Vec<u8>>,
    parse_error: ParseError,
    outcomes: Seq<Result<(), ProtocolError>>,
)
    requires
        Shutdown::Sending.run(outcomes).1 is Some,
    ensures
        ({
            let (ops, result) = Shutdown::Sending.run(outcomes);
            let stage = Stage::<T>::Parse(payload);
            let events = seq![Event::<T>::Parsed(Err(parse_error))] + outcome_events(outcomes);
            let shutdown_error = match result->0 {
                Ok(()) => None,
                Err(err) => Some(err),
            };
            &&& stage.run(events) == Stage::<T>::Check(
                ConnectionStatus::UnexpectedClose(
                    WebSocketError::ParserError { parse_error, shutdown_error },
                ),
            )
            &&& stage.performs(events) == seq![close_op(CloseCode::Protocol)] + ops
        }),
{
    let stage = Stage::<T>::Parse(payload);
    let failure = Event::<T>::Parsed(Err(parse_error));
    lemma_one_event(stage, failure);
    lemma_run_concat(stage, seq![failure], outcome_events(outcomes));
    law_closing_exchange::<T>(
        close_op(CloseCode::Protocol),
        Exchange::Rejecting { parse_error, shutdown: Shutdown::Sending },
        outcomes,
    );
}

/// The payload of a text frame and that of a binary frame are treated alike: what can be
/// parsed is handed to `on_message`, and its response is carried out. With a success the
/// connection stays open, and with a failure it closes unexpectedly.
pub proof fn law_message<T>(
    payload: Option<Vec<u8>>,
    message: T,
    response: WsResponse,
    outcomes: Seq<Result<(), ProtocolError>>,
)
    requires
        response_start(response) matches Step::Perform(_, reply) ==> reply.run(outcomes).1 is Some,
    ensures
        Stage::<T>::after_frame(Ok(Some(Frame::Text(payload)))) == Stage::<T>::Parse(payload),
        Stage::<T>::after_frame(Ok(Some(Frame::Binary(payload)))) == Stage::<T>::Parse(payload),
        ({
            let stage = Stage::<T>::Parse(payload);
            let events = seq![Event::<T>::Parsed(Ok(message)), Event::<T>::Response(response)]
                + outcome_events(outcomes);
            match response_start(response) {
                Step::Done(_) => {
                    &&& stage.run(events) == Stage::<T>::Check(ConnectionStatus::Open)
                    &&& stage.performs(events) == Seq::<SinkOp>::empty()
                },
                Step::Perform(op, reply) => {
                    let (ops, result) = reply.run(outcomes);
                    &&& stage.run(events) == Stage::<T>::Check(
                        match result->0 {
                            Ok(()) => ConnectionStatus::Open,
                            Err(err) => ConnectionStatus::UnexpectedClose(err),
                        },
                    )
                    &&& stage.performs(events) == seq![op] + ops
                },
            }
        }),
{
    let stage = Stage::<T>::Parse(payload);
    let parsed = Event::<T>::Parsed(Ok(message));
    let answer = Event::<T>::Response(response);
    lemma_one_event(stage, parsed);
    lemma_one_event(Stage::<T>::Deliver(message), answer);
    lemma_run_concat(stage, seq![parsed], seq![answer]);
    assert(seq![parsed] + seq![answer] =~= seq![parsed, answer]);
    lemma_run_concat(stage, seq![parsed, answer], outcome_events(outcomes));
    match response_start(response) {
        Step::Done(_) => {
            lemma_no_operation(Stage::<T>::Check(ConnectionStatus::Open), outcomes);
        },
        Step::Perform(op, reply) => {
            law_reply_exchange::<T>(op, reply, outcomes);
        },
    }
}

/// A ping is answered by a pong with the same text, which is not flushed. A pong is not
/// answered. Either leaves the connection open, if the answer could be sent.
pub proof fn law_ping<T>(text: String)
    ensures
        ({
            let ping = Event::<T>::Incoming(Ok(Some(Frame::Ping(text))));
            let pong = Event::<T>::Incoming(Ok(Some(Frame::Pong(text))));
            let stage = Stage::<T>::NextFrame;
            let open = Stage::<T>::Check(ConnectionStatus::Open);
            &&& stage.run(seq![ping, Event::<T>::Outcome(Ok(()))]) == open
            &&& stage.performs(seq![ping, Event::<T>::Outcome(Ok(()))]) == seq![
                SinkOp::Send(Message::Pong(text)),
            ]
            &&& stage.run(seq![pong]) == open
            &&& stage.performs(seq![pong]) == Seq::<SinkOp>::empty()
        }),
{
    let stage = Stage::<T>::NextFrame;
    let ping = Event::<T>::Incoming(Ok(Some(Frame::Ping(text))));
    let events = seq![ping, Event::<T>::Outcome(Ok(()))];
    reveal_with_fuel(Stage::run, 3);
    reveal_with_fuel(Stage::performs, 3);
    assert(events.drop_first() =~= seq![Event::<T>::Outcome(Ok(()))]);
    assert(stage.performs(events) =~= seq![SinkOp::Send(Message::Pong(text))]);
}

/// Whether a websocket is about to end, with no further frame to come.
pub open spec fn winding_up<T>(stage: Stage<T>) -> bool {
    match stage {
        Stage::Perform(_, Exchange::Stopping(_)) => true,
        Stage::Perform(_, Exchange::Closing(_)) => true,
        Stage::Perform(_, Exchange::Rejecting { .. }) => true,
        Stage::Perform(_, Exchange::Opening(Reply::Aborting { .. })) => true,
        Stage::Perform(_, Exchange::Replying(Reply::Aborting { .. })) => true,
        Stage::Check(status) => !(status is Open),
        Stage::Recover(..) => true,
        Stage::Finish(_) => true,
        _ => false,
    }
}

/// A websocket that was to stop when the flag was looked at, whose connection has closed,
/// or whose connection is being closed because of a close frame, of a message that could
/// not be parsed or of a response that failed, waits for no further frame, whatever happens.
pub proof fn law_winding_up<T>(stage: Stage<T>, events: Seq<Event<T>>)
    requires
        winding_up(stage),
    ensures
        winding_up(stage.run(events)),
        forall|status: ConnectionStatus|
            winding_up(#[trigger] Stage::<T>::after_check(false, status)),
    decreases events.len(),
{
    if events.len() > 0 {
        law_winding_up(stage.step(events.first()), events.drop_first());
    }
}

/// The response to a frame: a pong to a ping, and the response of `on_message` to a message
/// that could be parsed.
pub open spec fn frame_response<T>(
    frame: Frame,
    parsed: Result<T, ParseError>,
    response: WsResponse,
) -> Option<WsResponse> {
    match frame {
        Frame::Text(_) | Frame::Binary(_) => if parsed is Ok {
            Some(response)
        } else {
            None
        },
        Frame::Ping(text) => Some(WsResponse::Pong(text)),
        _ => None,
    }
}

/// Whether a response fails, where its operations have the given outcomes.
pub open spec fn response_fails(
    res: WsResponse,
    outcomes: Seq<Result<(), ProtocolError>>,
) -> bool {
    match response_start(res) {
        Step::Perform(_, reply) => reply.run(outcomes).1 matches Some(Err(_)),
        Step::Done(result) => result is Err,
    }
}

/// The events of dealing with a frame: what the parser and `on_message` return, the outcomes
/// of the operations, and how the flag is seen then. Those that the frame does not call for
/// are not awaited.
pub open spec fn frame_events<T>(
    frame: Frame,
    parsed: Result<T, ParseError>,
    response: WsResponse,
    outcomes: Seq<Result<(), ProtocolError>>,
    running: bool,
) -> Seq<Event<T>> {
    seq![Event::Incoming(Ok(Some(frame))), Event::Parsed(parsed), Event::Response(response)]
        + outcome_events(outcomes) + seq![Event::Running(running)]
}

/// A frame is the last if and only if it is a close frame, its message cannot be parsed, the
/// response to it fails, or the flag is seen cleared once it has been dealt with. After any
/// other frame the next one is awaited.
pub proof fn law_last_frame<T>(
    frame: Frame,
    parsed: Result<T, ParseError>,
    response: WsResponse,
    outcomes: Seq<Result<(), ProtocolError>>,
    running: bool,
)
    requires
        outcomes.len() >= 6,
    ensures
        ({
            let after = Stage::<T>::NextFrame.run(
                frame_events(frame, parsed, response, outcomes, running),
            );
            let malformed = (frame is Text || frame is Binary) && parsed is Err;
            let failed = frame_response(frame, parsed, response) matches Some(res)
                && response_fails(res, outcomes);
            let last = frame is Close || malformed || failed || !running;
            &&& winding_up(after) <==> last
            &&& after is NextFrame <==> !last
        }),
{
    let stage = Stage::<T>::NextFrame;
    let incoming = Event::<T>::Incoming(Ok(Some(frame)));
    let calls = seq![incoming, Event::Parsed(parsed), Event::Response(response)];
    let outs = outcome_events::<T>(outcomes);
    let check = Event::<T>::Running(running);
    lemma_run_concat(stage, calls + outs, seq![check]);
    lemma_run_concat(stage, calls, outs);
    lemma_one_event(stage.run(calls).run(outs), check);
    assert(stage.run(calls) == stage.step(incoming).step(Event::Parsed(parsed)).step(
        Event::Response(response),
    )) by {
        reveal_with_fuel(Stage::run, 4);
        assert(calls.drop_first() =~= seq![Event::Parsed(parsed), Event::Response(response)]);
        assert(calls.drop_first().drop_first() =~= seq![Event::Response(response)]);
    }
    law_shutdown_operations(outcomes);
    match stage.run(calls) {
        Stage::Perform(op, Exchange::Replying(reply)) => {
            law_response_ends(frame_response(frame, parsed, response)->0, outcomes);
            law_reply_exchange::<T>(op, reply, outcomes);
        },
        Stage::Perform(op, exchange) => {
            law_closing_exchange::<T>(op, exchange, outcomes);
        },
        other => {
            lemma_no_operation(other, outcomes);
        },
    }
}

/// How many operations a shutdown may still take.
pub open spec fn shutdown_steps(closing: Shutdown) -> nat {
    match closing {
        Shutdown::Sending => 4,
        Shutdown::Flushing => 3,
        Shutdown::Closing => 2,
        Shutdown::Retrying => 1,
    }
}

/// The greater of two numbers.
pub open spec fn larger(a: nat, b: nat) -> nat {
    if a < b {
        b
    } else {
        a
    }
}

/// How many steps may still follow a response, where `open` steps may follow its success,
/// and `failed` steps its failure.
pub open spec fn reply_steps(reply: Reply, open: nat, failed: nat) -> nat {
    match reply {
        Reply::Sending { flush: true } => 2 + larger(open, 4 + failed),
        Reply::Sending { flush: false } => 1 + larger(open, 4 + failed),
        Reply::Flushing => 1 + larger(open, 4 + failed),
        Reply::Aborting { shutdown: closing, .. } => shutdown_steps(closing) + failed,
        Reply::Closing { shutdown: closing } => shutdown_steps(closing) + larger(open, failed),
    }
}

/// How many events may still happen before a websocket waits for a frame or has ended.
pub open spec fn steps_ahead<T>(stage: Stage<T>) -> nat {
    match stage {
        Stage::Perform(_, Exchange::Opening(reply)) => reply_steps(reply, 0, 1),
        Stage::Perform(_, Exchange::Replying(reply)) => reply_steps(reply, 5, 2),
        Stage::Perform(_, Exchange::Rejecting { shutdown: closing, .. }) => shutdown_steps(closing)
            + 2,
        Stage::Perform(_, Exchange::Closing(closing)) => shutdown_steps(closing) + 1,
        Stage::Perform(_, Exchange::Stopping(closing)) => shutdown_steps(closing),
        Stage::NextFrame => 0,
        Stage::Parse(_) => 11,
        Stage::Deliver(_) => 10,
        Stage::Check(ConnectionStatus::Open) => 5,
        Stage::Check(ConnectionStatus::UnexpectedClose(_)) => 2,
        Stage::Check(ConnectionStatus::Close(_)) => 1,
        Stage::Recover(..) => 1,
        Stage::Finish(_) => 0,
    }
}

/// Whether each of the events is awaited when it happens, and none comes while a websocket
/// waits for a frame.
pub open spec fn between_frames<T>(stage: Stage<T>, events: Seq<Event<T>>) -> bool
    decreases events.len(),
{
    events.len() > 0 ==> {
        &&& !(stage is NextFrame)
        &&& stage.awaits(events.first())
        &&& between_frames(stage.step(events.first()), events.drop_first())
    }
}

/// Each outcome takes a response nearer to its end.
proof fn lemma_reply_nearer(
    reply: Reply,
    outcome: Result<(), ProtocolError>,
    open: nat,
    failed: nat,
)
    ensures
        match reply.after(outcome) {
            Step::Perform(_, next) => reply_steps(next, open, failed) < reply_steps(
                reply,
                open,
                failed,
            ),
            Step::Done(Ok(())) => open < reply_steps(reply, open, failed),
            Step::Done(Err(_)) => failed < reply_steps(reply, open, failed),
        },
{
}

/// Each outcome takes an exchange nearer to a frame or to the end of the websocket.
proof fn lemma_exchange_nearer<T>(
    op: SinkOp,
    exchange: Exchange,
    outcome: Result<(), ProtocolError>,
)
    ensures
        steps_ahead(exchange.after::<T>(outcome)) < steps_ahead(
            Stage::<T>::Perform(op, exchange),
        ),
{
    match exchange {
        Exchange::Opening(reply) => lemma_reply_nearer(reply, outcome, 0, 1),
        Exchange::Replying(reply) => lemma_reply_nearer(reply, outcome, 5, 2),
        _ => {},
    }
}

/// Each event that is awaited takes a websocket nearer to a frame or to its end.
proof fn lemma_step_nearer<T>(stage: Stage<T>, event: Event<T>)
    requires
        !(stage is NextFrame),
        stage.awaits(event),
    ensures
        steps_ahead(stage.step(event)) < steps_ahead(stage),
{
    if let Stage::Perform(op, exchange) = stage {
        lemma_exchange_nearer::<T>(op, exchange, event->Outcome_0);
    }
}

/// From one frame to the next, or to its end, a websocket takes a bounded number of steps,
/// whatever the outcomes of its operations and whatever its callbacks return: it cannot
/// go on for ever without a frame from the server.
pub proof fn law_progress<T>(stage: Stage<T>, events: Seq<Event<T>>)
    requires
        between_frames(stage, events),
    ensures
        events.len() <= steps_ahead(stage) <= 11,
    decreases events.len(),
{
    if events.len() > 0 {
        lemma_step_nearer(stage, events.first());
        law_progress(stage.step(events.first()), events.drop_first());
    }
}

/// The stage in which a dialogue asks for an action.
pub open spec fn stage_of<T>(action: Action) -> Stage<T> {
    match action {
        Action::Perform(op, exchange) => Stage::Perform(op, exchange),
        Action::NextFrame => Stage::NextFrame,
        Action::Finish(ending) => Stage::Finish(ending),
    }
}

impl<T, M, O, E, I> Dialogue<T, M, O, E, I> where
    T: ParseBytes<T> + 'static,
    M: MessageCallback<Context<I, WebSocketClient<T, M, O, E>>, T>,
    O: OpenCallback<Context<I, WebSocketClient<T, M, O, E>>>,
    E: ErrorCallback<Context<I, WebSocketClient<T, M, O, E>>>,
    I: Clone,
 {
    /// Whether a dialogue may see the event at the stage: what the call that it makes
    /// there returns.
    pub open spec fn may_see(self, stage: Stage<T>, event: Event<T>) -> bool {
        match (stage, event) {
            (Stage::Parse(payload), Event::Parsed(parsed)) => self.parses(payload, parsed),
            (Stage::Deliver(message), Event::Response(response)) => self.responds(
                message,
                response,
            ),
            (Stage::Check(_), Event::Running(running)) => self.sees(running),
            (Stage::Recover(_, error), Event::Recovered(result)) => self.recovers(error, result),
            _ => false,
        }
    }

    /// Whether a dialogue may see the events one after another from the stage on.
    pub open spec fn may_see_all(self, stage: Stage<T>, events: Seq<Event<T>>) -> bool
        decreases events.len(),
    {
        events.len() > 0 ==> {
            &&& self.may_see(stage, events.first())
            &&& self.may_see_all(stage.step(events.first()), events.drop_first())
        }
    }

    /// An action that a dialogue asks for is that of the stage to which its calls have led,
    /// each of them a call of the parser, of a callback or of the flag as the stage demands.
    /// So what holds of the course of a websocket holds of its dialogue.
    pub proof fn law_settles(self, stage: Stage<T>, action: Action)
        requires
            self.settles(stage, action),
        ensures
            exists|calls: Seq<Event<T>>| #[trigger]
                self.may_see_all(stage, calls) && stage.run(calls) == stage_of::<T>(action),
        decreases stage.calls_ahead(),
    {
        let call: Event<T> = match stage {
            Stage::Parse(payload) => Event::Parsed(
                choose|parsed: Result<T, ParseError>| #[trigger]
                    self.parses(payload, parsed) && self.settles(
                        Stage::after_parse(parsed),
                        action,
                    ),
            ),
            Stage::Deliver(message) => Event::Response(
                choose|response: WsResponse| #[trigger]
                    self.responds(message, response) && self.settles(
                        Stage::replying(response_start(response)),
                        action,
                    ),
            ),
            Stage::Check(status) => Event::Running(
                choose|running: bool| #[trigger]
                    self.sees(running) && self.settles(Stage::after_check(running, status), action),
            ),
            Stage::Recover(origin, error) => Event::Recovered(
                choose|result: Result<(), WebSocketError>| #[trigger]
                    self.recovers(error, result) && self.settles(
                        Stage::after_recovery(origin, error, result),
                        action,
                    ),
            ),
            _ => Event::Running(true),
        };
        if stage.calls_ahead() == 0 {
            let none = Seq::<Event<T>>::empty();
            assert(self.may_see_all(stage, none) && stage.run(none) == stage);
        } else {
            let next = stage.step(call);
            self.law_settles(next, action);
            let rest = choose|calls: Seq<Event<T>>| #[trigger]
                self.may_see_all(next, calls) && next.run(calls) == stage_of::<T>(action);
            let calls = seq![call] + rest;
            assert(calls.drop_first() =~= rest);
            assert(self.may_see_all(stage, calls) && stage.run(calls) == stage_of::<T>(action));
        }
    }

    /// Without an `on_open` callback nothing is sent at the opening: the first frame is
    /// awaited at once.
    pub proof fn law_default_open(self, action: Action)
        requires
            self.context.ws.on_open is None,
            self.starts(Ok(()), action),
        ensures
            action == Action::NextFrame,
    {
    }

    /// Without an `on_error` callback an unexpected closing ends as it does where the
    /// callback succeeds: one over a frame is reported as success, one of the opening is
    /// reported as it is, and one of the incoming frames is not reported.
    pub proof fn law_default_error(self, origin: Origin, error: WebSocketError, action: Action)
        requires
            self.context.ws.on_error is None,
            self.settles(Stage::Recover(origin, error), action),
        ensures
            action == Action::Finish(
                match origin {
                    Origin::Frame => Ending::reporting(Ok(())),
                    Origin::Opening => Ending::reporting(Err(error)),
                    Origin::Stream => Ending::silent(Err(error)),
                },
            ),
    {
        reveal_with_fuel(Dialogue::settles, 3);
    }
}

} // verus!
