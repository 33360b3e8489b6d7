//! The dialogue with the server: runs a websocket between its operations on the network.

use crate::client::{Context, ErrorCallback, MessageCallback, OpenCallback, WebSocketClient};
use crate::dialogue::report::Reporter;
use crate::error::{ParseError, WebSocketError};
use crate::listen::flag::Flag;
use crate::message::{Frame, SinkOp, WsResponse};
use crate::parse::ParseBytes;
use crate::reply::response_start;
use crate::session::{into_bytes, payload_bytes, ConnectionStatus, Ending, Exchange, Stage};
use actix_http::ws::ProtocolError;
use crossbeam_channel::Sender;
use std::sync::atomic::{AtomicBool, Ordering};
use std::sync::Arc;
use vstd::prelude::*;

pub mod report;

verus! {

/// What is to be done on the network.
#[derive(Debug)]
pub enum Action {
    /// Perform the operation on the sink, and pass its outcome to `Dialogue::performed`.
    Perform(SinkOp, Exchange),
    /// Wait for a frame, and pass it to `Dialogue::received`.
    NextFrame,
    /// Nothing more: pass the ending to `Dialogue::finish`.
    Finish(Ending),
}

/// What running a websocket came to, and whether the result for its shutdown handle was
/// lost because no handle is left.
#[derive(Debug)]
pub struct Finished {
    pub outcome: Result<(), WebSocketError>,
    pub report_lost: bool,
}

/// Runs one websocket. It calls the callbacks of the client, looks at the flag that a
/// shutdown handle clears, and sends the result of the websocket to that handle.
pub struct Dialogue<T, M, O, E, I> {
    pub context: Context<I, WebSocketClient<T, M, O, E>>,
    pub running: Arc<Flag>,
    pub reporter: Reporter,
}

impl<T> Stage<T> {
    /// How many calls of callbacks, of the parser and of the flag may follow before
    /// something is to be done on the network.
    pub open spec fn calls_ahead(self) -> nat {
        match self {
            Stage::Parse(_) => 4,
            Stage::Deliver(_) => 3,
            Stage::Check(_) => 2,
            Stage::Recover(..) => 1,
            _ => 0,
        }
    }
}

impl<T, M, O, E, I> Dialogue<T, M, O, E, I> where
    T: ParseBytes<T> + 'static,
    M: MessageCallback<Context<I, WebSocketClient<T, M, O, E>>, T>,
    O: OpenCallback<Context<I, WebSocketClient<T, M, O, E>>>,
    E: ErrorCallback<Context<I, WebSocketClient<T, M, O, E>>>,
    I: Clone,
 {
    /// Whether a callback may be called with `context`: with a copy of the dialogue's own.
    pub open spec fn hands_out(self, context: Context<I, WebSocketClient<T, M, O, E>>) -> bool {
        &&& cloned(self.context.igniter, context.igniter)
        &&& context.ws == self.context.ws
    }

    /// Whether `response` may be the response to the opening: what `on_open` returns, and
    /// an empty response where there is no such callback.
    pub open spec fn opens_with(self, response: WsResponse) -> bool {
        match self.context.ws.on_open {
            Some(callback) => exists|context: Context<I, WebSocketClient<T, M, O, E>>| #[trigger]
                self.hands_out(context) && call_ensures(
                    O::on_open,
                    (&*callback, context),
                    response,
                ),
            None => response == WsResponse::Empty,
        }
    }

    /// Whether `parsed` may be what the parser returns for a payload.
    pub open spec fn parses(self, payload: Option<Vec<u8>>, parsed: Result<T, ParseError>) -> bool {
        exists|bytes: &[u8]|
            bytes@ == payload_bytes(payload) && #[trigger] call_ensures(
                T::from_bytes,
                (bytes,),
                parsed,
            )
    }

    /// Whether `response` may be what `on_message` returns for a message.
    pub open spec fn responds(self, message: T, response: WsResponse) -> bool {
        exists|context: Context<I, WebSocketClient<T, M, O, E>>| #[trigger]
            self.hands_out(context) && call_ensures(
                M::on_message,
                (&*self.context.ws.on_message, context, message),
                response,
            )
    }

    /// Whether `result` may be what `on_error` returns for an error; where there is no
    /// such callback, it is success.
    pub open spec fn recovers(
        self,
        error: WebSocketError,
        result: Result<(), WebSocketError>,
    ) -> bool {
        match self.context.ws.on_error {
            Some(callback) => exists|context: Context<I, WebSocketClient<T, M, O, E>>| #[trigger]
                self.hands_out(context) && call_ensures(
                    E::on_error,
                    (&*callback, &error, context),
                    result,
                ),
            None => result == Ok::<(), WebSocketError>(()),
        }
    }

    /// Whether the flag may be seen as `running`.
    pub open spec fn sees(self, running: bool) -> bool {
        call_ensures(AtomicBool::load, (&self.running.cell(), Ordering::SeqCst), running)
    }

    /// Whether a stage may lead to `action`, by calls of the parser, of the callbacks and
    /// of the flag alone.
    pub open spec fn settles(self, stage: Stage<T>, action: Action) -> bool
        decreases stage.calls_ahead(),
    {
        match stage {
            Stage::Perform(op, exchange) => action == Action::Perform(op, exchange),
            Stage::NextFrame => action == Action::NextFrame,
            Stage::Finish(ending) => action == Action::Finish(ending),
            Stage::Parse(payload) => exists|parsed: Result<T, ParseError>| #[trigger]
                self.parses(payload, parsed) && self.settles(Stage::after_parse(parsed), action),
            Stage::Deliver(message) => exists|response: WsResponse| #[trigger]
                self.responds(message, response) && self.settles(
                    Stage::replying(response_start(response)),
                    action,
                ),
            Stage::Check(status) => exists|running: bool| #[trigger]
                self.sees(running) && self.settles(Stage::after_check(running, status), action),
            Stage::Recover(origin, error) => exists|result: Result<(), WebSocketError>| #[trigger]
                self.recovers(error, result) && self.settles(
                    Stage::after_recovery(origin, error, result),
                    action,
                ),
        }
    }

    /// Whether a connection attempt that came to `outcome` may lead to `action`: a failure
    /// ends the websocket, and success leads to the response to the opening.
    pub open spec fn starts(self, outcome: Result<(), hyper::Error>, action: Action) -> bool {
        match outcome {
            Ok(()) => exists|response: WsResponse| #[trigger]
                self.opens_with(response) && self.settles(
                    Stage::opening(response_start(response)),
                    action,
                ),
            Err(err) => action == Action::Finish(
                Ending::silent(Err(WebSocketError::HyperError(err))),
            ),
        }
    }

    /// Calls `on_open` if there is such a callback.
    fn call_on_open(&self) -> (r: WsResponse)
        ensures
            self.opens_with(r),
    {
        match &self.context.ws.on_open {
            Some(on_open) => {
                let context = self.context.clone();
                assert(self.hands_out(context));
                on_open.on_open(context)
            },
            None => WsResponse::Empty,
        }
    }

    /// Calls the parser.
    fn parse(&self, payload: Option<Vec<u8>>) -> (r: Result<T, ParseError>)
        ensures
            self.parses(payload, r),
    {
        let bytes = into_bytes(payload);
        T::from_bytes(bytes.as_slice())
    }

    /// Calls `on_message`.
    fn call_on_message(&self, message: T) -> (r: WsResponse)
        ensures
            self.responds(message, r),
    {
        let context = self.context.clone();
        assert(self.hands_out(context));
        self.context.ws.on_message.on_message(context, message)
    }

    /// Calls `on_error` if there is such a callback.
    fn call_on_error(&self, error: &WebSocketError) -> (r: Result<(), WebSocketError>)
        ensures
            self.recovers(*error, r),
    {
        match &self.context.ws.on_error {
            Some(on_error) => {
                let context = self.context.clone();
                assert(self.hands_out(context));
                on_error.on_error(error, context)
            },
            None => Ok(()),
        }
    }

    /// Runs the websocket from a stage to where something is to be done on the network.
    pub fn settle(&self, stage: Stage<T>) -> (r: Action)
        ensures
            self.settles(stage, r),
        decreases stage.calls_ahead(),
    {
        match stage {
            Stage::Perform(op, exchange) => Action::Perform(op, exchange),
            Stage::NextFrame => Action::NextFrame,
            Stage::Finish(ending) => Action::Finish(ending),
            Stage::Parse(payload) => {
                let parsed = self.parse(payload);
                assert(self.parses(payload, parsed));
                self.settle(Stage::parsed(parsed))
            },
            Stage::Deliver(message) => {
                let response = self.call_on_message(message);
                assert(self.responds(message, response));
                self.settle(Stage::responded(response))
            },
            Stage::Check(status) => {
                let running = self.running.load(Ordering::SeqCst);
                assert(self.sees(running));
                self.settle(Stage::checked(running, status))
            },
            Stage::Recover(origin, original_error) => {
                let result = self.call_on_error(&original_error);
                assert(self.recovers(original_error, result));
                self.settle(Stage::recovered(origin, original_error, result))
            },
        }
    }

    /// Takes what the attempt to connect to the server and to upgrade the connection came to.
    pub fn connected(&self, outcome: Result<(), hyper::Error>) -> (r: Action)
        ensures
            self.starts(outcome, r),
    {
        match outcome {
            Ok(()) => {
                let response = self.call_on_open();
                assert(self.opens_with(response));
                self.settle(Stage::opened(response))
            },
            Err(err) => Action::Finish(
                Ending { report: None, outcome: Err(WebSocketError::from(err)) },
            ),
        }
    }

    /// Takes the outcome of the operation performed on the sink for an exchange.
    pub fn performed(&self, exchange: Exchange, outcome: Result<(), ProtocolError>) -> (r: Action)
        ensures
            self.settles(exchange.after(outcome), r),
    {
        self.settle(exchange.resume(outcome))
    }

    /// Takes a frame from the server; `None` where no more frames come.
    pub fn received(&self, incoming: Result<Option<Frame>, ProtocolError>) -> (r: Action)
        ensures
            self.settles(Stage::after_frame(incoming), r),
    {
        self.settle(Stage::received(incoming))
    }

    /// Ends the websocket: sends its result, if it has one, to the shutdown handle, whether
    /// or not the handle is still there, and tells what running the websocket came to.
    pub fn finish(self, ending: Ending) -> (r: Finished)
        ensures
            r.outcome == ending.outcome,
            match ending.report {
                Some(report) => exists|sent| #[trigger]
                    call_ensures(
                        Sender::<Result<(), WebSocketError>>::send,
                        (&self.reporter.channel(), report),
                        sent,
                    ) && r.report_lost == (sent is Err),
                None => !r.report_lost,
            },
    {
        let report_lost = match ending.report {
            Some(report) => self.reporter.report(report),
            None => false,
        };
        Finished { outcome: ending.outcome, report_lost }
    }
}

} // verus!
