//! Starting and stopping a websocket.

use crate::client::{Context, WebSocketClient};
use crate::dialogue::report::Reporter;
use crate::dialogue::Dialogue;
use crate::error::WebSocketError;
use crate::external::{build_request, built_request, client_codec, client_codec_of, share};
use crate::listen::flag::{Flag, Switch};
use actix_http::ws::Codec;
use crossbeam_channel::{bounded, Receiver, RecvError};
use hyper::{Body, Request};
use std::sync::atomic::{AtomicBool, Ordering};
use std::sync::Arc;
use vstd::prelude::*;

pub mod flag;

verus! {

/// The largest frame that is accepted, in bytes.
pub const MAX_FRAME_SIZE: usize = 10_000_000;

/// A websocket that is yet to be run: the request to send to the server, the codec for
/// the upgraded connection, and the dialogue to hold over it.
pub struct Connection<T, M, O, E, I> {
    pub request: Request<Body>,
    pub codec: Codec,
    pub dialogue: Dialogue<T, M, O, E, I>,
}

/// Wrapper around the connection created by `WebSocketClient`. In order for the
/// connection to run it must be passed to `Igniter::start_ws`.
pub struct Listen<T, M, O, E, I> {
    pub connection: Connection<T, M, O, E, I>,
    pub running: Arc<Flag>,
    pub receiver: Receiver<Result<(), WebSocketError>>,
}

/// What stops a running websocket.
pub struct ShutdownHandle {
    pub running: Arc<Switch>,
    pub receiver: Receiver<Result<(), WebSocketError>>,
}

impl Clone for ShutdownHandle {
    fn clone(&self) -> (r: Self)
        ensures
            r.running == self.running,
            cloned(self.receiver, r.receiver),
    {
        ShutdownHandle { running: share(&self.running), receiver: self.receiver.clone() }
    }
}

impl ShutdownHandle {
    /// What a shutdown returns, where `received` was received from the websocket: the
    /// result that the websocket reported, or an error where it ended without a report.
    pub open spec fn result_of(
        received: Result<Result<(), WebSocketError>, RecvError>,
    ) -> Result<(), WebSocketError> {
        match received {
            Ok(result) => result,
            Err(err) => Err(WebSocketError::ShutdownError(err)),
        }
    }

    /// Takes what was received from the websocket.
    pub fn result(received: Result<Result<(), WebSocketError>, RecvError>) -> (r: Result<
        (),
        WebSocketError,
    >)
        ensures
            r == ShutdownHandle::result_of(received),
    {
        match received {
            Ok(result) => result,
            Err(err) => Err(WebSocketError::from(err)),
        }
    }

    /// Clears the flag that keeps the websocket running.
    pub fn stop(self) -> (r: Stopping)
        ensures
            call_ensures(
                AtomicBool::store,
                (&self.running.flag().cell(), false, Ordering::SeqCst),
                (),
            ),
            r.receiver == self.receiver,
    {
        self.running.store(false, Ordering::SeqCst);
        Stopping { receiver: self.receiver }
    }

    /// Sends shutdown message to websocket: clears the flag that keeps it running, and then
    /// waits for the result that it reports, or for its end.
    pub fn shutdown(self) -> (r: Result<(), WebSocketError>)
        ensures
            exists|stopping: Stopping| #[trigger]
                call_ensures(ShutdownHandle::stop, (self,), stopping) && call_ensures(
                    Stopping::wait,
                    (stopping,),
                    r,
                ),
    {
        let stopping = self.stop();
        stopping.wait()
    }
}

/// A websocket that has been told to stop.
pub struct Stopping {
    pub receiver: Receiver<Result<(), WebSocketError>>,
}

impl Stopping {
    /// Waits for the result that the websocket reports, or for its end.
    pub fn wait(self) -> (r: Result<(), WebSocketError>)
        ensures
            exists|received: Result<Result<(), WebSocketError>, RecvError>| #[trigger]
                call_ensures(
                    Receiver::<Result<(), WebSocketError>>::recv,
                    (&self.receiver,),
                    received,
                ) && r == ShutdownHandle::result_of(received),
    {
        let received = self.receiver.recv();
        ShutdownHandle::result(received)
    }
}

impl<T, M, O, E> WebSocketClient<T, M, O, E> {
    /// Whether `listen` is a fresh websocket of this client that is started with `request`:
    /// its codec is that of a client that accepts frames of up to `MAX_FRAME_SIZE` bytes, its
    /// callbacks get the igniter and this client as their context, its flag is set, and its
    /// dialogue and its handle share the flag and are joined by a channel that holds one
    /// result.
    pub open spec fn listens<I>(
        self,
        igniter: I,
        request: Request<Body>,
        listen: Listen<T, M, O, E, I>,
    ) -> bool {
        let connection = listen.connection;
        let dialogue = connection.dialogue;
        &&& connection.request == request
        &&& connection.codec == client_codec_of(MAX_FRAME_SIZE)
        &&& dialogue.context == Context { igniter, ws: self }
        &&& dialogue.running == listen.running
        &&& call_ensures(AtomicBool::new, (true,), listen.running.cell())
        &&& call_ensures(
            bounded::<Result<(), WebSocketError>>,
            (1usize,),
            (dialogue.reporter.channel(), listen.receiver),
        )
    }

    /// The websocket to run, where `built` is what became of the request for it: the
    /// request itself, or a text on why it could not be built.
    pub fn listen_with<I>(&self, igniter: I, built: Result<Request<Body>, String>) -> (r: Result<
        Listen<T, M, O, E, I>,
        WebSocketError,
    >)
        ensures
            match built {
                Ok(request) => r matches Ok(listen) && self.listens(igniter, request, listen),
                Err(text) => r matches Err(err) && err == WebSocketError::RequestBuilderError(text),
            },
    {
        let running = Arc::new(Flag::new());
        let (sender, receiver) = bounded(1);
        match built {
            Ok(request) => {
                let context = Context::new(igniter, self.clone());
                let reporter = Reporter::new(sender);
                let dialogue = Dialogue { context, running: share(&running), reporter };
                let codec = client_codec(MAX_FRAME_SIZE);
                let connection = Connection { request, codec, dialogue };
                Ok(Listen { connection, running, receiver })
            },
            Err(text) => Err(WebSocketError::RequestBuilderError(text)),
        }
    }

    /// What becomes of the request for a websocket at the URL: a request that asks the
    /// server to upgrade the connection to a websocket of version 13.
    pub open spec fn upgrade_request(url: Seq<char>) -> Result<Request<Body>, Seq<char>> {
        built_request(
            url,
            ("upgrade"@, "websocket"@),
            ("connection"@, "Upgrade"@),
            ("sec-websocket-version"@, "13"@),
            ("sec-websocket-key"@, "13"@),
        )
    }

    /// Returns `Listen` for WebSocket. It fails where no request can be built for the URL.
    pub fn listen<I>(&self, igniter: I) -> (r: Result<Listen<T, M, O, E, I>, WebSocketError>)
        ensures
            match Self::upgrade_request(self.url@) {
                Ok(request) => r matches Ok(listen) && self.listens(igniter, request, listen),
                Err(text) => r matches Err(WebSocketError::RequestBuilderError(reason)) && reason@
                    == text,
            },
            Self::upgrade_request(self.url@) == built_request(
                self.url@,
                ("upgrade"@, "websocket"@),
                ("connection"@, "Upgrade"@),
                ("sec-websocket-version"@, "13"@),
                ("sec-websocket-key"@, "13"@),
            ),
    {
        proof {
            reveal_strlit("upgrade");
            reveal_strlit("connection");
            reveal_strlit("sec-websocket-version");
            reveal_strlit("sec-websocket-key");
        }
        let built = build_request(
            self.url.clone(),
            ("upgrade", "websocket"),
            ("connection", "Upgrade"),
            ("sec-websocket-version", "13"),
            ("sec-websocket-key", "13"),
        );
        self.listen_with(igniter, built)
    }

    /// Shutting a websocket down clears the flag that its own dialogue looks at, and then
    /// waits on the receiving side of the channel that its own dialogue reports to; the
    /// shutdown returns what was received there.
    pub proof fn law_shutdown_of_listen<I>(
        self,
        igniter: I,
        request: Request<Body>,
        listen: Listen<T, M, O, E, I>,
        handle: ShutdownHandle,
        result: Result<(), WebSocketError>,
    )
        requires
            self.listens(igniter, request, listen),
            handle.running.flag() == listen.running,
            handle.receiver == listen.receiver,
            call_ensures(ShutdownHandle::shutdown, (handle,), result),
        ensures
            call_ensures(
                AtomicBool::store,
                (&listen.connection.dialogue.running.cell(), false, Ordering::SeqCst),
                (),
            ),
            exists|stopping: Stopping, received: Result<Result<(), WebSocketError>, RecvError>|
                {
                    &&& #[trigger] call_ensures(ShutdownHandle::stop, (handle,), stopping)
                    &&& #[trigger] call_ensures(
                        Receiver::<Result<(), WebSocketError>>::recv,
                        (&stopping.receiver,),
                        received,
                    )
                    &&& call_ensures(
                        bounded::<Result<(), WebSocketError>>,
                        (1usize,),
                        (listen.connection.dialogue.reporter.channel(), stopping.receiver),
                    )
                    &&& match received {
                        Ok(reported) => result == reported,
                        Err(err) => result == Err::<(), WebSocketError>(
                            WebSocketError::ShutdownError(err),
                        ),
                    }
                },
    {
    }
}

} // verus!
