//! The client: its callbacks, and the context that they are called with.

use crate::error::WebSocketError;
use crate::external::share;
use crate::message::WsResponse;
use std::marker::PhantomData;
use std::sync::Arc;
use vstd::prelude::*;

verus! {

/// A callback for the messages of a websocket. `C` is the context that it is called
/// with, and `T` the type of the messages.
pub trait MessageCallback<C, T>: Send + Sync {
    fn on_message(&self, context: C, message: T) -> WsResponse;
}

/// A callback for the opening of a websocket.
pub trait OpenCallback<C>: Send + Sync {
    fn on_open(&self, context: C) -> WsResponse;
}

/// A callback for the unexpected closing of a websocket.
pub trait ErrorCallback<C>: Send + Sync {
    fn on_error(&self, error: &WebSocketError, context: C) -> Result<(), WebSocketError>;
}

/// What starts websockets of the type `W` on a reactor.
pub trait Igniter<W>: Clone {
    fn start_ws(&self, ws: &W) -> Result<(), WebSocketError>;
}

/// WebSocket client. Configures a websocket connection, and produces what is needed to
/// run it. `T` is the type of its messages, and `M`, `O` and `E` are the types of its
/// callbacks.
pub struct WebSocketClient<T, M, O, E> {
    pub url: String,
    pub on_message: Arc<M>,
    pub on_open: Option<Arc<O>>,
    pub on_error: Option<Arc<E>>,
    pub messages: PhantomData<T>,
}

/// Another pointer to a callback, where there is one.
fn share_option<H>(value: &Option<Arc<H>>) -> (r: Option<Arc<H>>)
    ensures
        r == *value,
{
    match value {
        Some(callback) => Some(share(callback)),
        None => None,
    }
}

impl<T, M, O, E> Clone for WebSocketClient<T, M, O, E> {
    fn clone(&self) -> (r: Self)
        ensures
            r == *self,
    {
        WebSocketClient {
            url: self.url.clone(),
            on_message: share(&self.on_message),
            on_open: share_option(&self.on_open),
            on_error: share_option(&self.on_error),
            messages: PhantomData,
        }
    }
}

impl<T, M, O, E> WebSocketClient<T, M, O, E> {
    /// A client for the given URL that hands its messages to `on_message`.
    pub fn new(url: &str, on_message: M) -> (r: Self)
        ensures
            r.url@ == url@,
            *r.on_message == on_message,
            r.on_open is None,
            r.on_error is None,
    {
        WebSocketClient {
            url: url.to_owned(),
            on_message: Arc::new(on_message),
            on_open: None,
            on_error: None,
            messages: PhantomData,
        }
    }

    /// The URL of the server.
    pub fn url(&self) -> (r: String)
        ensures
            r == self.url,
    {
        self.url.clone()
    }

    /// Adds optional `on_open` callback. This callback is called after a connection is
    /// initially established with the server, and is used for printing debug information
    /// and sending initial messages to the server if necessary.
    pub fn on_open(&mut self, on_open: O)
        ensures
            final(self).on_open matches Some(callback) && *callback == on_open,
            *final(self) == (WebSocketClient { on_open: final(self).on_open, ..*old(self) }),
    {
        self.on_open = Some(Arc::new(on_open));
    }

    /// Adds optional `on_error` callback. This callback is called when the websocket has
    /// closed due to an unexpected error. It should be used to shut down any IO resources
    /// being used by the websocket or to reestablish the connection if appropriate.
    pub fn on_error(&mut self, on_error: E)
        ensures
            final(self).on_error matches Some(callback) && *callback == on_error,
            *final(self) == (WebSocketClient { on_error: final(self).on_error, ..*old(self) }),
    {
        self.on_error = Some(Arc::new(on_error));
    }
}

/// Websocket context object. It contains an igniter pointing to the reactor on which the
/// websocket is running and a copy of the client.
pub struct Context<I, W> {
    pub igniter: I,
    pub ws: W,
}

impl<I: Clone, T, M, O, E> Clone for Context<I, WebSocketClient<T, M, O, E>> {
    fn clone(&self) -> (r: Self)
        ensures
            cloned(self.igniter, r.igniter),
            r.ws == self.ws,
    {
        Context { igniter: self.igniter.clone(), ws: self.ws.clone() }
    }
}

impl<I, W> Context<I, W> {
    /// A context with the given igniter and the given client.
    pub fn new(igniter: I, ws: W) -> (r: Self)
        ensures
            r == (Context { igniter, ws }),
    {
        Context { igniter, ws }
    }
}

impl<I: Igniter<W>, W> Context<I, W> {
    /// Starts an instance of the context's websocket.
    pub fn start_ws(&self) -> (r: Result<(), WebSocketError>)
        ensures
            call_ensures(I::start_ws, (&self.igniter, &self.ws), r),
    {
        self.igniter.start_ws(&self.ws)
    }

    /// Returns a copy of the igniter used to start the websocket.
    pub fn igniter(&self) -> (r: I)
        ensures
            cloned(self.igniter, r),
    {
        self.igniter.clone()
    }
}

} // verus!
