//! A websocket client whose decisions are kept apart from its input and output.
//!
//! A [`WebSocketClient`] holds the URL of a server and the callbacks for its messages.
//! [`WebSocketClient::listen`] prepares a [`Connection`] and a [`ShutdownHandle`] for it.
//! Whoever runs the connection sends its request, and then does what its [`Dialogue`] asks
//! for, one [`Action`] at a time, until the websocket ends.

pub mod client;
pub mod dialogue;
pub mod error;
pub mod external;
pub mod laws;
pub mod listen;
pub mod message;
pub mod parse;
pub mod reply;
pub mod session;
pub mod shutdown;

pub use client::{Context, ErrorCallback, Igniter, MessageCallback, OpenCallback, WebSocketClient};
pub use dialogue::report::Reporter;
pub use dialogue::{Action, Dialogue, Finished};
pub use error::{ParseError, WebSocketError};
pub use listen::flag::{Flag, Switch};
pub use listen::{Connection, Listen, ShutdownHandle, Stopping, MAX_FRAME_SIZE};
pub use message::{CloseCode, CloseReason, Frame, Message, SinkOp, WsResponse};
pub use parse::ParseBytes;
pub use reply::{handle_response, Reply};
pub use session::{ConnectionStatus, Ending, Exchange, Origin, Stage};
pub use shutdown::{do_shutdown, Shutdown, Step};
