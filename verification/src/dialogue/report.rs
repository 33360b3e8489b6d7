//! Reporting the result of a websocket.

use crate::error::WebSocketError;
use crossbeam_channel::Sender;
use vstd::prelude::*;

verus! {

/// What sends the result of a websocket to its shutdown handle. A report uses it up, so there
/// is one report at the most, and none while the websocket is still running.
pub struct Reporter {
    sender: Sender<Result<(), WebSocketError>>,
}

impl Reporter {
    /// The channel that the report goes into.
    pub closed spec fn channel(&self) -> Sender<Result<(), WebSocketError>> {
        self.sender
    }

    /// A reporter that sends into the given channel.
    pub(crate) fn new(sender: Sender<Result<(), WebSocketError>>) -> (r: Self)
        ensures
            r.channel() == sender,
    {
        Reporter { sender }
    }

    /// Sends the result, and tells whether it was lost because no handle is left.
    pub(super) fn report(self, result: Result<(), WebSocketError>) -> (r: bool)
        ensures
            exists|sent| #[trigger]
                call_ensures(
                    Sender::<Result<(), WebSocketError>>::send,
                    (&self.channel(), result),
                    sent,
                ) && r == (sent is Err),
    {
        let sent = self.sender.send(result);
        sent.is_err()
    }
}

} // verus!
