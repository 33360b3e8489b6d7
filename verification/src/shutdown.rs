//! Closing a connection.

use crate::message::{CloseCode, CloseReason, Message, SinkOp};
use actix_http::ws::ProtocolError;
use vstd::prelude::*;

verus! {

/// How an exchange with the sink goes on: with an operation, whose outcome `K`
/// waits for, or not at all, having come to `R`.
pub enum Step<K, R> {
    Perform(SinkOp, K),
    Done(R),
}

/// A shutdown under way, by the operation whose outcome it waits for.
#[derive(Debug)]
pub enum Shutdown {
    /// Sending the close message.
    Sending,
    /// Flushing the close message.
    Flushing,
    /// Closing the sink after the close message has left.
    Closing,
    /// Closing the sink after something went wrong.
    Retrying,
}

/// The operation that opens a shutdown: sending a close message with the given
/// code and no description.
pub open spec fn close_op(close_code: CloseCode) -> SinkOp {
    SinkOp::Send(Message::Close(Some(CloseReason { code: close_code, description: None })))
}

/// Starts to close the connection: the operation to perform first, and the
/// shutdown that waits for its outcome.
pub fn do_shutdown(close_code: CloseCode) -> (r: (SinkOp, Shutdown))
    ensures
        r == (close_op(close_code), Shutdown::Sending),
{
    (SinkOp::Send(Message::Close(Some(CloseReason::from(close_code)))), Shutdown::Sending)
}

impl Shutdown {
    /// How a shutdown goes on after the operation that it waits for.
    pub open spec fn after(self, outcome: Result<(), ProtocolError>) -> Step<
        Shutdown,
        Result<(), ProtocolError>,
    > {
        match self {
            Shutdown::Retrying => Step::Done(outcome),
            _ if outcome is Err => Step::Perform(SinkOp::Close, Shutdown::Retrying),
            Shutdown::Sending => Step::Perform(SinkOp::Flush, Shutdown::Flushing),
            Shutdown::Flushing => Step::Perform(SinkOp::Close, Shutdown::Closing),
            Shutdown::Closing => Step::Done(outcome),
        }
    }

    /// Takes the outcome of the operation that the shutdown waits for.
    pub fn resume(self, outcome: Result<(), ProtocolError>) -> (r: Step<
        Shutdown,
        Result<(), ProtocolError>,
    >)
        ensures
            r == self.after(outcome),
    {
        match self {
            Shutdown::Sending => match outcome {
                Ok(()) => Step::Perform(SinkOp::Flush, Shutdown::Flushing),
                Err(_) => Step::Perform(SinkOp::Close, Shutdown::Retrying),
            },
            Shutdown::Flushing => match outcome {
                Ok(()) => Step::Perform(SinkOp::Close, Shutdown::Closing),
                Err(_) => Step::Perform(SinkOp::Close, Shutdown::Retrying),
            },
            Shutdown::Closing => match outcome {
                Ok(()) => Step::Done(outcome),
                Err(_) => Step::Perform(SinkOp::Close, Shutdown::Retrying),
            },
            Shutdown::Retrying => Step::Done(outcome),
        }
    }
}

impl Shutdown {
    /// The operations that follow the one a shutdown waits for, and what the shutdown
    /// comes to, where `outcomes` holds the outcomes of the operations in their order,
    /// from the one that it waits for; `None` where the outcomes end before it does.
    pub open spec fn run(self, outcomes: Seq<Result<(), ProtocolError>>) -> (
        Seq<SinkOp>,
        Option<Result<(), ProtocolError>>,
    )
        decreases outcomes.len(),
    {
        if outcomes.len() == 0 {
            (seq![], None)
        } else {
            match self.after(outcomes.first()) {
                Step::Done(result) => (seq![], Some(result)),
                Step::Perform(op, shutdown) => {
                    let (ops, result) = shutdown.run(outcomes.drop_first());
                    (seq![op] + ops, result)
                },
            }
        }
    }
}

/// A shutdown sends its close message, flushes it and closes the sink. Where the
/// sending, the flushing or the closing fails, it closes the sink once more and is
/// done, so it takes four operations at the most.
pub proof fn law_shutdown_operations(outcomes: Seq<Result<(), ProtocolError>>)
    requires
        outcomes.len() >= 4,
    ensures
        Shutdown::Sending.run(outcomes) == (if outcomes[0] is Err {
            (seq![SinkOp::Close], Some(outcomes[1]))
        } else if outcomes[1] is Err {
            (seq![SinkOp::Flush, SinkOp::Close], Some(outcomes[2]))
        } else if outcomes[2] is Err {
            (seq![SinkOp::Flush, SinkOp::Close, SinkOp::Close], Some(outcomes[3]))
        } else {
            (seq![SinkOp::Flush, SinkOp::Close], Some(outcomes[2]))
        }),
{
    let rest = outcomes.drop_first();
    reveal_with_fuel(Shutdown::run, 5);
    assert(rest.drop_first().first() == outcomes[2]);
    assert(rest.drop_first().drop_first().first() == outcomes[3]);
    let run = Shutdown::Sending.run(outcomes);
    if outcomes[0] is Err {
        assert(run.0 =~= seq![SinkOp::Close]);
    } else if outcomes[1] is Err || outcomes[2] is Ok {
        assert(run.0 =~= seq![SinkOp::Flush, SinkOp::Close]);
    } else {
        assert(run.0 =~= seq![SinkOp::Flush, SinkOp::Close, SinkOp::Close]);
    }
}

/// A shutdown never ends before it has closed the sink, and comes to what the last
/// closing came to.
pub proof fn law_shutdown_closes(closing: Shutdown, outcomes: Seq<Result<(), ProtocolError>>)
    requires
        closing is Sending || closing is Flushing,
        closing.run(outcomes).1 is Some,
    ensures
        ({
            let (ops, result) = closing.run(outcomes);
            &&& 0 < ops.len() < outcomes.len()
            &&& ops.last() == SinkOp::Close
            &&& result == Some(outcomes[ops.len() as int])
        }),
{
    reveal_with_fuel(Shutdown::run, 5);
}

} // verus!
