//! The message queue: many producers, one consumer, no bound, first in
//! first out.

use tokio::sync::mpsc::{UnboundedReceiver, UnboundedSender};
use vstd::prelude::*;

verus! {

/// `tokio::sync::mpsc::UnboundedSender`, a producing end of the queue. The
/// verifier carries it through and sees nothing inside.
#[verifier::external_type_specification]
#[verifier::external_body]
#[verifier::reject_recursive_types(T)]
pub struct ExUnboundedSender<T>(UnboundedSender<T>);

/// `tokio::sync::mpsc::UnboundedReceiver`, the consuming end of the queue.
/// The verifier carries it through and sees nothing inside.
#[verifier::external_type_specification]
#[verifier::external_body]
#[verifier::reject_recursive_types(T)]
pub struct ExUnboundedReceiver<T>(UnboundedReceiver<T>);

/// Trusted: `tokio::sync::mpsc::unbounded_channel` makes the two ends of a
/// queue without a bound. Nothing is stated of them.
#[verifier::external_body]
pub(crate) fn unbounded_channel<M>() -> (ends: (UnboundedSender<M>, UnboundedReceiver<M>)) {
    tokio::sync::mpsc::unbounded_channel()
}

/// Trusted: `tokio::sync::mpsc::UnboundedSender::send` never waits. It
/// enqueues the message, or, when the receiving end is closed, returns an
/// error that holds the message that was passed in. Which of the two happens
/// depends on the other end of the queue.
#[verifier::external_body]
fn send<M>(channel: &UnboundedSender<M>, message: M) -> (sent: Result<(), M>)
    ensures
        sent matches Err(returned) ==> returned == message,
{
    channel.send(message).map_err(|refused| refused.0)
}

/// Sends `message` to the queue. A queue whose consumer has gone away takes
/// nothing: the message comes back, and that is no failure of the caller.
pub fn deliver<M>(channel: &UnboundedSender<M>, message: M) -> (refused: Option<M>)
    ensures
        refused matches Some(returned) ==> returned == message,
{
    refusal(send(channel, message))
}

/// What a send that ended in `sent` leaves with its producer: nothing when
/// the queue took the message, and the message itself when the consumer was
/// gone. A closed queue is no error, so no error comes out of it.
pub fn refusal<M>(sent: Result<(), M>) -> (refused: Option<M>)
    ensures
        sent is Ok ==> refused is None,
        sent matches Err(returned) ==> refused == Some(returned),
{
    match sent {
        Ok(()) => None,
        Err(returned) => Some(returned),
    }
}

} // verus!
