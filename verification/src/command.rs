//! The effect algebra: what an application asks the scheduler to produce.

use futures::Stream;
use std::future::Future;
use std::pin::Pin;
use vstd::prelude::*;

verus! {

/// An asynchronous computation that produces one message when it completes.
///
/// It holds a boxed, pinned `Future`, which the verifier cannot look into:
/// nothing is known of the message until the computation has run.
#[verifier::external_body]
#[verifier::reject_recursive_types(M)]
pub struct Computation<M> {
    pub(crate) future: Pin<Box<dyn Future<Output = M> + Send + 'static>>,
}

impl<M> Computation<M> {
    /// Trusted: `Box::pin` moves `future` to the heap unchanged and pins it
    /// there. Nothing is stated of the result.
    #[verifier::external_body]
    fn new<F>(future: F) -> (computation: Self) where F: Future<Output = M> + Send + 'static {
        Computation { future: Box::pin(future) }
    }
}

/// An asynchronous, ordered sequence of messages, consumed front to back
/// until it is exhausted.
///
/// It holds a boxed, pinned `futures::Stream`, which the verifier cannot look
/// into: nothing is known of the messages until the sequence has run.
#[verifier::external_body]
#[verifier::reject_recursive_types(M)]
pub struct Sequence<M> {
    pub(crate) stream: Pin<Box<dyn Stream<Item = M> + Send + 'static>>,
}

/// A description of deferred work that produces no message, one message, or
/// many messages.
#[verifier::reject_recursive_types(M)]
pub enum Command<M> {
    /// Produces nothing.
    Nothing,
    /// Produces this message.
    Instant(M),
    /// Produces the one message of an asynchronous computation.
    Single(Computation<M>),
    /// Produces the messages of an asynchronous sequence, in its order.
    Stream(Sequence<M>),
}

impl<M> Command<M> {
    /// Issuing this command starts a unit of concurrent work.
    pub open spec fn starts_work(self) -> bool {
        !(self is Nothing)
    }
}

impl<M> Command<M> where M: Send + 'static {
    /// The command that declines to produce anything.
    #[inline(always)]
    pub fn none() -> (command: Self)
        ensures
            command is Nothing,
            !command.starts_work(),
    {
        Command::Nothing
    }

    /// The command that produces `message`.
    #[inline(always)]
    pub fn instant(message: M) -> (command: Self)
        ensures
            command == Command::Instant(message),
            command.starts_work(),
    {
        Command::Instant(message)
    }

    /// The command that produces the output of `future`.
    #[inline(always)]
    pub fn single<F>(future: F) -> (command: Self) where F: Future<Output = M> + Send + 'static
        ensures
            command is Single,
            command.starts_work(),
    {
        Command::Single(Computation::new(future))
    }

    /// The command that produces the items of `stream`, in its order.
    ///
    /// Trusted: the body boxes and pins `stream` with `Box::pin`, which moves
    /// it to the heap unchanged, and stores it in the `Stream` variant.
    #[inline(always)]
    #[verifier::external_body]
    pub fn stream<S>(stream: S) -> (command: Self) where S: Stream<Item = M> + Send + 'static
        ensures
            command is Stream,
            command.starts_work(),
    {
        Command::Stream(Sequence { stream: Box::pin(stream) })
    }
}

impl<M> Default for Command<M> {
    /// The command that declines to produce anything.
    #[inline(always)]
    fn default() -> (command: Self)
        ensures
            command is Nothing,
            !command.starts_work(),
    {
        Command::Nothing
    }
}

} // verus!
