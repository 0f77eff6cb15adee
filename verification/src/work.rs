//! Units of concurrent work: what a command becomes when it is issued.
//!
//! A unit of work is built by one of three outside combinators and started
//! by the runtime. What it will send, and to which queue, is fixed when it
//! is built. The verifier cannot look into the work itself, so every unit
//! carries a description of it, which only the functions that build and
//! start the work set.

use crate::command::{Command, Computation, Sequence};
use crate::queue::deliver;
use futures::{FutureExt, StreamExt};
use std::sync::Arc;
use tokio::runtime::Handle;
use tokio::sync::mpsc::UnboundedSender;
use tokio::task::JoinHandle;
use vstd::prelude::*;

verus! {

/// What a unit of work sends to its queue.
#[verifier::reject_recursive_types(M)]
pub enum Sends<M> {
    /// This message, once, as soon as the work runs.
    Message(M),
    /// The output of this computation, once, when it has completed.
    OutputOf(Computation<M>),
    /// The items of this sequence, each once, in the order in which the
    /// sequence yields them, until it ends.
    ItemsOf(Sequence<M>),
}

/// A unit of work that has been built and not yet started.
#[verifier::reject_recursive_types(M)]
pub struct Work<M> {
    run: Computation<()>,
    sends: Ghost<Sends<M>>,
    queue: Ghost<Arc<UnboundedSender<M>>>,
}

/// A unit of work that the runtime has been handed.
#[verifier::reject_recursive_types(M)]
pub struct Task<M> {
    /// The runtime's handle of the task.
    pub handle: JoinHandle<()>,
    sends: Ghost<Sends<M>>,
    queue: Ghost<Arc<UnboundedSender<M>>>,
}

/// The work that issuing `command` starts: none for the empty command, and
/// otherwise work that sends what the command produces.
pub open spec fn sends_of<M>(command: Command<M>) -> Option<Sends<M>> {
    match command {
        Command::Nothing => None,
        Command::Instant(message) => Some(Sends::Message(message)),
        Command::Single(computation) => Some(Sends::OutputOf(computation)),
        Command::Stream(sequence) => Some(Sends::ItemsOf(sequence)),
    }
}

impl<M> Sends<M> {
    /// `yielded` is what the asynchronous part of the work can have yielded
    /// when the work has ended: nothing where the work has no such part, one
    /// output for a computation, and any number of items for a sequence.
    pub open spec fn may_yield(self, yielded: Seq<M>) -> bool {
        match self {
            Sends::Message(_) => yielded.len() == 0,
            Sends::OutputOf(_) => yielded.len() == 1,
            Sends::ItemsOf(_) => true,
        }
    }

    /// The messages that the work has sent when it has ended, in the order
    /// in which it sent them, where its asynchronous part yielded `yielded`.
    pub open spec fn messages(self, yielded: Seq<M>) -> Seq<M> {
        match self {
            Sends::Message(message) => seq![message],
            Sends::OutputOf(_) => yielded,
            Sends::ItemsOf(_) => yielded,
        }
    }
}

impl<M> Work<M> {
    /// What the work sends.
    pub closed spec fn sends(self) -> Sends<M> {
        self.sends@
    }

    /// The queue that the work sends to.
    pub closed spec fn queue(self) -> Arc<UnboundedSender<M>> {
        self.queue@
    }
}

impl<M> Task<M> {
    /// What the task sends.
    pub closed spec fn sends(self) -> Sends<M> {
        self.sends@
    }

    /// The queue that the task sends to.
    pub closed spec fn queue(self) -> Arc<UnboundedSender<M>> {
        self.queue@
    }
}

/// Trusted: `futures::future::lazy` makes a future that, when it is first
/// polled, runs the closure once and completes. The closure here sends
/// `message` to `channel` with `deliver`, so the work sends that message,
/// once, to that queue.
#[verifier::external_body]
pub(crate) fn deliver_message<M: Send + 'static>(message: M, channel: Arc<UnboundedSender<M>>) -> (work:
    Work<M>)
    ensures
        work.sends() == Sends::Message(message),
        work.queue() == channel,
{
    let run = futures::future::lazy(
        move |_| {
            deliver(&channel, message);
        },
    );
    Work { run: Computation { future: Box::pin(run) }, sends: Ghost(arbitrary()), queue: Ghost(arbitrary()) }
}

/// Trusted: `futures::FutureExt::map` makes a future that runs the given
/// one to completion and then calls the closure once on its output. The
/// closure here sends that output to `channel` with `deliver`, so the work
/// sends the output of `computation`, once, to that queue.
#[verifier::external_body]
pub(crate) fn deliver_output<M: Send + 'static>(
    computation: Computation<M>,
    channel: Arc<UnboundedSender<M>>,
) -> (work: Work<M>)
    ensures
        work.sends() == Sends::OutputOf(computation),
        work.queue() == channel,
{
    let run = computation.future.map(
        move |message| {
            deliver(&channel, message);
        },
    );
    Work { run: Computation { future: Box::pin(run) }, sends: Ghost(arbitrary()), queue: Ghost(arbitrary()) }
}

/// Trusted: `futures::StreamExt::for_each` makes a future that runs the
/// stream to completion and calls the closure on each item, in the order in
/// which the stream yields them, finishing with one item before it takes
/// the next. The closure here sends the item to `channel` with `deliver`,
/// so the work sends the items of `sequence`, each once and in its order,
/// to that queue.
#[verifier::external_body]
pub(crate) fn deliver_each<M: Send + 'static>(
    sequence: Sequence<M>,
    channel: Arc<UnboundedSender<M>>,
) -> (work: Work<M>)
    ensures
        work.sends() == Sends::ItemsOf(sequence),
        work.queue() == channel,
{
    let run = sequence.stream.for_each(
        move |message| {
            deliver(&channel, message);
            futures::future::ready(())
        },
    );
    Work { run: Computation { future: Box::pin(run) }, sends: Ghost(arbitrary()), queue: Ghost(arbitrary()) }
}

/// Trusted: `tokio::runtime::Handle::spawn` hands the future to the
/// runtime, which polls it in the background until it completes, as long as
/// the runtime runs, and returns at once with the handle of the new task.
/// The task is the work that was handed in: it sends what that work sends,
/// to the same queue.
#[verifier::external_body]
pub(crate) fn spawn<M: Send + 'static>(handle: &Handle, work: Work<M>) -> (task: Task<M>)
    ensures
        task.sends() == work.sends(),
        task.queue() == work.queue(),
{
    Task { handle: handle.spawn(work.run.future), sends: Ghost(arbitrary()), queue: Ghost(arbitrary()) }
}

} // verus!
