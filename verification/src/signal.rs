//! The quit signal: raised at most once by the input loop, polled by the
//! render loop, and seen at most once there.

use tokio::sync::oneshot::error::TryRecvError;
use tokio::sync::oneshot::{Receiver, Sender};
use vstd::prelude::*;

verus! {

/// `tokio::sync::oneshot::Sender`, the sending end of a channel for one
/// value. The verifier carries it through and sees nothing inside.
#[verifier::external_type_specification]
#[verifier::external_body]
#[verifier::reject_recursive_types(T)]
pub struct ExSender<T>(Sender<T>);

/// `tokio::sync::oneshot::Receiver`, the receiving end of a channel for one
/// value. The verifier carries it through and sees nothing inside.
#[verifier::external_type_specification]
#[verifier::external_body]
#[verifier::reject_recursive_types(T)]
pub struct ExReceiver<T>(Receiver<T>);

/// `tokio::sync::oneshot::error::RecvError`, which an awaited `Receiver`
/// yields without a sender. Declared because the receiver's type names it.
#[verifier::external_type_specification]
#[verifier::external_body]
pub struct ExRecvError(tokio::sync::oneshot::error::RecvError);

/// What one poll of the quit signal found.
#[derive(Clone, Copy, Debug, PartialEq, Eq)]
pub enum QuitPoll {
    /// The signal has been raised.
    Fired,
    /// The signal has not been raised yet.
    Pending,
    /// The signal can no longer be raised, or was seen by an earlier poll.
    Closed,
}

/// The raising end of the quit signal.
pub struct QuitTrigger {
    sender: Option<Sender<()>>,
}

/// The polling end of the quit signal, and whether a poll has settled it.
pub struct QuitWatch {
    receiver: Receiver<()>,
    settled: bool,
}

/// Trusted: `tokio::sync::oneshot::channel` makes the ends of one channel.
#[verifier::external_body]
fn channel() -> (ends: (Sender<()>, Receiver<()>)) {
    tokio::sync::oneshot::channel()
}

/// Trusted: `tokio::sync::oneshot::Sender::send` consumes the sender and
/// hands the value to the receiver, or hands it back when the receiver is
/// gone. Which of the two happened is dropped here.
#[verifier::external_body]
fn notify(sender: Sender<()>) {
    let _ = sender.send(());
}

/// Trusted: `tokio::sync::oneshot::Receiver::try_recv` returns at once, with
/// the value if it was sent, `Empty` if it was not sent yet, and `Closed` if
/// the sender is gone or the value was taken before. Which of the three comes
/// back depends on the other end, so nothing is stated of the result.
#[verifier::external_body]
fn try_recv(receiver: &mut Receiver<()>) -> (polled: QuitPoll) {
    match receiver.try_recv() {
        Ok(()) => QuitPoll::Fired,
        Err(TryRecvError::Empty) => QuitPoll::Pending,
        Err(TryRecvError::Closed) => QuitPoll::Closed,
    }
}

/// A fresh quit signal: a trigger that can fire, a watch that saw nothing.
pub fn quit_signal() -> (ends: (QuitTrigger, QuitWatch))
    ensures
        ends.0.armed(),
        !ends.1.settled(),
{
    let (sender, receiver) = channel();
    (QuitTrigger { sender: Some(sender) }, QuitWatch { receiver, settled: false })
}

impl QuitTrigger {
    /// The signal has not been raised through this trigger.
    pub closed spec fn armed(self) -> bool {
        self.sender is Some
    }

    /// Raises the signal if it was not raised before, and says whether this
    /// call raised it. Afterwards the trigger is spent.
    pub fn fire(&mut self) -> (fired: bool)
        ensures
            fired == old(self).armed(),
            !final(self).armed(),
    {
        match self.sender.take() {
            Some(sender) => {
                notify(sender);
                true
            },
            None => false,
        }
    }

    /// Whether the trigger can still fire.
    pub fn is_armed(&self) -> (armed: bool)
        ensures
            armed == self.armed(),
    {
        self.sender.is_some()
    }
}

impl QuitWatch {
    /// Polls the signal without waiting. A settled signal is polled no more.
    pub fn poll(&mut self) -> (polled: QuitPoll)
        ensures
            old(self).settled() ==> polled is Closed,
            final(self).settled() <==> !(polled is Pending),
    {
        if self.settled {
            QuitPoll::Closed
        } else {
            let polled = try_recv(&mut self.receiver);
            match polled {
                QuitPoll::Pending => {},
                _ => {
                    self.settled = true;
                },
            }
            polled
        }
    }

    /// A poll has found the signal fired or closed. The signal is seen once:
    /// every poll after that one finds it closed.
    pub closed spec fn settled(self) -> bool {
        self.settled
    }
}

} // verus!
