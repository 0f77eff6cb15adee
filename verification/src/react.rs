//! The state-machine contract that an application implements.

use crate::command::Command;
use crate::event::Event;
use vstd::prelude::*;

verus! {

/// The four operations of an application. The scheduler invokes them on the
/// one instance of the application's state.
///
/// Each mutating operation comes with a relation between the state before
/// the call, its argument, the state after the call and the command it
/// returned. An implementation chooses the relations; the scheduler's
/// contracts are stated over them, so that a contract shows which operation
/// ran, on which state and with which argument. A relation that is left as
/// it is holds of everything, and so claims nothing of the operation.
pub trait React: Sized {
    type Message: Send + 'static;

    /// `init` took `before` to `after` and returned `issued`.
    open spec fn initialised(before: Self, after: Self, issued: Command<Self::Message>) -> bool {
        true
    }

    /// `handle` took `before` to `after` on `event` and returned `issued`.
    open spec fn handled(
        before: Self,
        event: Event,
        after: Self,
        issued: Command<Self::Message>,
    ) -> bool {
        true
    }

    /// `update` took `before` to `after` on `message` and returned `issued`.
    open spec fn updated(
        before: Self,
        message: Self::Message,
        after: Self,
        issued: Command<Self::Message>,
    ) -> bool {
        true
    }

    /// `view` painted `state`.
    open spec fn viewed(state: Self) -> bool {
        true
    }

    /// Called once, before any loop starts.
    fn init(&mut self) -> (issued: Command<Self::Message>)
        ensures
            Self::initialised(*old(self), *final(self), issued),
    ;

    /// Called once for each input event other than the quit chord.
    fn handle(&mut self, event: Event) -> (issued: Command<Self::Message>)
        ensures
            Self::handled(*old(self), event, *final(self), issued),
    ;

    /// Called once for each message taken from the queue.
    fn update(&mut self, message: Self::Message) -> (issued: Command<Self::Message>)
        ensures
            Self::updated(*old(self), message, *final(self), issued),
    ;

    /// Called once for each render tick.
    fn view(&self, frame: ())
        ensures
            Self::viewed(*self),
    ;
}

} // verus!
