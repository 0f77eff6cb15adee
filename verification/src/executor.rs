//! The scheduler: how commands become units of concurrent work, and what
//! each of the three loops does with what it is handed.
//!
//! The loops themselves wait on the outside world: for the next event, the
//! next message, the next tick. What they decide in between is here. A loop
//! hands its step function what it received and performs what comes back.

use crate::command::Command;
use crate::event::{Event, KeyCode, CONTROL};
use crate::queue::unbounded_channel;
use crate::react::React;
use crate::signal::{quit_signal, QuitPoll, QuitTrigger, QuitWatch};
use crate::work::{deliver_each, deliver_message, deliver_output, sends_of, spawn, Task};
use std::sync::Arc;
use tokio::runtime::Handle;
use tokio::sync::mpsc::{UnboundedReceiver, UnboundedSender};
use tokio::task::JoinHandle;
use vstd::prelude::*;

verus! {

/// `tokio::runtime::Handle`, a handle to the runtime that runs the units of
/// work. The verifier carries it through and sees nothing inside.
#[verifier::external_type_specification]
#[verifier::external_body]
pub struct ExHandle(Handle);

/// `tokio::task::JoinHandle`, the handle of a spawned task. The verifier
/// carries it through and sees nothing inside.
#[verifier::external_type_specification]
#[verifier::external_body]
#[verifier::reject_recursive_types(T)]
pub struct ExJoinHandle<T>(JoinHandle<T>);

/// `tokio::task::JoinError`, which a `JoinHandle` yields for a task that
/// did not complete. It is declared because the handle's type names it.
#[verifier::external_type_specification]
#[verifier::external_body]
pub struct ExJoinError(tokio::task::JoinError);

/// Nanoseconds in one millisecond.
pub const NANOS_PER_MILLI: u128 = 1_000_000;

/// The scheduler's configuration: the cadence of the render loop.
pub struct Executor {
    tick_rate: u64,
}

/// What the input loop does after one pull from the event source.
#[verifier::reject_recursive_types(M)]
pub enum InputStep<M> {
    /// The event source has ended: the loop ends.
    Closed,
    /// The quit chord was pressed: the quit signal is raised and the loop
    /// ends.
    Quit,
    /// The application handled the event: the loop issues this command and
    /// goes on.
    Handled(Command<M>),
}

/// What the update loop does after one pull from the message queue.
#[verifier::reject_recursive_types(M)]
pub enum UpdateStep<M> {
    /// The queue is closed and drained: the loop ends.
    Closed,
    /// The application applied the message: the loop issues this command and
    /// goes on.
    Updated(Command<M>),
}

/// What the render loop does after one tick.
#[derive(Clone, Copy, Debug, PartialEq, Eq)]
pub enum Tick {
    /// The quit signal was seen: the loop ends and the caller gets control
    /// back.
    Stop,
    /// The view was painted: the loop sleeps until `deadline`, in
    /// nanoseconds on the clock that the tick's start was read from.
    Painted { deadline: u128 },
}

/// What a started scheduler consists of, handed to the three loops.
#[verifier::reject_recursive_types(M)]
pub struct Session<M> {
    /// The producing end of the message queue.
    pub sender: Arc<UnboundedSender<M>>,
    /// The consuming end of the message queue, for the update loop.
    pub receiver: UnboundedReceiver<M>,
    /// The raising end of the quit signal, for the input loop.
    pub trigger: QuitTrigger,
    /// The polling end of the quit signal, for the render loop.
    pub watch: QuitWatch,
    /// The unit of work that the command of `init` started, if it started
    /// one.
    pub first: Option<Task<M>>,
}

impl Executor {
    /// The tick rate, in milliseconds.
    pub closed spec fn rate(self) -> u64 {
        self.tick_rate
    }

    /// The interval between two render ticks, in nanoseconds.
    pub open spec fn interval(self) -> int {
        self.rate() * NANOS_PER_MILLI
    }

    /// The instant until which the render loop sleeps after a tick that
    /// started at `tick_start`: one interval after the start of the tick,
    /// however long the tick's work took.
    pub open spec fn deadline(self, tick_start: int) -> int {
        tick_start + self.interval()
    }

    /// The deadline of a tick is representable, whenever the tick starts.
    pub proof fn lemma_deadline_fits(self, tick_start: u64)
        ensures
            tick_start <= self.deadline(tick_start as int) <= u128::MAX,
            self.interval() >= 0,
    {
    }

    /// A scheduler that renders every `tick_rate` milliseconds.
    pub fn new(tick_rate: u64) -> (executor: Self)
        ensures
            executor.rate() == tick_rate,
    {
        Executor { tick_rate }
    }

    /// The tick rate, in milliseconds.
    pub fn tick_rate(&self) -> (rate: u64)
        ensures
            rate == self.rate(),
    {
        self.tick_rate
    }

    /// Whether `event` is the quit chord.
    pub fn check_if_quit(event: &Event) -> (quit: bool)
        ensures
            quit == event.is_quit_chord(),
    {
        match event {
            Event::Key(key) => match key.code {
                KeyCode::Char(c) => c == 'c' && key.modifiers.intersects(CONTROL),
                _ => false,
            },
            _ => false,
        }
    }

    /// Turns `command` into scheduled work that sends its messages to
    /// `channel`, and returns without waiting for any of it.
    ///
    /// `Nothing` starts no work. `Instant` starts a task that sends the
    /// message as soon as it runs. `Single` starts a task that awaits the
    /// computation and sends its output. `Stream` starts a task that awaits
    /// one item after the other and sends each, until the sequence ends.
    ///
    /// The result is the task that was started: it sends what the command
    /// produces, and sends it to `channel`. When it sends, and what an
    /// asynchronous part yields, is decided while it runs.
    pub fn issue<M: Send + 'static>(
        handle: &Handle,
        command: Command<M>,
        channel: Arc<UnboundedSender<M>>,
    ) -> (task: Option<Task<M>>)
        ensures
            task is Some <==> command.starts_work(),
            task matches Some(started) ==> Some(started.sends()) == sends_of(command)
                && started.queue() == channel,
    {
        match command {
            Command::Nothing => None,
            Command::Instant(message) => Some(spawn(handle, deliver_message(message, channel))),
            Command::Single(computation) => Some(spawn(handle, deliver_output(computation, channel))),
            Command::Stream(sequence) => Some(spawn(handle, deliver_each(sequence, channel))),
        }
    }

    /// Starts a scheduler on `react`: makes the message queue and the quit
    /// signal, runs `init` once, and issues the command it returned. The
    /// loops start after this.
    pub fn start<R: React>(handle: &Handle, react: &mut R) -> (session: Session<R::Message>)
        ensures
            session.trigger.armed(),
            !session.watch.settled(),
            exists|issued: Command<R::Message>|
                {
                    &&& #[trigger] R::initialised(*old(react), *final(react), issued)
                    &&& session.first is Some <==> issued.starts_work()
                    &&& session.first matches Some(started) ==> Some(started.sends()) == sends_of(
                        issued,
                    ) && started.queue() == session.sender
                },
    {
        let (sender, receiver) = unbounded_channel();
        let sender = Arc::new(sender);
        let (trigger, watch) = quit_signal();
        let issued = react.init();
        let ghost witness = issued;
        let first = Self::issue(handle, issued, sender.clone());
        proof {
            assert(R::initialised(*old(react), *react, witness));
        }
        Session { sender, receiver, trigger, watch, first }
    }

    /// One step of the input loop, on what the event source returned:
    /// `None` when it has ended, an event otherwise.
    ///
    /// The quit chord raises the quit signal and is kept from the
    /// application. Every other event is handed to `handle`, once.
    pub fn on_event<R: React>(react: &mut R, trigger: &mut QuitTrigger, incoming: Option<Event>) -> (step:
        InputStep<R::Message>)
        ensures
            input_step(*old(react), incoming, *final(react), step),
            step is Quit ==> !final(trigger).armed(),
            !(step is Quit) ==> *final(trigger) == *old(trigger),
    {
        match incoming {
            None => InputStep::Closed,
            Some(event) => {
                if Self::check_if_quit(&event) {
                    trigger.fire();
                    InputStep::Quit
                } else {
                    InputStep::Handled(react.handle(event))
                }
            },
        }
    }

    /// One step of the update loop, on what the message queue returned:
    /// `None` when it is closed and drained, a message otherwise.
    ///
    /// Every message is handed to `update`, once.
    pub fn on_message<R: React>(react: &mut R, received: Option<R::Message>) -> (step: UpdateStep<
        R::Message,
    >)
        ensures
            update_step(*old(react), received, *final(react), step),
    {
        match received {
            None => UpdateStep::Closed,
            Some(message) => UpdateStep::Updated(react.update(message)),
        }
    }

    /// One step of the render loop, on what a poll of the quit signal found
    /// and on the instant at which the tick started, in nanoseconds.
    ///
    /// A raised signal ends the loop without painting. Otherwise the view is
    /// painted once, and the loop sleeps until one interval after the start
    /// of the tick. The deadline is wider than the start, so that it exists
    /// for every start and every tick rate.
    pub fn render<R: React>(&self, react: &R, polled: QuitPoll, tick_start: u64) -> (tick: Tick)
        ensures
            self.render_step(*react, polled, tick_start, tick),
    {
        match polled {
            QuitPoll::Fired => Tick::Stop,
            _ => {
                react.view(());
                let interval: u128 = (self.tick_rate as u128) * NANOS_PER_MILLI;
                Tick::Painted { deadline: (tick_start as u128) + interval }
            },
        }
    }

    /// One step of the render loop: polls the quit signal and does what
    /// `render` does on what the poll found. The poll settles the watch
    /// unless the signal is still pending, and a settled watch is found
    /// closed.
    pub fn on_tick<R: React>(&self, react: &R, watch: &mut QuitWatch, tick_start: u64) -> (tick: Tick)
        ensures
            exists|polled: QuitPoll|
                {
                    &&& #[trigger] self.render_step(*react, polled, tick_start, tick)
                    &&& old(watch).settled() ==> polled is Closed
                    &&& final(watch).settled() <==> !(polled is Pending)
                },
    {
        let polled = watch.poll();
        let tick = self.render(react, polled, tick_start);
        proof {
            assert(self.render_step(*react, polled, tick_start, tick));
        }
        tick
    }

    /// What `render` does: it stops on a raised signal, and otherwise paints
    /// and sets the deadline one interval after the start of the tick.
    pub open spec fn render_step<R: React>(self, react: R, polled: QuitPoll, tick_start: u64, tick: Tick) -> bool {
        if polled is Fired {
            tick is Stop
        } else {
            &&& tick == (Tick::Painted { deadline: self.deadline(tick_start as int) as u128 })
            &&& R::viewed(react)
        }
    }
}

/// What `Executor::on_event` does: it ends on the end of the events, keeps
/// the quit chord from the application, and has every other event handled.
pub open spec fn input_step<R: React>(
    before: R,
    incoming: Option<Event>,
    after: R,
    step: InputStep<R::Message>,
) -> bool {
    match incoming {
        None => step is Closed && after == before,
        Some(event) => if event.is_quit_chord() {
            step is Quit && after == before
        } else {
            step matches InputStep::Handled(issued) && R::handled(before, event, after, issued)
        },
    }
}

/// What `Executor::on_message` does: it ends on a closed queue, and has
/// every message applied.
pub open spec fn update_step<R: React>(
    before: R,
    received: Option<R::Message>,
    after: R,
    step: UpdateStep<R::Message>,
) -> bool {
    match received {
        None => step is Closed && after == before,
        Some(message) => step matches UpdateStep::Updated(issued) && R::updated(
            before,
            message,
            after,
            issued,
        ),
    }
}

} // verus!
