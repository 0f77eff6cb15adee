//! Runs of the three loops and of the units of work: what follows, over a
//! whole run, from what each step does and from what each unit sends.
//!
//! A run is written down as the sequence of what a loop received and the
//! sequence of what its step function returned. The application's state is
//! shared, so between two steps of one loop another loop may change it: a
//! run records the state before and after each of its own steps.

use crate::command::Command;
use crate::event::Event;
use crate::executor::{input_step, update_step, Executor, InputStep, Tick, UpdateStep};
use crate::react::React;
use crate::signal::QuitPoll;
use crate::work::{sends_of, Sends, Task};
use vstd::prelude::*;

verus! {

/// A record of the input loop: on `events[i]`, with the application in
/// `before[i]`, the step returned `steps[i]` and left the application in
/// `after[i]`. The loop goes on after a handled event only, so every step
/// but the last handled its event.
pub open spec fn input_run<R: React>(
    before: Seq<R>,
    events: Seq<Event>,
    after: Seq<R>,
    steps: Seq<InputStep<R::Message>>,
) -> bool {
    &&& before.len() == events.len()
    &&& after.len() == events.len()
    &&& steps.len() == events.len()
    &&& forall|i: int|
        0 <= i < events.len() ==> #[trigger] input_step(
            before[i],
            Some(events[i]),
            after[i],
            steps[i],
        )
    &&& forall|i: int| 0 <= i < steps.len() - 1 ==> #[trigger] steps[i] is Handled
}

/// A record of the update loop: on `messages[i]`, with the application in
/// `before[i]`, the step returned `steps[i]` and left the application in
/// `after[i]`.
pub open spec fn update_run<R: React>(
    before: Seq<R>,
    messages: Seq<R::Message>,
    after: Seq<R>,
    steps: Seq<UpdateStep<R::Message>>,
) -> bool {
    &&& before.len() == messages.len()
    &&& after.len() == messages.len()
    &&& steps.len() == messages.len()
    &&& forall|i: int|
        0 <= i < messages.len() ==> #[trigger] update_step(
            before[i],
            Some(messages[i]),
            after[i],
            steps[i],
        )
}

/// A record of the render loop: tick `i` started at `starts[i]`, found
/// `polls[i]` with the application in `states[i]`, and returned `ticks[i]`.
/// The loop goes on after a painted tick only, so every tick but the last
/// was painted.
pub open spec fn render_run<R: React>(
    executor: Executor,
    states: Seq<R>,
    polls: Seq<QuitPoll>,
    starts: Seq<u64>,
    ticks: Seq<Tick>,
) -> bool {
    &&& states.len() == ticks.len()
    &&& polls.len() == ticks.len()
    &&& starts.len() == ticks.len()
    &&& forall|i: int|
        0 <= i < ticks.len() ==> #[trigger] executor.render_step(
            states[i],
            polls[i],
            starts[i],
            ticks[i],
        )
    &&& forall|i: int| 0 <= i < ticks.len() - 1 ==> #[trigger] ticks[i] is Painted
}

/// The render loop slept through every deadline: each tick but the first
/// started no earlier than the deadline that the tick before it set.
pub open spec fn slept_until_deadlines(starts: Seq<u64>, ticks: Seq<Tick>) -> bool {
    forall|i: int|
        0 <= i < ticks.len() - 1 ==> (#[trigger] ticks[i] matches Tick::Painted { deadline }
            ==> starts[i + 1] >= deadline)
}

/// The render loop woke exactly at every deadline: each tick but the first
/// started at the deadline that the tick before it set.
pub open spec fn woke_at_deadlines(starts: Seq<u64>, ticks: Seq<Tick>) -> bool {
    forall|i: int|
        0 <= i < ticks.len() - 1 ==> (#[trigger] ticks[i] matches Tick::Painted { deadline }
            ==> starts[i + 1] == deadline)
}

/// Events other than the quit chord are each handled exactly once, in the
/// order in which they arrived: the step on the `i`-th event is one call of
/// `handle` with that event, and its command is what the step returns.
pub proof fn lemma_events_handled_in_order<R: React>(
    before: Seq<R>,
    events: Seq<Event>,
    after: Seq<R>,
    steps: Seq<InputStep<R::Message>>,
)
    requires
        input_run(before, events, after, steps),
        forall|i: int| 0 <= i < events.len() ==> !(#[trigger] events[i]).is_quit_chord(),
    ensures
        forall|i: int|
            0 <= i < events.len() ==> (#[trigger] steps[i] matches InputStep::Handled(issued)
                && R::handled(before[i], events[i], after[i], issued)),
{
    assert forall|i: int| 0 <= i < events.len() implies (#[trigger] steps[i] matches InputStep::Handled(
        issued,
    ) && R::handled(before[i], events[i], after[i], issued)) by {
        assert(input_step(before[i], Some(events[i]), after[i], steps[i]));
        assert(!events[i].is_quit_chord());
    }
}

/// The quit chord never reaches the application: the step on it leaves the
/// application's state as it was and is the last of the input loop, so
/// that no event after the chord is handled either.
pub proof fn lemma_quit_chord_bypasses_application<R: React>(
    before: Seq<R>,
    events: Seq<Event>,
    after: Seq<R>,
    steps: Seq<InputStep<R::Message>>,
    i: int,
)
    requires
        input_run(before, events, after, steps),
        0 <= i < events.len(),
        events[i].is_quit_chord(),
    ensures
        steps[i] is Quit,
        after[i] == before[i],
        i == events.len() - 1,
{
    assert(input_step(before[i], Some(events[i]), after[i], steps[i]));
    if i < steps.len() - 1 {
        assert(steps[i] is Handled);
    }
}

/// Messages taken from the queue are each applied exactly once, in the order
/// in which they were taken: the step on the `i`-th message is one call of
/// `update` with that message, and its command is what the step returns.
pub proof fn lemma_messages_applied_in_order<R: React>(
    before: Seq<R>,
    messages: Seq<R::Message>,
    after: Seq<R>,
    steps: Seq<UpdateStep<R::Message>>,
)
    requires
        update_run(before, messages, after, steps),
    ensures
        forall|i: int|
            0 <= i < messages.len() ==> (#[trigger] steps[i] matches UpdateStep::Updated(issued)
                && R::updated(before[i], messages[i], after[i], issued)),
{
    assert forall|i: int| 0 <= i < messages.len() implies (
    #[trigger] steps[i] matches UpdateStep::Updated(issued) && R::updated(
        before[i],
        messages[i],
        after[i],
        issued,
    )) by {
        assert(update_step(before[i], Some(messages[i]), after[i], steps[i]));
    }
}

/// Once the render loop has seen the quit signal, it has made its last
/// tick: that tick stops without painting, and no tick follows it.
pub proof fn lemma_quit_ends_rendering<R: React>(
    executor: Executor,
    states: Seq<R>,
    polls: Seq<QuitPoll>,
    starts: Seq<u64>,
    ticks: Seq<Tick>,
    i: int,
)
    requires
        render_run(executor, states, polls, starts, ticks),
        0 <= i < ticks.len(),
        polls[i] is Fired,
    ensures
        ticks[i] is Stop,
        i == ticks.len() - 1,
{
    assert(executor.render_step(states[i], polls[i], starts[i], ticks[i]));
    if i < ticks.len() - 1 {
        assert(ticks[i] is Painted);
    }
}

/// Every tick but the last paints, and sets its deadline one interval after
/// its own start.
pub proof fn lemma_deadline_anchored_at_tick_start<R: React>(
    executor: Executor,
    states: Seq<R>,
    polls: Seq<QuitPoll>,
    starts: Seq<u64>,
    ticks: Seq<Tick>,
    i: int,
)
    requires
        render_run(executor, states, polls, starts, ticks),
        0 <= i < ticks.len() - 1,
    ensures
        ticks[i] == (Tick::Painted { deadline: executor.deadline(starts[i] as int) as u128 }),
        executor.deadline(starts[i] as int) <= u128::MAX,
        R::viewed(states[i]),
{
    assert(executor.render_step(states[i], polls[i], starts[i], ticks[i]));
    assert(ticks[i] is Painted);
    executor.lemma_deadline_fits(starts[i]);
}

/// Render ticks are never closer than one interval: in a loop that sleeps
/// through its deadlines, tick `n` starts at least `n` intervals after the
/// first tick.
pub proof fn lemma_ticks_at_least_interval_apart<R: React>(
    executor: Executor,
    states: Seq<R>,
    polls: Seq<QuitPoll>,
    starts: Seq<u64>,
    ticks: Seq<Tick>,
    n: int,
)
    requires
        render_run(executor, states, polls, starts, ticks),
        slept_until_deadlines(starts, ticks),
        0 <= n < ticks.len(),
    ensures
        n > 0 ==> starts[n] >= starts[n - 1] + executor.interval(),
        starts[n] >= starts[0] + n * executor.interval(),
    decreases n,
{
    let interval = executor.interval();
    if n > 0 {
        lemma_ticks_at_least_interval_apart(executor, states, polls, starts, ticks, n - 1);
        lemma_deadline_anchored_at_tick_start(executor, states, polls, starts, ticks, n - 1);
        assert(ticks[n - 1] is Painted);
        assert(starts[n] >= starts[n - 1] + interval);
        assert((n - 1) * interval + interval == n * interval) by (nonlinear_arith);
    } else {
        assert(0 * interval == 0);
    }
}

/// Rendering does not drift: in a loop that wakes exactly at its deadlines,
/// tick `n` starts exactly `n` intervals after the first tick, however long
/// the painting of the ticks before it took.
pub proof fn lemma_no_cumulative_drift<R: React>(
    executor: Executor,
    states: Seq<R>,
    polls: Seq<QuitPoll>,
    starts: Seq<u64>,
    ticks: Seq<Tick>,
    n: int,
)
    requires
        render_run(executor, states, polls, starts, ticks),
        woke_at_deadlines(starts, ticks),
        0 <= n < ticks.len(),
    ensures
        starts[n] == starts[0] + n * executor.interval(),
    decreases n,
{
    let interval = executor.interval();
    if n > 0 {
        lemma_no_cumulative_drift(executor, states, polls, starts, ticks, n - 1);
        lemma_deadline_anchored_at_tick_start(executor, states, polls, starts, ticks, n - 1);
        assert(ticks[n - 1] is Painted);
        assert(starts[n] == starts[n - 1] + interval);
        assert((n - 1) * interval + interval == n * interval) by (nonlinear_arith);
    } else {
        assert(0 * interval == 0);
    }
}

/// Quit halts rendering within one interval: if the quit signal is raised
/// at `raised`, during tick `i`, and the loop wakes at the deadline of that
/// tick and sees the signal, then it stops there, no more than one interval
/// after the signal was raised, and has painted nothing since.
pub proof fn lemma_quit_halts_within_interval<R: React>(
    executor: Executor,
    states: Seq<R>,
    polls: Seq<QuitPoll>,
    starts: Seq<u64>,
    ticks: Seq<Tick>,
    i: int,
    raised: int,
)
    requires
        render_run(executor, states, polls, starts, ticks),
        woke_at_deadlines(starts, ticks),
        0 <= i < ticks.len() - 1,
        starts[i] <= raised <= starts[i + 1],
        polls[i + 1] is Fired,
    ensures
        ticks[i + 1] is Stop,
        i + 1 == ticks.len() - 1,
        starts[i + 1] - raised <= executor.interval(),
{
    lemma_quit_ends_rendering(executor, states, polls, starts, ticks, i + 1);
    lemma_deadline_anchored_at_tick_start(executor, states, polls, starts, ticks, i);
    assert(ticks[i] is Painted);
}

/// A queue has taken the messages of two producers: `queue` holds the
/// messages of `left` and of `right` and no others, each producer's in the
/// order in which that producer sent them. How the two mix is open.
pub open spec fn interleaves<M>(queue: Seq<M>, left: Seq<M>, right: Seq<M>) -> bool
    decreases queue.len(),
{
    if queue.len() == 0 {
        left.len() == 0 && right.len() == 0
    } else {
        ||| left.len() > 0 && left[0] == queue[0] && interleaves(
            queue.drop_first(),
            left.drop_first(),
            right,
        )
        ||| right.len() > 0 && right[0] == queue[0] && interleaves(
            queue.drop_first(),
            left,
            right.drop_first(),
        )
    }
}

/// `places` puts the messages of one producer into `queue` in their order:
/// message `i` stands at `places[i]`, and a later message stands further
/// back.
pub open spec fn placed_in_order<M>(queue: Seq<M>, sent: Seq<M>, places: Seq<int>) -> bool {
    &&& places.len() == sent.len()
    &&& forall|i: int|
        0 <= i < sent.len() ==> 0 <= #[trigger] places[i] < queue.len() && queue[places[i]]
            == sent[i]
    &&& forall|i: int, j: int|
        0 <= i < j < sent.len() ==> #[trigger] places[i] < #[trigger] places[j]
}

/// Issuing a command delivers what the command produces. The task that
/// `Executor::issue` starts for `command` sends nothing but this: the
/// message of an `Instant`, once; the output of a `Single`, once; the items
/// of a `Stream`, each once and in the order in which the sequence yielded
/// them. The empty command starts no task at all.
pub proof fn lemma_task_sends_what_its_command_produces<M>(
    command: Command<M>,
    task: Option<Task<M>>,
    yielded: Seq<M>,
)
    requires
        task is Some <==> command.starts_work(),
        task matches Some(started) ==> Some(started.sends()) == sends_of(command),
        task matches Some(started) ==> started.sends().may_yield(yielded),
    ensures
        command is Nothing ==> task is None,
        command matches Command::Instant(message) ==> (task matches Some(started)
            && started.sends().messages(yielded) == seq![message]),
        command is Single ==> (task matches Some(started) && started.sends().messages(yielded)
            == seq![yielded[0]]),
        command is Stream ==> (task matches Some(started) && started.sends().messages(yielded)
            == yielded),
{
    if command is Single {
        assert(yielded =~= seq![yielded[0]]);
    }
}

/// From a stream to the application: where a task sends the items of a
/// sequence and the update loop takes exactly these from the queue, in the
/// order in which they were sent, every item is applied once, in the order
/// in which the sequence yielded it.
pub proof fn lemma_stream_items_applied_in_order<R: React>(
    task: Task<R::Message>,
    items: Seq<R::Message>,
    before: Seq<R>,
    after: Seq<R>,
    steps: Seq<UpdateStep<R::Message>>,
)
    requires
        task.sends() is ItemsOf,
        update_run(before, task.sends().messages(items), after, steps),
    ensures
        steps.len() == items.len(),
        forall|i: int|
            0 <= i < items.len() ==> (#[trigger] steps[i] matches UpdateStep::Updated(issued)
                && R::updated(before[i], items[i], after[i], issued)),
{
    lemma_messages_applied_in_order(before, items, after, steps);
}

/// The order in which two producers mix is of no account to either:
/// `interleaves` holds with the producers exchanged.
pub proof fn lemma_interleaves_either_way<M>(queue: Seq<M>, left: Seq<M>, right: Seq<M>)
    requires
        interleaves(queue, left, right),
    ensures
        interleaves(queue, right, left),
    decreases queue.len(),
{
    if queue.len() > 0 {
        if left.len() > 0 && left[0] == queue[0] && interleaves(
            queue.drop_first(),
            left.drop_first(),
            right,
        ) {
            lemma_interleaves_either_way(queue.drop_first(), left.drop_first(), right);
        } else {
            lemma_interleaves_either_way(queue.drop_first(), left, right.drop_first());
        }
    }
}

/// Every producer keeps its own order in the queue: the queue holds as many
/// messages as the two producers sent, and the messages of `left` stand in
/// it in the order in which `left` sent them. The result gives the place of
/// each.
pub proof fn lemma_producer_keeps_its_order<M>(queue: Seq<M>, left: Seq<M>, right: Seq<M>) -> (places:
    Seq<int>)
    requires
        interleaves(queue, left, right),
    ensures
        queue.len() == left.len() + right.len(),
        placed_in_order(queue, left, places),
    decreases queue.len(),
{
    if queue.len() == 0 {
        Seq::empty()
    } else {
        let rest = queue.drop_first();
        if left.len() > 0 && left[0] == queue[0] && interleaves(rest, left.drop_first(), right) {
            let tail = lemma_producer_keeps_its_order(rest, left.drop_first(), right);
            let places = Seq::new(
                left.len(),
                |i: int|
                    if i == 0 {
                        0
                    } else {
                        tail[i - 1] + 1
                    },
            );
            assert forall|i: int| 0 <= i < left.len() implies 0 <= #[trigger] places[i]
                < queue.len() && queue[places[i]] == left[i] by {
                if i > 0 {
                    assert(0 <= tail[i - 1] < rest.len());
                    assert(rest[tail[i - 1]] == left.drop_first()[i - 1]);
                }
            }
            assert forall|i: int, j: int| 0 <= i < j < left.len() implies #[trigger] places[i]
                < #[trigger] places[j] by {
                assert(0 <= tail[j - 1]);
                if i > 0 {
                    assert(tail[i - 1] < tail[j - 1]);
                }
            }
            places
        } else {
            let tail = lemma_producer_keeps_its_order(rest, left, right.drop_first());
            let places = Seq::new(left.len(), |i: int| tail[i] + 1);
            assert forall|i: int| 0 <= i < left.len() implies 0 <= #[trigger] places[i]
                < queue.len() && queue[places[i]] == left[i] by {
                assert(0 <= tail[i] < rest.len());
                assert(rest[tail[i]] == left[i]);
            }
            assert forall|i: int, j: int| 0 <= i < j < left.len() implies #[trigger] places[i]
                < #[trigger] places[j] by {
                assert(tail[i] < tail[j]);
            }
            places
        }
    }
}

/// A stream and an instant on one queue: where one task sends the items of
/// a sequence and another sends one message, the queue holds the items and
/// the message and nothing else, the items stand in the order in which the
/// sequence yielded them, and the message stands at one place among them.
/// The result gives the places of the items and the place of the message.
pub proof fn lemma_stream_and_instant_keep_their_order<M>(
    stream: Task<M>,
    items: Seq<M>,
    instant: Task<M>,
    message: M,
    queue: Seq<M>,
) -> (places: (Seq<int>, int))
    requires
        stream.sends() is ItemsOf,
        instant.sends() == Sends::Message(message),
        interleaves(
            queue,
            stream.sends().messages(items),
            instant.sends().messages(Seq::empty()),
        ),
    ensures
        queue.len() == items.len() + 1,
        placed_in_order(queue, items, places.0),
        0 <= places.1 < queue.len(),
        queue[places.1] == message,
{
    let sent = seq![message];
    let of_items = lemma_producer_keeps_its_order(queue, items, sent);
    lemma_interleaves_either_way(queue, items, sent);
    let of_message = lemma_producer_keeps_its_order(queue, sent, items);
    assert(sent[0] == message);
    (of_items, of_message[0])
}

} // verus!
