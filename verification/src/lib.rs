//! A reactive execution engine for interactive terminal applications.
//!
//! An application is a state machine with four operations: `init` seeds it,
//! `handle` takes an input event, `update` takes a message, `view` paints.
//! The first three may return a [`command::Command`], which the scheduler
//! turns into work that produces further messages.
//!
//! Three loops drive the one instance of the application's state: the input
//! loop, the update loop and the render loop. Each of their steps takes the
//! state by reference, so no two of them ever run on it at once. The waiting
//! between the steps belongs to the program around this library; the steps,
//! and what follows from them over a whole run, are here.

pub mod command;
pub mod event;
pub mod executor;
pub mod prelude;
pub mod queue;
pub mod react;
pub mod runs;
pub mod signal;
pub mod work;
