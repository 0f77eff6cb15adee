//! The names an application needs to implement and run a state machine.

pub use crate::command::Command;
pub use crate::event::{Event, KeyCode, KeyEvent, KeyModifiers};
pub use crate::executor::Executor;
pub use crate::react::React;
