//! The evaluator, as a machine that the host drives step by step.
//!
//! The machine decides; the host acts. Each step takes what the host has to
//! tell and gives back what the host is to do next: spawn a program, wait
//! for the foreground process, and the like. Between two steps the machine
//! holds, as a stack of frames, all the work that waits.

pub mod state;
pub mod step;
pub mod laws;
pub mod semantics;
pub mod types;

pub use state::Machine;
pub use types::{Action, EvalError, Event, Input, Message, Output, Stage};
