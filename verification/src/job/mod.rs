//! Job control: processes, what became of them, and the table that maps
//! job ids to processes, with slot 0 kept for the foreground.

pub mod jobs;
pub mod process;
pub mod status;
pub mod sys;

pub use jobs::{Jobs, Notice, Waited};
pub use process::Process;
pub use status::{JobError, Signal, Status};
