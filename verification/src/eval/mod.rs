//! Evaluation: from syntax trees to what is to be run.

pub mod block;
pub mod command;
pub mod machine;
pub mod namespace;

pub use block::{Block, BlockView, State};
pub use command::{Args, Command, External, Redirects};
pub use namespace::NameSpace;
