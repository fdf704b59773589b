//! A small job-control shell as a library: the parser of its command
//! language, the planner that turns redirections into descriptor wiring,
//! the scoped namespace, the evaluator as a resumable machine, and the job
//! table with its signal-driven transitions.
//!
//! Everything here is pure or goes through a handful of thin system calls;
//! spawning children, opening files, reading lines and printing belong to
//! the program that embeds the library.

pub mod dict;
pub mod eval;
pub mod job;
pub mod parse;
pub mod session;
pub mod text;
