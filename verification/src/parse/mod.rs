//! The command language: its syntax tree, its grammar, and its parser.

pub mod blocks;
pub mod copy;
pub mod grammar;
pub mod lexical;
pub mod line;
pub mod outside;
pub mod parser;
pub mod same;
pub mod syntax;

pub use line::{parse_line, ParseError, Parsed};
pub use syntax::{
    Arg, ArgView, Block, BlockView, Command, CommandView, RedKind, RedTarget, RedTargetView,
    Redirect, RedirectView, SpecialStr, SpecialStrView, StrKind, StrKindView,
};
