//! Commands as the evaluator sees them.

pub mod builtin;
pub mod external;
pub mod redirect;

pub use builtin::{Builtin, BuiltinError, BuiltinKind};
pub use external::{Arg, Args, External, ExternalView};
pub use redirect::{
    InMode, InWire, OutMode, OutWire, RedIn, RedOut, RedirectError, Redirects, RedirectsInner,
    Wiring,
};

use crate::parse::syntax::Command as ParseCmd;
use external::lowered;
use vstd::prelude::*;

verus! {

/// A command, ready to be evaluated.
#[derive(Debug, PartialEq, Eq)]
pub struct Command(pub External);

impl View for Command {
    type V = ExternalView;

    open spec fn view(&self) -> ExternalView {
        self.0@
    }
}

impl Command {
    /// What the written command `cmd` is to the evaluator.
    pub fn from(cmd: ParseCmd) -> (r: Command)
        ensures
            r@ == lowered(cmd@),
    {
        Command(External::from(cmd))
    }

    /// A copy of this command.
    pub fn copy(&self) -> (r: Command)
        ensures
            r@ == self@,
    {
        Command(self.0.copy())
    }
}

} // verus!
