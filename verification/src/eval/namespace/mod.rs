//! The namespace: scoped variables and the procedures of the session.

pub mod procs;
pub mod vars;

pub use procs::Procs;
pub use vars::{Vars, VarsView};

use crate::eval::block::{Block, BlockView};
use crate::text::texts;
use vstd::prelude::*;

verus! {

/// What a namespace is, as mathematical values.
pub struct NameSpaceView {
    pub vars: VarsView,
    pub procs: Map<Seq<char>, BlockView>,
}

/// The variables and the procedures of a session.
#[derive(Debug)]
pub struct NameSpace {
    vars: Vars,
    procs: Procs,
}

impl View for NameSpace {
    type V = NameSpaceView;

    closed spec fn view(&self) -> NameSpaceView {
        NameSpaceView { vars: self.vars@, procs: self.procs@ }
    }
}

impl NameSpace {
    /// No variable, no procedure, no open scope.
    pub fn new() -> (r: NameSpace)
        ensures
            r@.vars.env == Map::<Seq<char>, Seq<char>>::empty(),
            r@.vars.keys == Seq::<Seq<char>>::empty(),
            r@.vars.offsets == Seq::<nat>::empty(),
            r@.procs == Map::<Seq<char>, BlockView>::empty(),
    {
        NameSpace { vars: Vars::new(), procs: Procs::new() }
    }

    /// Sets the variables that hold a call's arguments: `#` the number of
    /// arguments, `0` the name, `1` and so on the arguments, `@` the
    /// arguments joined by blanks.
    pub fn set_args(&mut self, name: &str, args: &Vec<String>)
        ensures
            final(self)@.vars == old(self)@.vars.with_args(name@, texts(args@)),
            final(self)@.procs == old(self)@.procs,
    {
        self.vars.set_args(name, args);
    }

    /// Sets a variable for the innermost open scope.
    pub fn push_var(&mut self, key: &str, value: &str)
        ensures
            final(self)@.vars == old(self)@.vars.pushed(key@, value@),
            final(self)@.procs == old(self)@.procs,
    {
        self.vars.push(key, value);
    }

    /// Sets a variable for good.
    pub fn push_gvar(&mut self, key: &str, value: &str)
        ensures
            final(self)@.vars == old(self)@.vars.gpushed(key@, value@),
            final(self)@.procs == old(self)@.procs,
    {
        self.vars.gpush(key, value);
    }

    /// Defines a procedure.
    pub fn push_proc(&mut self, name: String, block: Block)
        ensures
            final(self)@.procs == old(self)@.procs.insert(name@, block@),
            final(self)@.vars == old(self)@.vars,
    {
        self.procs.push(name, block);
    }

    /// A copy of the block of the procedure `name`, if it is defined.
    pub fn get_proc(&self, name: &str) -> (r: Option<Block>)
        ensures
            r matches Some(b) ==> self@.procs.contains_key(name@) && b@ == self@.procs[name@],
            r is None ==> !self@.procs.contains_key(name@),
    {
        self.procs.get(name)
    }

    /// The value of the variable `key`, if it is set.
    pub fn get_var(&self, key: &str) -> (r: Option<String>)
        ensures
            r matches Some(v) ==> self@.vars.env.contains_key(key@) && v@ == self@.vars.env[key@],
            r is None ==> !self@.vars.env.contains_key(key@),
    {
        self.vars.get(key)
    }

    /// Opens a scope.
    pub fn mark(&mut self)
        ensures
            final(self)@.vars == old(self)@.vars.marked(),
            final(self)@.procs == old(self)@.procs,
    {
        self.vars.mark();
    }

    /// Closes the innermost scope.
    pub fn drop(&mut self)
        ensures
            final(self)@.vars == old(self)@.vars.dropped(),
            final(self)@.procs == old(self)@.procs,
    {
        self.vars.drop();
    }

    /// How many scopes are open.
    pub fn depth(&self) -> (r: usize)
        ensures
            r == self@.vars.depth(),
            self@.vars.wf(),
    {
        self.vars.depth()
    }

    /// The variables.
    pub fn vars(&self) -> (r: &Vars)
        ensures
            r@ == self@.vars,
    {
        &self.vars
    }
}

} // verus!
