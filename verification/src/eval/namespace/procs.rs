//! The procedures of the session: names mapped to the blocks that they run.
//! Procedures are not scoped: one defined anywhere stays until the session
//! ends or the name is defined again.

use crate::dict::Dict;
use crate::eval::block::{Block, BlockView};
use vstd::prelude::*;

verus! {

/// The procedures that a dictionary of blocks stands for.
pub open spec fn procs_of(m: Map<Seq<char>, Block>) -> Map<Seq<char>, BlockView> {
    Map::new(|k: Seq<char>| m.contains_key(k), |k: Seq<char>| m[k]@)
}

/// The table of procedures.
#[derive(Debug)]
pub struct Procs(Dict<Block>);

impl View for Procs {
    type V = Map<Seq<char>, BlockView>;

    closed spec fn view(&self) -> Map<Seq<char>, BlockView> {
        procs_of(self.0@)
    }
}

impl Procs {
    /// No procedure.
    pub fn new() -> (r: Procs)
        ensures
            r@ == Map::<Seq<char>, BlockView>::empty(),
    {
        let r = Procs(Dict::new());
        assert(r@ =~= Map::<Seq<char>, BlockView>::empty());
        r
    }

    /// Defines the procedure `name` as `block`, in place of an earlier
    /// definition.
    pub fn push(&mut self, name: String, block: Block)
        ensures
            final(self)@ == old(self)@.insert(name@, block@),
    {
        self.0.insert(name, block);
        assert(self@ =~= old(self)@.insert(name@, block@));
    }

    /// A copy of the block of the procedure `name`, if it is defined.
    pub fn get(&self, name: &str) -> (r: Option<Block>)
        ensures
            r matches Some(b) ==> self@.contains_key(name@) && b@ == self@[name@],
            r is None ==> !self@.contains_key(name@),
    {
        match self.0.get(name) {
            Some(b) => Some(b.copy()),
            None => None,
        }
    }
}

} // verus!
