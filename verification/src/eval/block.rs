//! Blocks as the evaluator sees them, and how a block ends.

use super::command::external::{lowered, ExternalView};
use super::command::Command;
use crate::parse::copy::{copy_str, copy_strs};
use crate::parse::syntax::{
    lemma_arms_view as lemma_parse_arms, lemma_blocks_view as lemma_parse_blocks,
    opt_boxed_view as parse_opt_boxed_view, strs_view, Block as ParseBlk, BlockView as ParseBlkView,
    SpecialStr, SpecialStrView,
};
use vstd::prelude::*;

verus! {

/// A statement, ready to be evaluated.
#[derive(Debug, PartialEq, Eq)]
pub enum Block {
    Single(Command),
    Multi(Vec<Block>),
    If(SpecialStr, Box<Block>, Option<Box<Block>>),
    Case(SpecialStr, Vec<(Vec<SpecialStr>, Block)>),
    For(String, SpecialStr, Box<Block>),
    While(SpecialStr, Box<Block>),
    Proc(String, Box<Block>),
    Break,
    Continue,
}

/// How the evaluation of a block ended.
#[derive(Clone, Copy, Debug, PartialEq, Eq, Structural)]
pub enum State {
    /// It ran to its end.
    Normal,
    /// A `break` is on its way to the enclosing loop.
    Breaked,
    /// A `continue` is on its way to the enclosing loop.
    Continued,
}

/// `Block` as a mathematical value.
pub enum BlockView {
    Single(ExternalView),
    Multi(Seq<BlockView>),
    If(SpecialStrView, Box<BlockView>, Option<Box<BlockView>>),
    Case(SpecialStrView, Seq<(Seq<SpecialStrView>, BlockView)>),
    For(Seq<char>, SpecialStrView, Box<BlockView>),
    While(SpecialStrView, Box<BlockView>),
    Proc(Seq<char>, Box<BlockView>),
    Break,
    Continue,
}

/// The views of a list of blocks.
pub open spec fn blocks_view(v: Seq<Block>) -> Seq<BlockView>
    decreases v, 1nat,
{
    Seq::new(
        v.len(),
        |i: int|
            if 0 <= i < v.len() {
                v[i]@
            } else {
                BlockView::Break
            },
    )
}

/// The views of the arms of a `case`.
pub open spec fn arms_view(v: Seq<(Vec<SpecialStr>, Block)>) -> Seq<
    (Seq<SpecialStrView>, BlockView),
>
    decreases v, 1nat,
{
    Seq::new(
        v.len(),
        |i: int|
            if 0 <= i < v.len() {
                (strs_view(v[i].0@), v[i].1@)
            } else {
                (Seq::empty(), BlockView::Break)
            },
    )
}

/// The view of a block held in a box.
pub open spec fn boxed_view(b: Box<Block>) -> Box<BlockView>
    decreases b, 1nat,
{
    Box::new((*b)@)
}

/// The view of an optional block held in a box.
pub open spec fn opt_boxed_view(b: Option<Box<Block>>) -> Option<Box<BlockView>>
    decreases b, 0nat,
{
    match b {
        Some(x) => Some(boxed_view(x)),
        None => None,
    }
}

impl View for Block {
    type V = BlockView;

    open spec fn view(&self) -> BlockView
        decreases self, 0nat,
    {
        match self {
            Block::Single(c) => BlockView::Single(c@),
            Block::Multi(v) => BlockView::Multi(blocks_view(v@)),
            Block::If(c, a, b) => BlockView::If(c@, boxed_view(*a), opt_boxed_view(*b)),
            Block::Case(c, arms) => BlockView::Case(c@, arms_view(arms@)),
            Block::For(x, it, b) => BlockView::For(x@, it@, boxed_view(*b)),
            Block::While(c, b) => BlockView::While(c@, boxed_view(*b)),
            Block::Proc(n, b) => BlockView::Proc(n@, boxed_view(*b)),
            Block::Break => BlockView::Break,
            Block::Continue => BlockView::Continue,
        }
    }
}

/// The views of a list of blocks are the blocks' views, one for one.
pub proof fn lemma_blocks_view(v: Seq<Block>)
    ensures
        blocks_view(v).len() == v.len(),
        forall|i: int| 0 <= i < v.len() ==> blocks_view(v)[i] == (#[trigger] v[i])@,
{
}

/// The views of the arms of a `case` are the arms' views, one for one.
pub proof fn lemma_arms_view(v: Seq<(Vec<SpecialStr>, Block)>)
    ensures
        arms_view(v).len() == v.len(),
        forall|i: int|
            0 <= i < v.len() ==> arms_view(v)[i] == (strs_view((#[trigger] v[i]).0@), v[i].1@),
{
}

/// What a list of written blocks is to the evaluator.
pub open spec fn lowered_blocks(v: Seq<ParseBlkView>) -> Seq<BlockView>
    decreases v, 1nat,
{
    Seq::new(
        v.len(),
        |i: int|
            if 0 <= i < v.len() {
                lowered_block(v[i])
            } else {
                BlockView::Break
            },
    )
}

/// What the written arms of a `case` are to the evaluator.
pub open spec fn lowered_arms(v: Seq<(Seq<SpecialStrView>, ParseBlkView)>) -> Seq<
    (Seq<SpecialStrView>, BlockView),
>
    decreases v, 1nat,
{
    Seq::new(
        v.len(),
        |i: int|
            if 0 <= i < v.len() {
                (v[i].0, lowered_block(v[i].1))
            } else {
                (Seq::empty(), BlockView::Break)
            },
    )
}

/// What a written block is to the evaluator: the same statement, with every
/// command in it lowered.
pub open spec fn lowered_block(b: ParseBlkView) -> BlockView
    decreases b, 0nat,
{
    match b {
        ParseBlkView::Single(c) => BlockView::Single(lowered(c)),
        ParseBlkView::Multi(v) => BlockView::Multi(lowered_blocks(v)),
        ParseBlkView::If(c, a, e) => BlockView::If(
            c,
            Box::new(lowered_block(*a)),
            match e {
                Some(x) => Some(Box::new(lowered_block(*x))),
                None => None,
            },
        ),
        ParseBlkView::Case(c, arms) => BlockView::Case(c, lowered_arms(arms)),
        ParseBlkView::For(x, it, body) => BlockView::For(x, it, Box::new(lowered_block(*body))),
        ParseBlkView::While(c, body) => BlockView::While(c, Box::new(lowered_block(*body))),
        ParseBlkView::Proc(n, body) => BlockView::Proc(n, Box::new(lowered_block(*body))),
        ParseBlkView::Break => BlockView::Break,
        ParseBlkView::Continue => BlockView::Continue,
    }
}

impl Block {
    /// What the written block `block` is to the evaluator.
    pub fn from(block: ParseBlk) -> (r: Block)
        ensures
            r@ == lowered_block(block@),
    {
        Block::lower(&block)
    }

    /// What the written block `block` is to the evaluator.
    pub fn lower(block: &ParseBlk) -> (r: Block)
        ensures
            r@ == lowered_block(block@),
        decreases block,
    {
        match block {
            ParseBlk::Single(c) => Block::Single(Command(super::command::External::lower(c))),
            ParseBlk::Multi(v) => {
                let mut out: Vec<Block> = Vec::new();
                let mut i: usize = 0;
                while i < v.len()
                    invariant
                        i <= v.len(),
                        out.len() == i,
                        block is Multi,
                        block->Multi_0 == *v,
                        forall|k: int|
                            0 <= k < i ==> (#[trigger] out@[k])@ == lowered_block(v@[k]@),
                    decreases v.len() - i,
                {
                    out.push(Block::lower(&v[i]));
                    i = i + 1;
                }
                proof {
                    lemma_blocks_view(out@);
                    lemma_parse_blocks(v@);
                    assert(blocks_view(out@) =~= lowered_blocks(block@->Multi_0));
                }
                Block::Multi(out)
            },
            ParseBlk::If(c, a, e) => {
                let other = match e {
                    Some(x) => Some(Box::new(Block::lower(x))),
                    None => None,
                };
                proof {
                    assert(parse_opt_boxed_view(*e) == block@->If_2);
                    assert(opt_boxed_view(other) == lowered_block(block@)->If_2);
                }
                Block::If(copy_str(c), Box::new(Block::lower(a)), other)
            },
            ParseBlk::Case(c, arms) => {
                let mut out: Vec<(Vec<SpecialStr>, Block)> = Vec::new();
                let mut i: usize = 0;
                while i < arms.len()
                    invariant
                        i <= arms.len(),
                        out.len() == i,
                        block is Case,
                        block->Case_1 == *arms,
                        forall|k: int|
                            0 <= k < i ==> strs_view((#[trigger] out@[k]).0@) == strs_view(
                                arms@[k].0@,
                            ) && out@[k].1@ == lowered_block(arms@[k].1@),
                    decreases arms.len() - i,
                {
                    let pats = copy_strs(&arms[i].0);
                    let body = Block::lower(&arms[i].1);
                    out.push((pats, body));
                    i = i + 1;
                }
                proof {
                    lemma_arms_view(out@);
                    lemma_parse_arms(arms@);
                    assert(arms_view(out@) =~= lowered_arms(block@->Case_1));
                }
                Block::Case(copy_str(c), out)
            },
            ParseBlk::For(x, it, body) => Block::For(
                x.clone(),
                copy_str(it),
                Box::new(Block::lower(body)),
            ),
            ParseBlk::While(c, body) => Block::While(copy_str(c), Box::new(Block::lower(body))),
            ParseBlk::Proc(n, body) => Block::Proc(n.clone(), Box::new(Block::lower(body))),
            ParseBlk::Break => Block::Break,
            ParseBlk::Continue => Block::Continue,
        }
    }

    /// A copy of this block.
    pub fn copy(&self) -> (r: Block)
        ensures
            r@ == self@,
        decreases self,
    {
        match self {
            Block::Single(c) => Block::Single(c.copy()),
            Block::Multi(v) => {
                let mut out: Vec<Block> = Vec::new();
                let mut i: usize = 0;
                while i < v.len()
                    invariant
                        i <= v.len(),
                        out.len() == i,
                        self is Multi,
                        self->Multi_0 == *v,
                        forall|k: int| 0 <= k < i ==> (#[trigger] out@[k])@ == v@[k]@,
                    decreases v.len() - i,
                {
                    out.push(v[i].copy());
                    i = i + 1;
                }
                proof {
                    lemma_blocks_view(out@);
                    lemma_blocks_view(v@);
                    assert(blocks_view(out@) =~= blocks_view(v@));
                }
                Block::Multi(out)
            },
            Block::If(c, a, e) => {
                let other = match e {
                    Some(x) => Some(Box::new(x.copy())),
                    None => None,
                };
                assert(opt_boxed_view(other) == opt_boxed_view(*e));
                Block::If(copy_str(c), Box::new(a.copy()), other)
            },
            Block::Case(c, arms) => {
                let mut out: Vec<(Vec<SpecialStr>, Block)> = Vec::new();
                let mut i: usize = 0;
                while i < arms.len()
                    invariant
                        i <= arms.len(),
                        out.len() == i,
                        self is Case,
                        self->Case_1 == *arms,
                        forall|k: int|
                            0 <= k < i ==> strs_view((#[trigger] out@[k]).0@) == strs_view(
                                arms@[k].0@,
                            ) && out@[k].1@ == arms@[k].1@,
                    decreases arms.len() - i,
                {
                    let pats = copy_strs(&arms[i].0);
                    let body = arms[i].1.copy();
                    out.push((pats, body));
                    i = i + 1;
                }
                proof {
                    lemma_arms_view(out@);
                    lemma_arms_view(arms@);
                    assert(arms_view(out@) =~= arms_view(arms@));
                }
                Block::Case(copy_str(c), out)
            },
            Block::For(x, it, body) => Block::For(x.clone(), copy_str(it), Box::new(body.copy())),
            Block::While(c, body) => Block::While(copy_str(c), Box::new(body.copy())),
            Block::Proc(n, body) => Block::Proc(n.clone(), Box::new(body.copy())),
            Block::Break => Block::Break,
            Block::Continue => Block::Continue,
        }
    }
}

} // verus!
