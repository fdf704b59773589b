//! Copies of syntax trees: a tree and its copy have the same view.

use super::syntax::{
    arms_view, blocks_view, lemma_args_view, lemma_arms_view, lemma_blocks_view, lemma_kinds_view,
    opt_boxed_view, strs_view, Arg, Block, Command, RedTarget, Redirect, SpecialStr, StrKind,
};
use vstd::prelude::*;

verus! {

/// A copy of a fragment.
pub fn copy_kind(k: &StrKind) -> (r: StrKind)
    ensures
        r@ == k@,
    decreases k, 0nat,
{
    match k {
        StrKind::String(s) => StrKind::String(s.clone()),
        StrKind::Var(s) => StrKind::Var(s.clone()),
        StrKind::Cmd(c) => StrKind::Cmd(copy_command(c)),
        StrKind::Pid(n) => StrKind::Pid(*n),
    }
}

/// A copy of a special string.
pub fn copy_str(s: &SpecialStr) -> (r: SpecialStr)
    ensures
        r@ == s@,
    decreases s, 1nat,
{
    let mut out: Vec<StrKind> = Vec::new();
    let mut i: usize = 0;
    while i < s.0.len()
        invariant
            i <= s.0.len(),
            out.len() == i,
            forall|k: int| 0 <= k < i ==> (#[trigger] out@[k])@ == s.0@[k]@,
        decreases s.0.len() - i,
    {
        out.push(copy_kind(&s.0[i]));
        i = i + 1;
    }
    let r = SpecialStr(out);
    proof {
        lemma_kinds_view(r.0@);
        lemma_kinds_view(s.0@);
        assert(r@.parts =~= s@.parts);
    }
    r
}

/// A copy of a redirection's target.
pub fn copy_target(t: &RedTarget) -> (r: RedTarget)
    ensures
        r@ == t@,
    decreases t, 2nat,
{
    match t {
        RedTarget::Stdin => RedTarget::Stdin,
        RedTarget::Stdout => RedTarget::Stdout,
        RedTarget::Stderr => RedTarget::Stderr,
        RedTarget::Null => RedTarget::Null,
        RedTarget::Other(s) => RedTarget::Other(copy_str(s)),
    }
}

/// A copy of a redirection.
pub fn copy_redirect(x: &Redirect) -> (r: Redirect)
    ensures
        r@ == x@,
    decreases x, 3nat,
{
    Redirect { kind: x.kind, target: copy_target(&x.target) }
}

/// A copy of an argument.
pub fn copy_arg(a: &Arg) -> (r: Arg)
    ensures
        r@ == a@,
    decreases a, 4nat,
{
    match a {
        Arg::ExpandArg(s) => Arg::ExpandArg(copy_str(s)),
        Arg::Arg(s) => Arg::Arg(copy_str(s)),
        Arg::Redirect(x) => Arg::Redirect(copy_redirect(x)),
    }
}

/// A copy of a command.
pub fn copy_command(c: &Command) -> (r: Command)
    ensures
        r@ == c@,
    decreases c, 5nat,
{
    let name = copy_str(&c.name);
    let mut args: Vec<Arg> = Vec::new();
    let mut i: usize = 0;
    while i < c.args.len()
        invariant
            i <= c.args.len(),
            args.len() == i,
            forall|k: int| 0 <= k < i ==> (#[trigger] args@[k])@ == c.args@[k]@,
        decreases c.args.len() - i,
    {
        args.push(copy_arg(&c.args[i]));
        i = i + 1;
    }
    let pipe = match &c.pipe {
        Some(p) => Some(Box::new(copy_command(p))),
        None => None,
    };
    let r = Command { name, args, pipe, bg: c.bg };
    proof {
        lemma_args_view(r.args@);
        lemma_args_view(c.args@);
        assert(r@.args =~= c@.args);
    }
    r
}

/// A copy of a list of special strings.
pub fn copy_strs(v: &Vec<SpecialStr>) -> (r: Vec<SpecialStr>)
    ensures
        strs_view(r@) == strs_view(v@),
{
    let mut out: Vec<SpecialStr> = Vec::new();
    let mut i: usize = 0;
    while i < v.len()
        invariant
            i <= v.len(),
            out.len() == i,
            forall|k: int| 0 <= k < i ==> (#[trigger] out@[k])@ == v@[k]@,
        decreases v.len() - i,
    {
        out.push(copy_str(&v[i]));
        i = i + 1;
    }
    assert(strs_view(out@) =~= strs_view(v@));
    out
}

/// A copy of a block.
pub fn copy_block(b: &Block) -> (r: Block)
    ensures
        r@ == b@,
    decreases b,
{
    match b {
        Block::Single(c) => Block::Single(copy_command(c)),
        Block::Multi(v) => {
            let mut out: Vec<Block> = Vec::new();
            let mut i: usize = 0;
            while i < v.len()
                invariant
                    i <= v.len(),
                    out.len() == i,
                    b is Multi,
                    b->Multi_0 == *v,
                    forall|k: int| 0 <= k < i ==> (#[trigger] out@[k])@ == v@[k]@,
                decreases v.len() - i,
            {
                out.push(copy_block(&v[i]));
                i = i + 1;
            }
            proof {
                lemma_blocks_view(out@);
                lemma_blocks_view(v@);
                assert(blocks_view(out@) =~= blocks_view(v@));
            }
            Block::Multi(out)
        },
        Block::If(c, a, e) => {
            let other = match e {
                Some(x) => Some(Box::new(copy_block(x))),
                None => None,
            };
            assert(opt_boxed_view(other) == opt_boxed_view(*e));
            Block::If(copy_str(c), Box::new(copy_block(a)), other)
        },
        Block::Case(c, arms) => {
            let mut out: Vec<(Vec<SpecialStr>, Block)> = Vec::new();
            let mut i: usize = 0;
            while i < arms.len()
                invariant
                    i <= arms.len(),
                    out.len() == i,
                    b is Case,
                    b->Case_1 == *arms,
                    forall|k: int|
                        0 <= k < i ==> strs_view((#[trigger] out@[k]).0@) == strs_view(
                            arms@[k].0@,
                        ) && out@[k].1@ == arms@[k].1@,
                decreases arms.len() - i,
            {
                let pats = copy_strs(&arms[i].0);
                let body = copy_block(&arms[i].1);
                out.push((pats, body));
                i = i + 1;
            }
            proof {
                lemma_arms_view(out@);
                lemma_arms_view(arms@);
                assert(arms_view(out@) =~= arms_view(arms@));
            }
            Block::Case(copy_str(c), out)
        },
        Block::For(x, it, body) => Block::For(x.clone(), copy_str(it), Box::new(copy_block(body))),
        Block::While(c, body) => Block::While(copy_str(c), Box::new(copy_block(body))),
        Block::Proc(n, body) => Block::Proc(n.clone(), Box::new(copy_block(body))),
        Block::Break => Block::Break,
        Block::Continue => Block::Continue,
    }
}

impl Clone for SpecialStr {
    fn clone(&self) -> (r: SpecialStr)
        ensures
            r@ == self@,
    {
        copy_str(self)
    }
}

impl Clone for Command {
    fn clone(&self) -> (r: Command)
        ensures
            r@ == self@,
    {
        copy_command(self)
    }
}

impl Clone for Redirect {
    fn clone(&self) -> (r: Redirect)
        ensures
            r@ == self@,
    {
        copy_redirect(self)
    }
}

impl Clone for Block {
    fn clone(&self) -> (r: Block)
        ensures
            r@ == self@,
    {
        copy_block(self)
    }
}

} // verus!
