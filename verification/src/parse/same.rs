//! Equality of syntax trees, decided on the trees and stated on their views.

use super::syntax::{
    lemma_args_view, lemma_kinds_view, pipe_view, Arg, Command, RedTarget, Redirect, SpecialStr,
    StrKind,
};
use vstd::prelude::*;

verus! {

/// Whether two fragments are the same.
pub fn same_kind(a: &StrKind, b: &StrKind) -> (r: bool)
    ensures
        r == (a@ == b@),
    decreases a, 0nat,
{
    match (a, b) {
        (StrKind::String(x), StrKind::String(y)) => *x == *y,
        (StrKind::Var(x), StrKind::Var(y)) => *x == *y,
        (StrKind::Cmd(x), StrKind::Cmd(y)) => same_command(x, y),
        (StrKind::Pid(x), StrKind::Pid(y)) => *x == *y,
        _ => false,
    }
}

/// Whether two special strings are the same.
pub fn same_str(a: &SpecialStr, b: &SpecialStr) -> (r: bool)
    ensures
        r == (a@ == b@),
    decreases a, 1nat,
{
    proof {
        lemma_kinds_view(a.0@);
        lemma_kinds_view(b.0@);
    }
    if a.0.len() != b.0.len() {
        return false;
    }
    let mut i: usize = 0;
    while i < a.0.len()
        invariant
            i <= a.0.len(),
            a.0.len() == b.0.len(),
            forall|k: int| 0 <= k < i ==> a.0@[k]@ == b.0@[k]@,
        decreases a.0.len() - i,
    {
        if !same_kind(&a.0[i], &b.0[i]) {
            proof {
                lemma_kinds_view(a.0@);
                lemma_kinds_view(b.0@);
                assert(a@.parts[i as int] != b@.parts[i as int]);
            }
            return false;
        }
        i = i + 1;
    }
    proof {
        assert(a@.parts =~= b@.parts);
    }
    true
}

/// Whether two targets are the same.
pub fn same_target(a: &RedTarget, b: &RedTarget) -> (r: bool)
    ensures
        r == (a@ == b@),
    decreases a, 2nat,
{
    match (a, b) {
        (RedTarget::Stdin, RedTarget::Stdin) => true,
        (RedTarget::Stdout, RedTarget::Stdout) => true,
        (RedTarget::Stderr, RedTarget::Stderr) => true,
        (RedTarget::Null, RedTarget::Null) => true,
        (RedTarget::Other(x), RedTarget::Other(y)) => same_str(x, y),
        _ => false,
    }
}

/// Whether two redirections are the same.
pub fn same_redirect(a: &Redirect, b: &Redirect) -> (r: bool)
    ensures
        r == (a@ == b@),
    decreases a, 3nat,
{
    a.kind == b.kind && same_target(&a.target, &b.target)
}

/// Whether two arguments are the same.
pub fn same_arg(a: &Arg, b: &Arg) -> (r: bool)
    ensures
        r == (a@ == b@),
    decreases a, 4nat,
{
    match (a, b) {
        (Arg::ExpandArg(x), Arg::ExpandArg(y)) => same_str(x, y),
        (Arg::Arg(x), Arg::Arg(y)) => same_str(x, y),
        (Arg::Redirect(x), Arg::Redirect(y)) => same_redirect(x, y),
        _ => false,
    }
}

/// Whether two commands are the same.
pub fn same_command(a: &Command, b: &Command) -> (r: bool)
    ensures
        r == (a@ == b@),
    decreases a, 5nat,
{
    proof {
        lemma_args_view(a.args@);
        lemma_args_view(b.args@);
    }
    if a.bg != b.bg {
        return false;
    }
    if !same_str(&a.name, &b.name) {
        return false;
    }
    if a.args.len() != b.args.len() {
        return false;
    }
    let mut i: usize = 0;
    while i < a.args.len()
        invariant
            i <= a.args.len(),
            a.args.len() == b.args.len(),
            forall|k: int| 0 <= k < i ==> a.args@[k]@ == b.args@[k]@,
        decreases a.args.len() - i,
    {
        if !same_arg(&a.args[i], &b.args[i]) {
            proof {
                lemma_args_view(a.args@);
                lemma_args_view(b.args@);
                assert(a@.args[i as int] != b@.args[i as int]);
            }
            return false;
        }
        i = i + 1;
    }
    proof {
        assert(a@.args =~= b@.args);
    }
    match (&a.pipe, &b.pipe) {
        (Some(x), Some(y)) => {
            let r = same_command(x, y);
            assert(pipe_view(a.pipe) == pipe_view(b.pipe) <==> r);
            r
        },
        (None, None) => true,
        _ => false,
    }
}

} // verus!
