//! The parser: each function reads what the function of the same name in
//! the grammar describes, and gives what that function gives.

use super::grammar::{
    arg as arg_of, args_from, arrow_end, at, bare_from, command as command_of, doubled, flushed,
    interp as interp_of, is_bare, lit_block as lit_block_of, lit_from, raw_block as raw_block_of,
    red_kind as red_kind_of, red_target as red_target_of, redirect as redirect_of,
    special as special_of, tail as tail_of, Class,
};
use super::lexical::{
    advances, agree, escape, is_at, lit_body, proceeds, raw_body, run_end, spaces, spaces_line,
    starts, Step,
};
use super::outside::unindent;
use super::syntax::{
    args_view, kinds_view, lemma_args_view, lemma_kinds_view, pipe_view, Arg, Command, RedKind,
    RedTarget, Redirect, SpecialStr, StrKind,
};
use crate::text::{char_is_space, chars_of, digits_value, is_digit, string_of};
use vstd::prelude::*;

verus! {

proof fn lemma_kinds_push(v: Seq<StrKind>, x: StrKind)
    ensures
        kinds_view(v.push(x)) == kinds_view(v).push(x@),
{
    lemma_kinds_view(v);
    lemma_kinds_view(v.push(x));
    assert(kinds_view(v.push(x)) =~= kinds_view(v).push(x@));
}

proof fn lemma_args_push(v: Seq<Arg>, x: Arg)
    ensures
        args_view(v.push(x)) == args_view(v).push(x@),
{
    lemma_args_view(v);
    lemma_args_view(v.push(x));
    assert(args_view(v.push(x)) =~= args_view(v).push(x@));
}

/// The number that the digits `s[from..to]` spell, if it is at most
/// 4294967295.
fn number(s: &Vec<char>, from: usize, to: usize) -> (r: Option<usize>)
    requires
        from <= to <= s.len(),
        forall|k: int| from <= k < to ==> is_digit(s@[k]),
    ensures
        r == if digits_value(s@.subrange(from as int, to as int)) <= 0xffff_ffff {
            Some(digits_value(s@.subrange(from as int, to as int)) as usize)
        } else {
            None
        },
{
    let ghost run = s@.subrange(from as int, to as int);
    let mut acc: u64 = 0;
    let mut over: bool = false;
    let mut k = from;
    assert(run.take(0) =~= Seq::empty());
    while k < to
        invariant
            from <= k <= to <= s.len(),
            run == s@.subrange(from as int, to as int),
            forall|n: int| from <= n < to ==> is_digit(s@[n]),
            !over ==> acc == digits_value(run.take(k - from)) && acc <= 0xffff_ffff,
            over ==> digits_value(run.take(k - from)) > 0xffff_ffff,
        decreases to - k,
    {
        proof {
            assert(run.take(k - from + 1).drop_last() =~= run.take(k - from));
            assert(run.take(k - from + 1).last() == s@[k as int]);
        }
        let c = s[k];
        let d: u64 = (c as u32 - '0' as u32) as u64;
        if !over {
            let next: u64 = acc * 10 + d;
            if next > 0xffff_ffff {
                over = true;
            } else {
                acc = next;
            }
        }
        k = k + 1;
    }
    assert(run.take(k - from) =~= run);
    if over {
        None
    } else {
        Some(acc as usize)
    }
}

/// What is embedded at `i`.
pub fn interp(s: &Vec<char>, i: usize) -> (r: Step<StrKind>)
    requires
        i <= s.len(),
    ensures
        agree(r, interp_of(s@, i as int), |k: StrKind| k@),
        advances(r, i as int, s@.len() as int),
    decreases s.len() - i, 0nat,
{
    if i >= s.len() {
        return Step::Miss;
    }
    let c = s[i];
    if c == '$' {
        if is_at(s, i + 1, '{') {
            let j = run_end(s, i + 2, Class::Braced);
            if j > i + 2 && is_at(s, j, '}') {
                Step::Done(StrKind::Var(string_of(s, i + 2, j)), j + 1)
            } else {
                Step::Fail(j)
            }
        } else {
            let j = run_end(s, i + 1, Class::Plain);
            if j > i + 1 {
                Step::Done(StrKind::Var(string_of(s, i + 1, j)), j)
            } else {
                Step::Fail(i + 1)
            }
        }
    } else if c == '(' {
        match Command::parse(s, i + 1) {
            Step::Done(cmd, j) => if is_at(s, j, ')') {
                Step::Done(StrKind::Cmd(cmd), j + 1)
            } else {
                Step::Fail(j)
            },
            Step::Miss => Step::Fail(i + 1),
            Step::Fail(p) => Step::Fail(p),
        }
    } else if c == '%' && i + 1 < s.len() && '0' <= s[i + 1] && s[i + 1] <= '9' {
        let j = run_end(s, i + 1, Class::Digit);
        match number(s, i + 1, j) {
            Some(n) => Step::Done(StrKind::Pid(n), j),
            None => Step::Fail(i),
        }
    } else {
        Step::Miss
    }
}

/// Whether `c` can stand in a bare word.
fn bare_char(c: char) -> (r: bool)
    ensures
        r == is_bare(c),
{
    !char_is_space(c) && c != '#' && c != '|' && c != '&' && c != ';' && c != '$' && c != '{' && c
        != '}' && c != '(' && c != ')'
}

/// The fragments of the bare word at `i`.
pub fn bare(s: &Vec<char>, i: usize) -> (r: Step<Vec<StrKind>>)
    requires
        i <= s.len(),
    ensures
        agree(
            r,
            bare_from(s@, i as int, Seq::empty(), Seq::empty()),
            |v: Vec<StrKind>| kinds_view(v@),
        ),
        advances(r, i as int, s@.len() as int),
    decreases s.len() - i, 1nat,
{
    let mut parts: Vec<StrKind> = Vec::new();
    let mut run = String::new();
    let mut some: bool = false;
    let mut k = i;
    proof {
        lemma_kinds_view(parts@);
        assert(kinds_view(parts@) =~= Seq::empty());
    }
    loop
        invariant
            i <= k <= s.len(),
            some == (run@.len() > 0),
            k == i <==> (parts@.len() == 0 && !some),
            bare_from(s@, i as int, Seq::empty(), Seq::empty()) == bare_from(
                s@,
                k as int,
                kinds_view(parts@),
                run@,
            ),
        decreases s.len() - k,
    {
        let ghost before = kinds_view(parts@);
        let ghost text = run@;
        let step = if k < s.len() {
            interp(s, k)
        } else {
            Step::Miss
        };
        match step {
            Step::Done(x, j) => {
                if some {
                    proof {
                        lemma_kinds_push(parts@, StrKind::String(run));
                    }
                    parts.push(StrKind::String(run));
                    run = String::new();
                    some = false;
                }
                proof {
                    lemma_kinds_push(parts@, x);
                    assert(run@ =~= Seq::<char>::empty());
                }
                parts.push(x);
                proof {
                    assert(kinds_view(parts@) == flushed(before, text).push(x@));
                    assert(bare_from(s@, k as int, before, text) == bare_from(
                        s@,
                        j as int,
                        kinds_view(parts@),
                        run@,
                    ));
                }
                k = j;
            },
            Step::Fail(p) => {
                return Step::Fail(p);
            },
            Step::Miss => {
                if k < s.len() && bare_char(s[k]) {
                    run.push(s[k]);
                    some = true;
                    proof {
                        assert(bare_from(s@, k as int, before, text) == bare_from(
                            s@,
                            k + 1,
                            kinds_view(parts@),
                            run@,
                        ));
                    }
                    k = k + 1;
                } else {
                    if some {
                        proof {
                            lemma_kinds_push(parts@, StrKind::String(run));
                        }
                        parts.push(StrKind::String(run));
                    }
                    proof {
                        lemma_kinds_view(parts@);
                    }
                    if parts.len() == 0 {
                        return Step::Miss;
                    }
                    return Step::Done(parts, k);
                }
            },
        }
    }
}

/// The fragments of the body `b` of a literal; `None` where the body is
/// not well formed.
pub fn lit_parts(b: &Vec<char>) -> (r: Option<Vec<StrKind>>)
    ensures
        match lit_from(b@, 0, Seq::empty(), Seq::empty()) {
            Some(p) => r matches Some(v) && kinds_view(v@) == p,
            None => r is None,
        },
    decreases b.len(), 1nat,
{
    let mut parts: Vec<StrKind> = Vec::new();
    let mut run = String::new();
    let mut some: bool = false;
    let mut k: usize = 0;
    proof {
        lemma_kinds_view(parts@);
        assert(kinds_view(parts@) =~= Seq::empty());
    }
    while k < b.len()
        invariant
            k <= b.len(),
            some == (run@.len() > 0),
            lit_from(b@, 0, Seq::empty(), Seq::empty()) == lit_from(
                b@,
                k as int,
                kinds_view(parts@),
                run@,
            ),
        decreases b.len() - k,
    {
        match interp(b, k) {
            Step::Done(x, j) => {
                if some {
                    proof {
                        lemma_kinds_push(parts@, StrKind::String(run));
                    }
                    parts.push(StrKind::String(run));
                    run = String::new();
                    some = false;
                }
                proof {
                    lemma_kinds_push(parts@, x);
                    assert(run@ =~= Seq::<char>::empty());
                }
                parts.push(x);
                k = j;
            },
            Step::Fail(_) => {
                return None;
            },
            Step::Miss => {
                let c = b[k];
                if c == '$' || c == '(' {
                    return None;
                } else if c == '\\' {
                    match escape(b, k + 1) {
                        Some((ch, j)) => {
                            run.push(ch);
                            some = true;
                            k = j;
                        },
                        None => {
                            return None;
                        },
                    }
                } else {
                    run.push(c);
                    some = true;
                    k = k + 1;
                }
            },
        }
    }
    if some {
        proof {
            lemma_kinds_push(parts@, StrKind::String(run));
        }
        parts.push(StrKind::String(run));
    }
    Some(parts)
}

fn quotes(c: char, n: usize) -> (r: Vec<char>)
    requires
        n == 2 || n == 3,
    ensures
        r@ == if n == 2 {
            seq![c, c]
        } else {
            seq![c, c, c]
        },
{
    let mut v: Vec<char> = Vec::new();
    v.push(c);
    v.push(c);
    if n == 3 {
        v.push(c);
        assert(v@ =~= seq![c, c, c]);
    } else {
        assert(v@ =~= seq![c, c]);
    }
    v
}

/// A raw string in three quotes at `i`, if one stands there whole.
pub fn raw_block(s: &Vec<char>, i: usize) -> (r: Option<(String, usize)>)
    requires
        i <= s.len(),
    ensures
        match raw_block_of(s@, i as int) {
            Some((t, n)) => r matches Some((u, m)) && u@ == t && m == n && i < m <= s.len(),
            None => r is None,
        },
{
    if !starts(s, i, &quotes('\'', 3)) {
        return None;
    }
    match raw_body(s, i + 3) {
        Step::Done(b, j) => {
            if starts(s, j, &quotes('\'', 2)) {
                Some((unindent(b.as_str()), j + 2))
            } else {
                None
            }
        },
        _ => None,
    }
}

/// A literal in three quotes at `i`, if one stands there whole and well
/// formed.
pub fn lit_block(s: &Vec<char>, i: usize) -> (r: Option<(Vec<StrKind>, usize)>)
    requires
        i <= s.len(),
    ensures
        match lit_block_of(s@, i as int) {
            Some((p, n)) => r matches Some((v, m)) && kinds_view(v@) == p && m == n && i < m
                <= s.len(),
            None => r is None,
        },
    decreases s.len() - i, 2nat,
{
    if !starts(s, i, &quotes('"', 3)) {
        return None;
    }
    match lit_body(s, i + 3) {
        Step::Done(b, j) => {
            if !starts(s, j, &quotes('"', 3)) {
                return None;
            }
            let text = string_of(&b, 0, b.len());
            assert(b@.subrange(0, b@.len() as int) =~= b@);
            let u = chars_of(unindent(text.as_str()).as_str());
            if u.len() >= s.len() - i {
                return None;
            }
            match lit_parts(&u) {
                Some(parts) => Some((parts, j + 3)),
                None => None,
            }
        },
        _ => None,
    }
}

impl SpecialStr {
    /// The special string at `i`.
    pub fn parse(s: &Vec<char>, i: usize) -> (r: Step<SpecialStr>)
        requires
            i <= s.len(),
        ensures
            agree(r, special_of(s@, i as int), |t: SpecialStr| t@),
            advances(r, i as int, s@.len() as int),
        decreases s.len() - i, 3nat,
    {
        match raw_block(s, i) {
            Some((t, j)) => {
                return Step::Done(SpecialStr::from(t), j);
            },
            None => {},
        }
        if is_at(s, i, '\'') {
            return match raw_body(s, i + 1) {
                Step::Done(b, j) => Step::Done(SpecialStr::from(b), j),
                Step::Fail(p) => Step::Fail(p),
                Step::Miss => Step::Fail(i),
            };
        }
        match lit_block(s, i) {
            Some((parts, j)) => {
                return Step::Done(SpecialStr(parts), j);
            },
            None => {},
        }
        if is_at(s, i, '"') {
            return match lit_body(s, i + 1) {
                Step::Done(b, j) => {
                    match lit_parts(&b) {
                        Some(parts) => Step::Done(SpecialStr(parts), j + 1),
                        None => Step::Fail(i),
                    }
                },
                Step::Fail(p) => Step::Fail(p),
                Step::Miss => Step::Fail(i),
            };
        }
        match bare(s, i) {
            Step::Done(parts, j) => Step::Done(SpecialStr(parts), j),
            Step::Fail(p) => Step::Fail(p),
            Step::Miss => Step::Miss,
        }
    }
}

/// The kind of `>` or `>>` at `i`, where `>` stands.
fn arrow(s: &Vec<char>, i: usize, once: RedKind, twice: RedKind) -> (r: (RedKind, usize))
    requires
        i < s.len(),
    ensures
        r.0 == if doubled(s@, i as int) {
            twice
        } else {
            once
        },
        r.1 == arrow_end(s@, i as int),
        i < r.1 <= s.len(),
{
    if is_at(s, i + 1, '>') {
        (twice, i + 2)
    } else {
        (once, i + 1)
    }
}

impl RedKind {
    /// The kind of redirection written at `i`, if one is.
    pub fn parse(s: &Vec<char>, i: usize) -> (r: Option<(RedKind, usize)>)
        requires
            i <= s.len(),
        ensures
            r == match red_kind_of(s@, i as int) {
                Some((k, n)) => Some((k, n as usize)),
                None => None,
            },
            r matches Some((_, n)) ==> i < n <= s.len(),
    {
        if i >= s.len() {
            return None;
        }
        let c = s[i];
        if (c == '1' || c == '-' || c == 'o') && is_at(s, i + 1, '>') {
            Some(arrow(s, i + 1, RedKind::OverwriteStdout, RedKind::AppendStdout))
        } else if (c == '2' || c == '=' || c == 'e') && is_at(s, i + 1, '>') {
            Some(arrow(s, i + 1, RedKind::OverwriteStderr, RedKind::AppendStderr))
        } else if c == '&' && is_at(s, i + 1, '>') {
            Some(arrow(s, i + 1, RedKind::OverwriteBoth, RedKind::AppendBoth))
        } else if c == '<' {
            if i + 1 < s.len() && (s[i + 1] == '<' || s[i + 1] == '-' || s[i + 1] == '=' || s[i + 1]
                == 'h') {
                Some((RedKind::HereDoc, i + 2))
            } else {
                Some((RedKind::Stdin, i + 1))
            }
        } else if c == '>' {
            Some(arrow(s, i, RedKind::OverwriteStdout, RedKind::AppendStdout))
        } else {
            None
        }
    }
}

impl RedTarget {
    /// The target of a redirection at `i`.
    pub fn parse(s: &Vec<char>, i: usize) -> (r: Option<(RedTarget, usize)>)
        requires
            i <= s.len(),
        ensures
            match red_target_of(s@, i as int) {
                Some((t, n)) => r matches Some((u, m)) && u@ == t && m == n && i < m <= s.len(),
                None => r is None,
            },
        decreases s.len() - i, 4nat,
    {
        if is_at(s, i, '&') {
            if is_at(s, i + 1, '0') {
                Some((RedTarget::Stdin, i + 2))
            } else if is_at(s, i + 1, '1') {
                Some((RedTarget::Stdout, i + 2))
            } else if is_at(s, i + 1, '2') {
                Some((RedTarget::Stderr, i + 2))
            } else if is_at(s, i + 1, '!') {
                Some((RedTarget::Null, i + 2))
            } else {
                None
            }
        } else {
            match SpecialStr::parse(s, i) {
                Step::Done(t, j) => Some((RedTarget::Other(t), j)),
                _ => None,
            }
        }
    }
}

impl Redirect {
    /// The redirection at `i`, if one stands there whole.
    pub fn parse(s: &Vec<char>, i: usize) -> (r: Option<(Redirect, usize)>)
        requires
            i <= s.len(),
        ensures
            match redirect_of(s@, i as int) {
                Some((t, n)) => r matches Some((u, m)) && u@ == t && m == n && i < m <= s.len(),
                None => r is None,
            },
        decreases s.len() - i, 5nat,
    {
        match RedKind::parse(s, i) {
            Some((kind, j)) => {
                let k = spaces(s, j);
                match RedTarget::parse(s, k) {
                    Some((target, e)) => Some((Redirect { kind, target }, e)),
                    None => None,
                }
            },
            None => None,
        }
    }
}

impl Arg {
    /// The word at `i` after a command's name.
    pub fn parse(s: &Vec<char>, i: usize) -> (r: Step<Arg>)
        requires
            i <= s.len(),
        ensures
            agree(r, arg_of(s@, i as int), |a: Arg| a@),
            advances(r, i as int, s@.len() as int),
        decreases s.len() - i, 6nat,
    {
        match Redirect::parse(s, i) {
            Some((x, j)) => {
                return Step::Done(Arg::Redirect(x), j);
            },
            None => {},
        }
        if is_at(s, i, '!') {
            match SpecialStr::parse(s, i + 1) {
                Step::Done(t, j) => Step::Done(Arg::ExpandArg(t), j),
                Step::Miss => Step::Fail(i + 1),
                Step::Fail(p) => Step::Fail(p),
            }
        } else {
            match SpecialStr::parse(s, i) {
                Step::Done(t, j) => Step::Done(Arg::Arg(t), j),
                Step::Miss => Step::Miss,
                Step::Fail(p) => Step::Fail(p),
            }
        }
    }
}

/// The words from `i` on, with blanks between them.
pub fn args(s: &Vec<char>, i: usize) -> (r: Step<Vec<Arg>>)
    requires
        i <= s.len(),
    ensures
        agree(r, args_from(s@, i as int, Seq::empty()), |v: Vec<Arg>| args_view(v@)),
        proceeds(r, i as int, s@.len() as int),
        !(r is Miss),
    decreases s.len() - i, 7nat,
{
    let mut acc: Vec<Arg> = Vec::new();
    let mut k = i;
    proof {
        lemma_args_view(acc@);
        assert(args_view(acc@) =~= Seq::empty());
    }
    loop
        invariant
            i <= k <= s.len(),
            args_from(s@, i as int, Seq::empty()) == args_from(s@, k as int, args_view(acc@)),
        decreases s.len() - k,
    {
        match Arg::parse(s, k) {
            Step::Done(a, j) => {
                proof {
                    lemma_args_push(acc@, a);
                }
                acc.push(a);
                k = spaces(s, j);
            },
            Step::Miss => {
                return Step::Done(acc, k);
            },
            Step::Fail(p) => {
                return Step::Fail(p);
            },
        }
    }
}

/// The end of a command: `&` after blanks makes it a background command.
fn tail(
    s: &Vec<char>,
    i: usize,
    name: SpecialStr,
    args: Vec<Arg>,
    pipe: Option<Box<Command>>,
) -> (r: Step<Command>)
    requires
        i <= s.len(),
    ensures
        agree(r, tail_of(s@, i as int, name@, args_view(args@), pipe_view(pipe)), |c: Command| c@),
        r matches Step::Done(_, n) && i <= n <= s.len(),
{
    let k = spaces(s, i);
    if is_at(s, k, '&') {
        Step::Done(Command { name, args, pipe, bg: true }, spaces(s, k + 1))
    } else {
        Step::Done(Command { name, args, pipe, bg: false }, i)
    }
}

impl Command {
    /// The command at `i`.
    pub fn parse(s: &Vec<char>, i: usize) -> (r: Step<Command>)
        requires
            i <= s.len(),
        ensures
            agree(r, command_of(s@, i as int), |c: Command| c@),
            proceeds(r, i as int, s@.len() as int),
        decreases s.len() - i, 8nat,
    {
        let j = spaces_line(s, i);
        if j >= s.len() {
            return Step::Done(Command::empty(), j);
        }
        match SpecialStr::parse(s, j) {
            Step::Miss => if j == i {
                Step::Miss
            } else {
                Step::Fail(j)
            },
            Step::Fail(p) => Step::Fail(p),
            Step::Done(name, k0) => {
                let k = spaces(s, k0);
                match args(s, k) {
                    Step::Miss => Step::Fail(k),
                    Step::Fail(p) => Step::Fail(p),
                    Step::Done(list, k1) => {
                        if is_at(s, k1, '|') {
                            match Command::parse(s, k1 + 1) {
                                Step::Miss => Step::Fail(k1 + 1),
                                Step::Fail(p) => Step::Fail(p),
                                Step::Done(c, k2) => tail(s, k2, name, list, Some(Box::new(c))),
                            }
                        } else {
                            tail(s, k1, name, list, None)
                        }
                    },
                }
            },
        }
    }
}

} // verus!
