//! The parser of blocks: statements and the control flow around them.

use super::grammar::{
    arms_from, at, block as block_of, case_at as case_of, cond_body as cond_body_of,
    for_at as for_of, if_at as if_of, lines_from, multi as multi_of, pats_from, proc_at as proc_of,
    proc_head as proc_head_of, while_at as while_of, word_arrow, word_break, word_case,
    word_continue, word_else, word_for, word_if, word_in, word_while, Class,
};
use super::lexical::{advances, agree, is_at, proceeds, run_end, spaces, spaces_line, starts, Step};
use super::syntax::{
    arms_view, blocks_view, lemma_arms_view, lemma_blocks_view, opt_boxed_view, strs_view, Block,
    BlockView, Command, SpecialStr,
};
use crate::text::string_of;
use vstd::prelude::*;

verus! {

proof fn lemma_blocks_push(v: Seq<Block>, x: Block)
    ensures
        blocks_view(v.push(x)) == blocks_view(v).push(x@),
{
    lemma_blocks_view(v);
    lemma_blocks_view(v.push(x));
    assert(blocks_view(v.push(x)) =~= blocks_view(v).push(x@));
}

proof fn lemma_arms_push(v: Seq<(Vec<SpecialStr>, Block)>, x: (Vec<SpecialStr>, Block))
    ensures
        arms_view(v.push(x)) == arms_view(v).push((strs_view(x.0@), x.1@)),
{
    lemma_arms_view(v);
    lemma_arms_view(v.push(x));
    assert(arms_view(v.push(x)) =~= arms_view(v).push((strs_view(x.0@), x.1@)));
}

fn kw_arrow() -> (r: Vec<char>)
    ensures
        r@ == word_arrow(),
        r@.len() == 2,
{
    let mut v: Vec<char> = Vec::new();
    v.push('=');
    v.push('>');
    proof {
        reveal(word_arrow);
        assert(v@ =~= seq!['=', '>']);
    }
    v
}

fn kw_in() -> (r: Vec<char>)
    ensures
        r@ == word_in(),
        r@.len() == 2,
{
    let mut v: Vec<char> = Vec::new();
    v.push('i');
    v.push('n');
    proof {
        reveal(word_in);
        assert(v@ =~= seq!['i', 'n']);
    }
    v
}

fn kw_else() -> (r: Vec<char>)
    ensures
        r@ == word_else(),
        r@.len() == 4,
{
    let mut v: Vec<char> = Vec::new();
    v.push('e');
    v.push('l');
    v.push('s');
    v.push('e');
    proof {
        reveal(word_else);
        assert(v@ =~= seq!['e', 'l', 's', 'e']);
    }
    v
}

fn kw_break() -> (r: Vec<char>)
    ensures
        r@ == word_break(),
        r@.len() == 5,
{
    let mut v: Vec<char> = Vec::new();
    v.push('b');
    v.push('r');
    v.push('e');
    v.push('a');
    v.push('k');
    proof {
        reveal(word_break);
        assert(v@ =~= seq!['b', 'r', 'e', 'a', 'k']);
    }
    v
}

fn kw_continue() -> (r: Vec<char>)
    ensures
        r@ == word_continue(),
        r@.len() == 8,
{
    let mut v: Vec<char> = Vec::new();
    v.push('c');
    v.push('o');
    v.push('n');
    v.push('t');
    v.push('i');
    v.push('n');
    v.push('u');
    v.push('e');
    proof {
        reveal(word_continue);
        assert(v@ =~= seq!['c', 'o', 'n', 't', 'i', 'n', 'u', 'e']);
    }
    v
}

fn kw_while() -> (r: Vec<char>)
    ensures
        r@ == word_while(),
        r@.len() == 5,
{
    let mut v: Vec<char> = Vec::new();
    v.push('w');
    v.push('h');
    v.push('i');
    v.push('l');
    v.push('e');
    proof {
        reveal(word_while);
        assert(v@ =~= seq!['w', 'h', 'i', 'l', 'e']);
    }
    v
}

fn kw_for() -> (r: Vec<char>)
    ensures
        r@ == word_for(),
        r@.len() == 3,
{
    let mut v: Vec<char> = Vec::new();
    v.push('f');
    v.push('o');
    v.push('r');
    proof {
        reveal(word_for);
        assert(v@ =~= seq!['f', 'o', 'r']);
    }
    v
}

fn kw_case() -> (r: Vec<char>)
    ensures
        r@ == word_case(),
        r@.len() == 4,
{
    let mut v: Vec<char> = Vec::new();
    v.push('c');
    v.push('a');
    v.push('s');
    v.push('e');
    proof {
        reveal(word_case);
        assert(v@ =~= seq!['c', 'a', 's', 'e']);
    }
    v
}

fn kw_if() -> (r: Vec<char>)
    ensures
        r@ == word_if(),
        r@.len() == 2,
{
    let mut v: Vec<char> = Vec::new();
    v.push('i');
    v.push('f');
    proof {
        reveal(word_if);
        assert(v@ =~= seq!['i', 'f']);
    }
    v
}

/// The patterns of an arm of a `case` from `i` on, with `|` between them.
pub fn pats(s: &Vec<char>, i: usize) -> (r: Step<Vec<SpecialStr>>)
    requires
        i <= s.len(),
    ensures
        agree(r, pats_from(s@, i as int, Seq::empty()), |v: Vec<SpecialStr>| strs_view(v@)),
        proceeds(r, i as int, s@.len() as int),
        !(r is Miss),
{
    let mut acc: Vec<SpecialStr> = Vec::new();
    let mut k = i;
    assert(strs_view(acc@) =~= Seq::empty());
    loop
        invariant
            i <= k <= s.len(),
            pats_from(s@, i as int, Seq::empty()) == pats_from(s@, k as int, strs_view(acc@)),
        decreases s.len() - k,
    {
        match SpecialStr::parse(s, k) {
            Step::Done(p, j) => {
                let ghost before = strs_view(acc@);
                acc.push(p);
                assert(strs_view(acc@) =~= before.push(p@));
                let n = spaces_line(s, j);
                if is_at(s, n, '|') {
                    k = spaces_line(s, n + 1);
                } else {
                    return Step::Done(acc, n);
                }
            },
            Step::Miss => {
                if acc.len() == 0 {
                    return Step::Done(acc, k);
                }
                return Step::Fail(k);
            },
            Step::Fail(p) => {
                return Step::Fail(p);
            },
        }
    }
}

/// The arms of a `case` from `i` on, up to the closing `}`.
pub fn arms(s: &Vec<char>, i: usize) -> (r: Step<Vec<(Vec<SpecialStr>, Block)>>)
    requires
        i <= s.len(),
    ensures
        agree(
            r,
            arms_from(s@, i as int, Seq::empty()),
            |v: Vec<(Vec<SpecialStr>, Block)>| arms_view(v@),
        ),
        advances(r, i as int, s@.len() as int),
        !(r is Miss),
    decreases s.len() - i, 13nat,
{
    let mut acc: Vec<(Vec<SpecialStr>, Block)> = Vec::new();
    let mut k = i;
    proof {
        lemma_arms_view(acc@);
        assert(arms_view(acc@) =~= Seq::empty());
    }
    loop
        invariant
            i <= k <= s.len(),
            arms_from(s@, i as int, Seq::empty()) == arms_from(s@, k as int, arms_view(acc@)),
        decreases s.len() - k,
    {
        if is_at(s, k, '}') {
            return Step::Done(acc, k + 1);
        }
        match pats(s, k) {
            Step::Miss => {
                return Step::Fail(k);
            },
            Step::Fail(p) => {
                return Step::Fail(p);
            },
            Step::Done(list, j) => {
                if !starts(s, j, &kw_arrow()) {
                    return Step::Fail(j);
                }
                match Block::parse(s, j + 2) {
                    Step::Miss => {
                        return Step::Fail(j + 2);
                    },
                    Step::Fail(p) => {
                        return Step::Fail(p);
                    },
                    Step::Done(b, e) => {
                        proof {
                            lemma_arms_push(acc@, (list, b));
                        }
                        acc.push((list, b));
                        k = spaces_line(s, e);
                    },
                }
            },
        }
    }
}

/// The lines of a block in braces from `i` on, up to the closing `}`.
pub fn lines(s: &Vec<char>, i: usize) -> (r: Step<Vec<Block>>)
    requires
        i <= s.len(),
    ensures
        agree(r, lines_from(s@, i as int, Seq::empty()), |v: Vec<Block>| blocks_view(v@)),
        advances(r, i as int, s@.len() as int),
        !(r is Miss),
    decreases s.len() - i, 12nat,
{
    let mut acc: Vec<Block> = Vec::new();
    let mut k = i;
    proof {
        lemma_blocks_view(acc@);
        assert(blocks_view(acc@) =~= Seq::empty());
    }
    loop
        invariant
            i <= k <= s.len(),
            lines_from(s@, i as int, Seq::empty()) == lines_from(s@, k as int, blocks_view(acc@)),
        decreases s.len() - k,
    {
        if is_at(s, k, '}') {
            return Step::Done(acc, k + 1);
        }
        match Block::parse(s, k) {
            Step::Miss => {
                return Step::Fail(k);
            },
            Step::Fail(p) => {
                return Step::Fail(p);
            },
            Step::Done(b, e) => {
                proof {
                    lemma_blocks_push(acc@, b);
                }
                acc.push(b);
                let j = spaces(s, e);
                if is_at(s, j, '\n') || is_at(s, j, ';') {
                    k = spaces_line(s, j + 1);
                } else if is_at(s, j, '}') {
                    return Step::Done(acc, j + 1);
                } else {
                    return Step::Fail(j);
                }
            },
        }
    }
}

/// The block in braces at `i`, where `{` stands.
pub fn multi(s: &Vec<char>, i: usize) -> (r: Step<Vec<Block>>)
    requires
        i <= s.len(),
    ensures
        agree(r, multi_of(s@, i as int), |v: Vec<Block>| blocks_view(v@)),
        advances(r, i as int, s@.len() as int),
        r is Miss <==> !at(s@, i as int, '{'),
    decreases s.len() - i, 10nat,
{
    if !is_at(s, i, '{') {
        return Step::Miss;
    }
    let n = spaces_line(s, i + 1);
    lines(s, n)
}

/// A condition and a body from `i` on.
pub fn cond_body(s: &Vec<char>, i: usize) -> (r: Step<(SpecialStr, Block)>)
    requires
        i <= s.len(),
    ensures
        agree(r, cond_body_of(s@, i as int), |p: (SpecialStr, Block)| (p.0@, p.1@)),
        advances(r, i as int, s@.len() as int),
        !(r is Miss),
    decreases s.len() - i, 14nat,
{
    let j = spaces_line(s, i);
    match SpecialStr::parse(s, j) {
        Step::Miss => Step::Fail(j),
        Step::Fail(p) => Step::Fail(p),
        Step::Done(c, k) => match Block::parse(s, k) {
            Step::Miss => Step::Fail(k),
            Step::Fail(p) => Step::Fail(p),
            Step::Done(b, e) => Step::Done((c, b), e),
        },
    }
}

/// A `while` from `i` on, after the word.
pub fn while_at(s: &Vec<char>, i: usize) -> (r: Step<Block>)
    requires
        i <= s.len(),
    ensures
        agree(r, while_of(s@, i as int), |b: Block| b@),
        advances(r, i as int, s@.len() as int),
        !(r is Miss),
    decreases s.len() - i, 15nat,
{
    match cond_body(s, i) {
        Step::Done((c, b), e) => Step::Done(Block::While(c, Box::new(b)), e),
        Step::Miss => Step::Fail(i),
        Step::Fail(p) => Step::Fail(p),
    }
}

/// A `for` from `i` on, after the word.
pub fn for_at(s: &Vec<char>, i: usize) -> (r: Step<Block>)
    requires
        i <= s.len(),
    ensures
        agree(r, for_of(s@, i as int), |b: Block| b@),
        advances(r, i as int, s@.len() as int),
        !(r is Miss),
    decreases s.len() - i, 15nat,
{
    let a = spaces_line(s, i);
    let z = run_end(s, a, Class::Word);
    let w = spaces_line(s, z);
    if z <= a {
        return Step::Fail(a);
    }
    if !starts(s, w, &kw_in()) {
        return Step::Fail(w);
    }
    match cond_body(s, w + 2) {
        Step::Done((c, b), e) => Step::Done(Block::For(string_of(s, a, z), c, Box::new(b)), e),
        Step::Miss => Step::Fail(w + 2),
        Step::Fail(p) => Step::Fail(p),
    }
}

/// A `case` from `i` on, after the word.
pub fn case_at(s: &Vec<char>, i: usize) -> (r: Step<Block>)
    requires
        i <= s.len(),
    ensures
        agree(r, case_of(s@, i as int), |b: Block| b@),
        advances(r, i as int, s@.len() as int),
        !(r is Miss),
    decreases s.len() - i, 15nat,
{
    let a = spaces_line(s, i);
    match SpecialStr::parse(s, a) {
        Step::Miss => Step::Fail(a),
        Step::Fail(p) => Step::Fail(p),
        Step::Done(c, k) => {
            let o = spaces_line(s, k);
            if !is_at(s, o, '{') {
                return Step::Fail(o);
            }
            let n = spaces_line(s, o + 1);
            match arms(s, n) {
                Step::Done(list, e) => Step::Done(Block::Case(c, list), e),
                Step::Miss => Step::Fail(n),
                Step::Fail(p) => Step::Fail(p),
            }
        },
    }
}

/// An `if` from `i` on, after the word.
pub fn if_at(s: &Vec<char>, i: usize) -> (r: Step<Block>)
    requires
        i <= s.len(),
    ensures
        agree(r, if_of(s@, i as int), |b: Block| b@),
        advances(r, i as int, s@.len() as int),
        !(r is Miss),
    decreases s.len() - i, 15nat,
{
    match cond_body(s, i) {
        Step::Miss => Step::Fail(i),
        Step::Fail(p) => Step::Fail(p),
        Step::Done((c, b), e) => {
            let k = spaces_line(s, e);
            if starts(s, k, &kw_else()) {
                let ghost cv = c@;
                let ghost bv = b@;
                match Block::parse(s, k + 4) {
                    Step::Done(o, z) => {
                        let ghost ov = o@;
                        let r = Block::If(c, Box::new(b), Some(Box::new(o)));
                        assert(opt_boxed_view(r->If_2) == Some(Box::new(ov)));
                        assert(r@ == BlockView::If(cv, Box::new(bv), Some(Box::new(ov))));
                        Step::Done(r, z)
                    },
                    Step::Miss => Step::Fail(k + 4),
                    Step::Fail(p) => Step::Fail(p),
                }
            } else {
                let ghost cv = c@;
                let ghost bv = b@;
                let r = Block::If(c, Box::new(b), None);
                assert(opt_boxed_view(r->If_2) == None::<Box<BlockView>>);
                assert(r@ == BlockView::If(cv, Box::new(bv), None));
                Step::Done(r, e)
            }
        },
    }
}

/// The head of a procedure's definition at `i`.
pub fn proc_head(s: &Vec<char>, i: usize) -> (r: Option<(String, usize)>)
    requires
        i <= s.len(),
    ensures
        match proc_head_of(s@, i as int) {
            Some((name, b)) => r matches Some((n, c)) && n@ == name && c == b && i < c < s.len(),
            None => r is None,
        },
{
    let k = run_end(s, i, Class::ProcName);
    if k > i {
        let b = spaces_line(s, k);
        if is_at(s, b, '{') {
            Some((string_of(s, i, k), b))
        } else {
            None
        }
    } else {
        None
    }
}

/// The definition of a procedure, whose body in braces begins at `b`.
pub fn proc_at(s: &Vec<char>, name: String, b: usize) -> (r: Step<Block>)
    requires
        b <= s.len(),
    ensures
        agree(r, proc_of(s@, name@, b as int), |x: Block| x@),
        advances(r, b as int, s@.len() as int),
        !(r is Miss),
    decreases s.len() - b, 15nat,
{
    match multi(s, b) {
        Step::Done(list, e) => {
            let body = Block::Multi(list);
            assert(body@ == BlockView::Multi(blocks_view(list@)));
            let r = Block::Proc(name, Box::new(body));
            assert(r@ == BlockView::Proc(name@, Box::new(body@)));
            Step::Done(r, e)
        },
        Step::Miss => Step::Fail(b),
        Step::Fail(p) => Step::Fail(p),
    }
}

impl Block {
    /// The block at `i`.
    pub fn parse(s: &Vec<char>, i: usize) -> (r: Step<Block>)
        requires
            i <= s.len(),
        ensures
            agree(r, block_of(s@, i as int), |b: Block| b@),
            proceeds(r, i as int, s@.len() as int),
        decreases s.len() - i, 11nat,
    {
        let j = spaces_line(s, i);
        if starts(s, j, &kw_break()) {
            return Step::Done(Block::Break, j + 5);
        }
        if starts(s, j, &kw_continue()) {
            return Step::Done(Block::Continue, j + 8);
        }
        match proc_head(s, j) {
            Some((name, b)) => {
                return proc_at(s, name, b);
            },
            None => {},
        }
        if starts(s, j, &kw_while()) {
            while_at(s, j + 5)
        } else if starts(s, j, &kw_for()) {
            for_at(s, j + 3)
        } else if starts(s, j, &kw_case()) {
            case_at(s, j + 4)
        } else if starts(s, j, &kw_if()) {
            if_at(s, j + 2)
        } else if is_at(s, j, '{') {
            match multi(s, j) {
                Step::Done(list, e) => Step::Done(Block::Multi(list), e),
                Step::Miss => Step::Fail(j),
                Step::Fail(p) => Step::Fail(p),
            }
        } else {
            match Command::parse(s, j) {
                Step::Done(c, e) => Step::Done(Block::Single(c), e),
                Step::Miss => if j == i {
                    Step::Miss
                } else {
                    Step::Fail(j)
                },
                Step::Fail(p) => Step::Fail(p),
            }
        }
    }
}

} // verus!
