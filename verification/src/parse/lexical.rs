//! Reading characters: white space, runs of a class, quoted bodies and
//! escapes.

use super::grammar::{
    at, escape as escape_at, hex_run_value, line_end as line_end_of, lit_body as lit_body_of,
    of_class, raw_body as raw_body_of, run_end as run_end_of, scalar, skip_blanks as blanks_end,
    skip_space as space_end, starts as starts_at, Class, Outcome,
};
use crate::text::{char_is_space, hex_digit, hex_value};
use vstd::prelude::*;

verus! {

/// What reading at a position gave: see `Outcome`, of which this is the
/// executable form.
#[derive(Debug, PartialEq, Eq)]
pub enum Step<T> {
    Done(T, usize),
    Miss,
    Fail(usize),
}

/// Whether a step is the outcome `o`, the value compared through `f`.
pub open spec fn agree<T, V>(r: Step<T>, o: Outcome<V>, f: spec_fn(T) -> V) -> bool {
    match (r, o) {
        (Step::Done(v, n), Outcome::Done(w, m)) => f(v) == w && n == m,
        (Step::Miss, Outcome::Miss) => true,
        (Step::Fail(p), Outcome::Fail(q)) => p == q,
        _ => false,
    }
}

/// Whether a step, if it is done, ends after `i` and within `len`; and if
/// it failed, failed within `len`.
pub open spec fn advances<T>(r: Step<T>, i: int, len: int) -> bool {
    match r {
        Step::Done(_, n) => i < n <= len,
        Step::Miss => true,
        Step::Fail(p) => p <= len,
    }
}

/// As `advances`, but a step that is done may end at `i`.
pub open spec fn proceeds<T>(r: Step<T>, i: int, len: int) -> bool {
    match r {
        Step::Done(_, n) => i <= n <= len,
        Step::Miss => true,
        Step::Fail(p) => p <= len,
    }
}

/// Whether `c` stands at `i`.
pub fn is_at(s: &Vec<char>, i: usize, c: char) -> (r: bool)
    ensures
        r == at(s@, i as int, c),
{
    i < s.len() && s[i] == c
}

/// Whether `word` stands at `i`.
pub fn starts(s: &Vec<char>, i: usize, word: &Vec<char>) -> (r: bool)
    requires
        i <= s.len(),
    ensures
        r == starts_at(s@, i as int, word@),
{
    if word.len() > s.len() - i {
        return false;
    }
    let mut k: usize = 0;
    while k < word.len()
        invariant
            i + word.len() <= s.len(),
            k <= word.len(),
            forall|n: int| 0 <= n < k ==> s@[i + n] == word@[n],
        decreases word.len() - k,
    {
        if s[i + k] != word[k] {
            assert(s@.subrange(i as int, i + word.len())[k as int] != word@[k as int]);
            return false;
        }
        k = k + 1;
    }
    assert(s@.subrange(i as int, i + word.len()) =~= word@);
    true
}

/// The end of the line that `i` is in.
pub fn line_end(s: &Vec<char>, i: usize) -> (r: usize)
    requires
        i <= s.len(),
    ensures
        r == line_end_of(s@, i as int),
        i <= r <= s.len(),
{
    let mut k = i;
    while k < s.len() && s[k] != '\n'
        invariant
            i <= k <= s.len(),
            line_end_of(s@, i as int) == line_end_of(s@, k as int),
        decreases s.len() - k,
    {
        k = k + 1;
    }
    k
}

/// The position after the blanks at `i`.
pub fn spaces(s: &Vec<char>, i: usize) -> (r: usize)
    requires
        i <= s.len(),
    ensures
        r == blanks_end(s@, i as int),
        i <= r <= s.len(),
{
    let mut k = i;
    while k < s.len() && char_is_space(s[k]) && s[k] != '\n'
        invariant
            i <= k <= s.len(),
            blanks_end(s@, i as int) == blanks_end(s@, k as int),
        decreases s.len() - k,
    {
        k = k + 1;
    }
    if is_at(s, k, '#') {
        line_end(s, k)
    } else {
        k
    }
}

/// The position after the white space at `i`, line feeds and comments
/// included.
pub fn spaces_line(s: &Vec<char>, i: usize) -> (r: usize)
    requires
        i <= s.len(),
    ensures
        r == space_end(s@, i as int),
        i <= r <= s.len(),
{
    let mut k = i;
    loop
        invariant
            i <= k <= s.len(),
            space_end(s@, i as int) == space_end(s@, k as int),
        ensures
            i <= k <= s.len(),
            space_end(s@, i as int) == k,
        decreases s.len() - k,
    {
        if k < s.len() && char_is_space(s[k]) {
            k = k + 1;
        } else if is_at(s, k, '#') {
            k = line_end(s, k + 1);
        } else {
            break ;
        }
    }
    k
}

/// Whether `c` is of the class.
pub fn in_class(class: Class, c: char) -> (r: bool)
    ensures
        r == of_class(class, c),
{
    match class {
        Class::Braced => c != '}',
        Class::Plain => !char_is_space(c) && c != '"' && c != '\'' && c != ')',
        Class::Word => !char_is_space(c),
        Class::ProcName => !char_is_space(c) && c != '{',
        Class::Digit => '0' <= c && c <= '9',
        Class::Hex => hex_digit(c).is_some(),
    }
}

/// The position after the characters of the class at `i`.
pub fn run_end(s: &Vec<char>, i: usize, class: Class) -> (r: usize)
    requires
        i <= s.len(),
    ensures
        r == run_end_of(s@, i as int, class),
        i <= r <= s.len(),
        forall|k: int| i <= k < r ==> of_class(class, s@[k]),
{
    let mut k = i;
    while k < s.len() && in_class(class, s[k])
        invariant
            i <= k <= s.len(),
            run_end_of(s@, i as int, class) == run_end_of(s@, k as int, class),
            forall|n: int| i <= n < k ==> of_class(class, s@[n]),
        decreases s.len() - k,
    {
        k = k + 1;
    }
    k
}

/// The body of a raw string from `i` on, after the opening quote.
pub fn raw_body(s: &Vec<char>, i: usize) -> (r: Step<String>)
    requires
        i <= s.len(),
    ensures
        agree(r, raw_body_of(s@, i as int, Seq::empty()), |t: String| t@),
        advances(r, i as int, s@.len() as int),
        !(r is Miss),
{
    let mut out = String::new();
    let mut k = i;
    loop
        invariant
            i <= k <= s.len(),
            raw_body_of(s@, i as int, Seq::empty()) == raw_body_of(s@, k as int, out@),
        decreases s.len() - k,
    {
        if k >= s.len() {
            return Step::Fail(s.len());
        }
        let c = s[k];
        if c == '\'' {
            return Step::Done(out, k + 1);
        }
        if c == '\\' && k + 1 < s.len() && (s[k + 1] == '\\' || s[k + 1] == '\'') {
            out.push(s[k + 1]);
            k = k + 2;
        } else {
            out.push(c);
            k = k + 1;
        }
    }
}

/// The body of a literal from `i` on, after the opening quote, up to the
/// closing quote, which is not taken.
pub fn lit_body(s: &Vec<char>, i: usize) -> (r: Step<Vec<char>>)
    requires
        i <= s.len(),
    ensures
        agree(r, lit_body_of(s@, i as int, Seq::empty()), |t: Vec<char>| t@),
        proceeds(r, i as int, s@.len() as int),
        !(r is Miss),
        r matches Step::Done(b, n) ==> b@.len() <= n - i && at(s@, n as int, '"'),
{
    let mut out: Vec<char> = Vec::new();
    let mut k = i;
    loop
        invariant
            i <= k <= s.len(),
            out@.len() <= k - i,
            lit_body_of(s@, i as int, Seq::empty()) == lit_body_of(s@, k as int, out@),
        decreases s.len() - k,
    {
        if k >= s.len() {
            return Step::Fail(s.len());
        }
        let c = s[k];
        if c == '"' {
            return Step::Done(out, k);
        }
        if c == '\\' {
            if k + 1 >= s.len() {
                return Step::Fail(s.len());
            }
            if s[k + 1] == '"' {
                out.push('"');
            } else {
                out.push('\\');
                out.push(s[k + 1]);
            }
            k = k + 2;
        } else {
            out.push(c);
            k = k + 1;
        }
    }
}

/// The character that the hexadecimal digits `s[from..to]` are the code
/// of, if they are the code of one.
fn hex_char(s: &Vec<char>, from: usize, to: usize) -> (r: Option<char>)
    requires
        from <= to <= s.len(),
        forall|k: int| from <= k < to ==> hex_value(s@[k]) is Some,
    ensures
        r == scalar(hex_run_value(s@.subrange(from as int, to as int))),
{
    let ghost run = s@.subrange(from as int, to as int);
    let mut acc: u32 = 0;
    let mut over: bool = false;
    let mut k = from;
    assert(run.take(0) =~= Seq::empty());
    while k < to
        invariant
            from <= k <= to <= s.len(),
            run == s@.subrange(from as int, to as int),
            forall|n: int| from <= n < to ==> hex_value(s@[n]) is Some,
            !over ==> acc == hex_run_value(run.take(k - from)) && acc <= 0x10FFFF,
            over ==> hex_run_value(run.take(k - from)) > 0x10FFFF,
        decreases to - k,
    {
        proof {
            assert(run.take(k - from + 1).drop_last() =~= run.take(k - from));
            assert(run.take(k - from + 1).last() == s@[k as int]);
        }
        let d = match hex_digit(s[k]) {
            Some(d) => d,
            None => 0,
        };
        if !over {
            let next: u32 = acc * 16 + d;
            if next > 0x10FFFF {
                over = true;
            } else {
                acc = next;
            }
        }
        k = k + 1;
    }
    assert(run.take(k - from) =~= run);
    if over {
        None
    } else {
        let r = char::from_u32(acc);
        proof {
            if let Some(c) = r {
                vstd::utf8::char_u32_cast(c, acc);
                assert(c == (acc as nat) as char);
            }
        }
        r
    }
}

/// What the escape after a backslash stands for, and the position after it.
pub fn escape(s: &Vec<char>, i: usize) -> (r: Option<(char, usize)>)
    requires
        i <= s.len(),
    ensures
        match (r, escape_at(s@, i as int)) {
            (Some((c, n)), Some((d, m))) => c == d && n == m && i < n <= s.len(),
            (None, None) => true,
            _ => false,
        },
{
    if i >= s.len() {
        return None;
    }
    let c = s[i];
    if c == 'a' {
        Some(('\x07', i + 1))
    } else if c == 'b' {
        Some(('\x08', i + 1))
    } else if c == 'e' {
        Some(('\x1b', i + 1))
    } else if c == 'f' {
        Some(('\x0c', i + 1))
    } else if c == 'n' {
        Some(('\n', i + 1))
    } else if c == 'r' {
        Some(('\r', i + 1))
    } else if c == 't' {
        Some(('\t', i + 1))
    } else if c == 'v' {
        Some(('\x0b', i + 1))
    } else if c == '%' || c == '$' || c == '(' || c == '\\' {
        Some((c, i + 1))
    } else if c == 'x' {
        if s.len() - i > 2 && hex_digit(s[i + 1]).is_some() && hex_digit(s[i + 2]).is_some() {
            match hex_char(s, i + 1, i + 3) {
                Some(ch) => Some((ch, i + 3)),
                None => None,
            }
        } else {
            None
        }
    } else if (c == 'u' || c == 'U') && is_at(s, i + 1, '{') {
        let j = run_end(s, i + 2, Class::Hex);
        if j > i + 2 && is_at(s, j, '}') {
            match hex_char(s, i + 2, j) {
                Some(ch) => Some((ch, j + 1)),
                None => None,
            }
        } else {
            None
        }
    } else {
        None
    }
}

} // verus!
