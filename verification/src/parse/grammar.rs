//! The grammar of the command language, as functions from text and a
//! position to what stands there.
//!
//! Each function reads the text `s` from the position `i` on and gives one
//! of three outcomes: `Done` with what it read and the position after it;
//! `Miss` where what stands at `i` is not what the function reads, and
//! nothing of it was taken; `Fail` with the position at which text that had
//! begun well went wrong. A failure at the end of the text means that the
//! text is not finished yet.

use super::syntax::{
    ArgView, BlockView, CommandView, RedKind, RedTargetView, RedirectView, SpecialStrView,
    StrKindView,
};
use crate::text::{digits_value, hex_value, is_digit, is_space};
use vstd::prelude::*;

verus! {

/// What reading at a position gave.
pub enum Outcome<T> {
    /// This was read, and the text goes on at this position.
    Done(T, int),
    /// Nothing that the reader reads stands here.
    Miss,
    /// The text went wrong at this position.
    Fail(int),
}

/// The text that `unindent::unindent` makes of `s`: the white space that all
/// lines after the first begin with is taken away.
pub uninterp spec fn unindented(s: Seq<char>) -> Seq<char>;

/// Whether the character `c` stands at `i`.
pub open spec fn at(s: Seq<char>, i: int, c: char) -> bool {
    0 <= i < s.len() && s[i] == c
}

/// Whether the text `word` stands at `i`.
pub open spec fn starts(s: Seq<char>, i: int, word: Seq<char>) -> bool {
    0 <= i && i + word.len() <= s.len() && s.subrange(i, i + word.len()) == word
}

/// The word `=>`.
#[verifier::opaque]
pub open spec fn word_arrow() -> Seq<char> {
    seq!['=', '>']
}

/// The word `in`.
#[verifier::opaque]
pub open spec fn word_in() -> Seq<char> {
    seq!['i', 'n']
}

/// The word `else`.
#[verifier::opaque]
pub open spec fn word_else() -> Seq<char> {
    seq!['e', 'l', 's', 'e']
}

/// The word `break`.
#[verifier::opaque]
pub open spec fn word_break() -> Seq<char> {
    seq!['b', 'r', 'e', 'a', 'k']
}

/// The word `continue`.
#[verifier::opaque]
pub open spec fn word_continue() -> Seq<char> {
    seq!['c', 'o', 'n', 't', 'i', 'n', 'u', 'e']
}

/// The word `while`.
#[verifier::opaque]
pub open spec fn word_while() -> Seq<char> {
    seq!['w', 'h', 'i', 'l', 'e']
}

/// The word `for`.
#[verifier::opaque]
pub open spec fn word_for() -> Seq<char> {
    seq!['f', 'o', 'r']
}

/// The word `case`.
#[verifier::opaque]
pub open spec fn word_case() -> Seq<char> {
    seq!['c', 'a', 's', 'e']
}

/// The word `if`.
#[verifier::opaque]
pub open spec fn word_if() -> Seq<char> {
    seq!['i', 'f']
}

/// Whether `j` lies after `i` and within the text.
pub open spec fn ahead(s: Seq<char>, i: int, j: int) -> bool {
    i < j <= s.len()
}

/// Whether `j` lies at `i` or after it, and within the text.
pub open spec fn onward(s: Seq<char>, i: int, j: int) -> bool {
    i <= j <= s.len()
}

/// The end of the line that `i` is in: the position of the next line feed,
/// or the end of the text.
pub open spec fn line_end(s: Seq<char>, i: int) -> int
    decreases s.len() - i,
{
    if 0 <= i < s.len() && s[i] != '\n' {
        line_end(s, i + 1)
    } else {
        i
    }
}

/// The position after the blanks at `i`: white space other than line feeds,
/// and after it a comment, which runs from `#` to the end of the line.
pub open spec fn skip_blanks(s: Seq<char>, i: int) -> int
    decreases s.len() - i,
{
    if 0 <= i < s.len() && is_space(s[i]) && s[i] != '\n' {
        skip_blanks(s, i + 1)
    } else if at(s, i, '#') {
        line_end(s, i)
    } else {
        i
    }
}

/// The position after the white space at `i`, line feeds and comments
/// included.
pub open spec fn skip_space(s: Seq<char>, i: int) -> int
    decreases s.len() - i, 1nat,
{
    if 0 <= i < s.len() && is_space(s[i]) {
        skip_space(s, i + 1)
    } else if at(s, i, '#') {
        let j = line_end(s, i + 1);
        if ahead(s, i, j) {
            skip_space(s, j)
        } else {
            i
        }
    } else {
        i
    }
}

/// The kinds of characters that names and numbers are made of.
#[derive(Clone, Copy, Debug, PartialEq, Eq, Structural)]
pub enum Class {
    /// Anything but `}`: a variable's name in braces.
    Braced,
    /// Anything but white space, quotes and `)`: a variable's name.
    Plain,
    /// Anything but white space: the variable of a `for`.
    Word,
    /// Anything but white space and `{`: a procedure's name.
    ProcName,
    /// `0` to `9`.
    Digit,
    /// Hexadecimal digits.
    Hex,
}

/// Whether `c` is of the class.
pub open spec fn of_class(class: Class, c: char) -> bool {
    match class {
        Class::Braced => c != '}',
        Class::Plain => !is_space(c) && c != '"' && c != '\'' && c != ')',
        Class::Word => !is_space(c),
        Class::ProcName => !is_space(c) && c != '{',
        Class::Digit => is_digit(c),
        Class::Hex => hex_value(c) is Some,
    }
}

/// The position after the characters of the class at `i`.
pub open spec fn run_end(s: Seq<char>, i: int, class: Class) -> int
    decreases s.len() - i,
{
    if 0 <= i < s.len() && of_class(class, s[i]) {
        run_end(s, i + 1, class)
    } else {
        i
    }
}

/// Whether `c` can stand in a bare word.
pub open spec fn is_bare(c: char) -> bool {
    !is_space(c) && c != '#' && c != '|' && c != '&' && c != ';' && c != '$' && c != '{' && c
        != '}' && c != '(' && c != ')'
}

/// The character with the code `n`, if there is one.
pub open spec fn scalar(n: nat) -> Option<char> {
    if n <= 0xD7FF || 0xE000 <= n <= 0x10FFFF {
        Some(n as char)
    } else {
        None
    }
}

/// The number that a run of hexadecimal digits stands for.
pub open spec fn hex_run_value(s: Seq<char>) -> nat
    decreases s.len(),
{
    if s.len() == 0 {
        0
    } else {
        (hex_run_value(s.drop_last()) * 16 + match hex_value(s.last()) {
            Some(v) => v,
            None => 0,
        }) as nat
    }
}

/// The body of a raw string from `i` on, after the opening quote: up to the
/// closing `'`. A backslash before a backslash or a quote takes their
/// special meaning away; any other character stands for itself.
pub open spec fn raw_body(s: Seq<char>, i: int, acc: Seq<char>) -> Outcome<Seq<char>>
    decreases s.len() - i,
{
    if !(0 <= i < s.len()) {
        Outcome::Fail(s.len() as int)
    } else if s[i] == '\'' {
        Outcome::Done(acc, i + 1)
    } else if s[i] == '\\' && i + 1 < s.len() && (s[i + 1] == '\\' || s[i + 1] == '\'') {
        raw_body(s, i + 2, acc.push(s[i + 1]))
    } else {
        raw_body(s, i + 1, acc.push(s[i]))
    }
}

/// The body of a literal from `i` on, after the opening quote: up to the
/// closing `"`, which is not taken. A backslash before a `"` makes it part
/// of the body; a backslash before anything else stays in the body, with
/// what follows it, for the second reading.
pub open spec fn lit_body(s: Seq<char>, i: int, acc: Seq<char>) -> Outcome<Seq<char>>
    decreases s.len() - i,
{
    if !(0 <= i < s.len()) {
        Outcome::Fail(s.len() as int)
    } else if s[i] == '"' {
        Outcome::Done(acc, i)
    } else if s[i] == '\\' {
        if i + 1 >= s.len() {
            Outcome::Fail(s.len() as int)
        } else if s[i + 1] == '"' {
            lit_body(s, i + 2, acc.push('"'))
        } else {
            lit_body(s, i + 2, acc.push('\\').push(s[i + 1]))
        }
    } else {
        lit_body(s, i + 1, acc.push(s[i]))
    }
}

/// What the escape after a backslash stands for, and the position after it.
pub open spec fn escape(s: Seq<char>, i: int) -> Option<(char, int)> {
    if !(0 <= i < s.len()) {
        None
    } else if s[i] == 'a' {
        Some(('\x07', i + 1))
    } else if s[i] == 'b' {
        Some(('\x08', i + 1))
    } else if s[i] == 'e' {
        Some(('\x1b', i + 1))
    } else if s[i] == 'f' {
        Some(('\x0c', i + 1))
    } else if s[i] == 'n' {
        Some(('\n', i + 1))
    } else if s[i] == 'r' {
        Some(('\r', i + 1))
    } else if s[i] == 't' {
        Some(('\t', i + 1))
    } else if s[i] == 'v' {
        Some(('\x0b', i + 1))
    } else if s[i] == '%' || s[i] == '$' || s[i] == '(' || s[i] == '\\' {
        Some((s[i], i + 1))
    } else if s[i] == 'x' {
        if i + 2 < s.len() && hex_value(s[i + 1]) is Some && hex_value(s[i + 2]) is Some {
            match scalar(hex_run_value(s.subrange(i + 1, i + 3))) {
                Some(c) => Some((c, i + 3)),
                None => None,
            }
        } else {
            None
        }
    } else if (s[i] == 'u' || s[i] == 'U') && at(s, i + 1, '{') {
        let j = run_end(s, i + 2, Class::Hex);
        if j > i + 2 && at(s, j, '}') {
            match scalar(hex_run_value(s.subrange(i + 2, j))) {
                Some(c) => Some((c, j + 1)),
                None => None,
            }
        } else {
            None
        }
    } else {
        None
    }
}

/// The list `parts` with the text `run` added as a fragment, unless the
/// text is empty.
pub open spec fn flushed(parts: Seq<StrKindView>, run: Seq<char>) -> Seq<StrKindView> {
    if run.len() > 0 {
        parts.push(StrKindView::String(run))
    } else {
        parts
    }
}

/// What is embedded at `i`: `$NAME` or `${NAME}`, a command in round
/// brackets, or `%` and the digits of a job id.
pub open spec fn interp(s: Seq<char>, i: int) -> Outcome<StrKindView>
    decreases s.len() - i, 0nat,
{
    if !(0 <= i < s.len()) {
        Outcome::Miss
    } else if s[i] == '$' {
        if at(s, i + 1, '{') {
            let j = run_end(s, i + 2, Class::Braced);
            if j > i + 2 && at(s, j, '}') {
                Outcome::Done(StrKindView::Var(s.subrange(i + 2, j)), j + 1)
            } else {
                Outcome::Fail(j)
            }
        } else {
            let j = run_end(s, i + 1, Class::Plain);
            if j > i + 1 {
                Outcome::Done(StrKindView::Var(s.subrange(i + 1, j)), j)
            } else {
                Outcome::Fail(i + 1)
            }
        }
    } else if s[i] == '(' {
        match command(s, i + 1) {
            Outcome::Done(c, j) => if at(s, j, ')') {
                Outcome::Done(StrKindView::Cmd(c), j + 1)
            } else {
                Outcome::Fail(j)
            },
            Outcome::Miss => Outcome::Fail(i + 1),
            Outcome::Fail(p) => Outcome::Fail(p),
        }
    } else if s[i] == '%' && i + 1 < s.len() && is_digit(s[i + 1]) {
        let j = run_end(s, i + 1, Class::Digit);
        let n = digits_value(s.subrange(i + 1, j));
        if n <= 0xffff_ffff {
            Outcome::Done(StrKindView::Pid(n), j)
        } else {
            Outcome::Fail(i)
        }
    } else {
        Outcome::Miss
    }
}

/// The fragments of a bare word from `i` on, after the fragments `parts`
/// and the text `run`: embedded things, and between them the characters
/// that can stand in a bare word.
pub open spec fn bare_from(
    s: Seq<char>,
    i: int,
    parts: Seq<StrKindView>,
    run: Seq<char>,
) -> Outcome<Seq<StrKindView>>
    decreases s.len() - i, 1nat,
{
    let all = flushed(parts, run);
    let end = if all.len() == 0 {
        Outcome::Miss
    } else {
        Outcome::Done(all, i)
    };
    if !(0 <= i < s.len()) {
        end
    } else {
        match interp(s, i) {
            Outcome::Done(k, j) => if ahead(s, i, j) {
                bare_from(s, j, all.push(k), Seq::empty())
            } else {
                Outcome::Fail(i)
            },
            Outcome::Fail(p) => Outcome::Fail(p),
            Outcome::Miss => if is_bare(s[i]) {
                bare_from(s, i + 1, parts, run.push(s[i]))
            } else {
                end
            },
        }
    }
}

/// The fragments of the body `b` of a literal from `i` on, after the
/// fragments `parts` and the text `run`; `None` where the body is not well
/// formed. Embedded things are read as in a bare word; a backslash starts
/// an escape; any other character stands for itself.
pub open spec fn lit_from(b: Seq<char>, i: int, parts: Seq<StrKindView>, run: Seq<char>) -> Option<
    Seq<StrKindView>,
>
    decreases b.len() - i, 1nat,
{
    if !(0 <= i < b.len()) {
        Some(flushed(parts, run))
    } else {
        match interp(b, i) {
            Outcome::Done(k, j) => if ahead(b, i, j) {
                lit_from(b, j, flushed(parts, run).push(k), Seq::empty())
            } else {
                None
            },
            Outcome::Fail(p) => None,
            Outcome::Miss => if b[i] == '$' || b[i] == '(' {
                None
            } else if b[i] == '\\' {
                match escape(b, i + 1) {
                    Some((c, j)) => if ahead(b, i, j) {
                        lit_from(b, j, parts, run.push(c))
                    } else {
                        None
                    },
                    None => None,
                }
            } else {
                lit_from(b, i + 1, parts, run.push(b[i]))
            },
        }
    }
}

/// A raw string in three quotes at `i`, if one stands there whole.
pub open spec fn raw_block(s: Seq<char>, i: int) -> Option<(Seq<char>, int)> {
    if starts(s, i, seq!['\'', '\'', '\'']) {
        match raw_body(s, i + 3, Seq::empty()) {
            Outcome::Done(b, j) => if starts(s, j, seq!['\'', '\'']) {
                Some((unindented(b), j + 2))
            } else {
                None
            },
            _ => None,
        }
    } else {
        None
    }
}

/// A literal in three quotes at `i`, if one stands there whole and well
/// formed: its body is unindented before its fragments are read.
pub open spec fn lit_block(s: Seq<char>, i: int) -> Option<(Seq<StrKindView>, int)>
    decreases s.len() - i, 2nat,
{
    if starts(s, i, seq!['"', '"', '"']) {
        match lit_body(s, i + 3, Seq::empty()) {
            Outcome::Done(b, j) => if starts(s, j, seq!['"', '"', '"']) && unindented(b).len()
                < s.len() - i {
                match lit_from(unindented(b), 0, Seq::empty(), Seq::empty()) {
                    Some(parts) => Some((parts, j + 3)),
                    None => None,
                }
            } else {
                None
            },
            _ => None,
        }
    } else {
        None
    }
}

/// The special string at `i`: a raw string or a literal in three quotes, a
/// raw string, a literal, or a bare word, tried in this order.
pub open spec fn special(s: Seq<char>, i: int) -> Outcome<SpecialStrView>
    decreases s.len() - i, 3nat,
{
    match raw_block(s, i) {
        Some((t, j)) => Outcome::Done(SpecialStrView::text(t), j),
        None => if at(s, i, '\'') {
            match raw_body(s, i + 1, Seq::empty()) {
                Outcome::Done(b, j) => Outcome::Done(SpecialStrView::text(b), j),
                Outcome::Fail(p) => Outcome::Fail(p),
                Outcome::Miss => Outcome::Fail(i),
            }
        } else {
            match lit_block(s, i) {
                Some((parts, j)) => Outcome::Done(SpecialStrView { parts }, j),
                None => if at(s, i, '"') {
                    match lit_body(s, i + 1, Seq::empty()) {
                        Outcome::Done(b, j) => if b.len() < s.len() - i {
                            match lit_from(b, 0, Seq::empty(), Seq::empty()) {
                                Some(parts) => Outcome::Done(SpecialStrView { parts }, j + 1),
                                None => Outcome::Fail(i),
                            }
                        } else {
                            Outcome::Fail(i)
                        },
                        Outcome::Fail(p) => Outcome::Fail(p),
                        Outcome::Miss => Outcome::Fail(i),
                    }
                } else {
                    match bare_from(s, i, Seq::empty(), Seq::empty()) {
                        Outcome::Done(parts, j) => Outcome::Done(SpecialStrView { parts }, j),
                        Outcome::Fail(p) => Outcome::Fail(p),
                        Outcome::Miss => Outcome::Miss,
                    }
                },
            }
        },
    }
}

/// Whether the `>` at `i` is doubled.
pub open spec fn doubled(s: Seq<char>, i: int) -> bool {
    at(s, i + 1, '>')
}

/// The position after the `>` at `i`, or after the two.
pub open spec fn arrow_end(s: Seq<char>, i: int) -> int {
    if at(s, i + 1, '>') {
        i + 2
    } else {
        i + 1
    }
}

/// The kind of redirection written at `i`, if one is.
pub open spec fn red_kind(s: Seq<char>, i: int) -> Option<(RedKind, int)> {
    if !(0 <= i < s.len()) {
        None
    } else if (s[i] == '1' || s[i] == '-' || s[i] == 'o') && at(s, i + 1, '>') {
        Some(
            (
                if doubled(s, i + 1) {
                    RedKind::AppendStdout
                } else {
                    RedKind::OverwriteStdout
                },
                arrow_end(s, i + 1),
            ),
        )
    } else if (s[i] == '2' || s[i] == '=' || s[i] == 'e') && at(s, i + 1, '>') {
        Some(
            (
                if doubled(s, i + 1) {
                    RedKind::AppendStderr
                } else {
                    RedKind::OverwriteStderr
                },
                arrow_end(s, i + 1),
            ),
        )
    } else if s[i] == '&' && at(s, i + 1, '>') {
        Some(
            (
                if doubled(s, i + 1) {
                    RedKind::AppendBoth
                } else {
                    RedKind::OverwriteBoth
                },
                arrow_end(s, i + 1),
            ),
        )
    } else if s[i] == '<' {
        if i + 1 < s.len() && (s[i + 1] == '<' || s[i + 1] == '-' || s[i + 1] == '=' || s[i + 1]
            == 'h') {
            Some((RedKind::HereDoc, i + 2))
        } else {
            Some((RedKind::Stdin, i + 1))
        }
    } else if s[i] == '>' {
        Some(
            (
                if doubled(s, i) {
                    RedKind::AppendStdout
                } else {
                    RedKind::OverwriteStdout
                },
                arrow_end(s, i),
            ),
        )
    } else {
        None
    }
}

/// The target of a redirection at `i`: `&0`, `&1`, `&2` or `&!` for the
/// three standard streams and the null device, else a special string.
pub open spec fn red_target(s: Seq<char>, i: int) -> Option<(RedTargetView, int)>
    decreases s.len() - i, 4nat,
{
    if at(s, i, '&') {
        if at(s, i + 1, '0') {
            Some((RedTargetView::Stdin, i + 2))
        } else if at(s, i + 1, '1') {
            Some((RedTargetView::Stdout, i + 2))
        } else if at(s, i + 1, '2') {
            Some((RedTargetView::Stderr, i + 2))
        } else if at(s, i + 1, '!') {
            Some((RedTargetView::Null, i + 2))
        } else {
            None
        }
    } else {
        match special(s, i) {
            Outcome::Done(t, j) => Some((RedTargetView::Other(t), j)),
            _ => None,
        }
    }
}

/// The redirection at `i`, if one stands there whole.
pub open spec fn redirect(s: Seq<char>, i: int) -> Option<(RedirectView, int)>
    decreases s.len() - i, 5nat,
{
    match red_kind(s, i) {
        Some((kind, j)) => {
            let k = skip_blanks(s, j);
            if ahead(s, i, j) && onward(s, j, k) {
                match red_target(s, k) {
                    Some((target, e)) => Some((RedirectView { kind, target }, e)),
                    None => None,
                }
            } else {
                None
            }
        },
        None => None,
    }
}

/// The word at `i` after a command's name: a redirection, `!` and a special
/// string, or a special string.
pub open spec fn arg(s: Seq<char>, i: int) -> Outcome<ArgView>
    decreases s.len() - i, 6nat,
{
    match redirect(s, i) {
        Some((r, j)) => Outcome::Done(ArgView::Redirect(r), j),
        None => if at(s, i, '!') {
            match special(s, i + 1) {
                Outcome::Done(t, j) => Outcome::Done(ArgView::ExpandArg(t), j),
                Outcome::Miss => Outcome::Fail(i + 1),
                Outcome::Fail(p) => Outcome::Fail(p),
            }
        } else {
            match special(s, i) {
                Outcome::Done(t, j) => Outcome::Done(ArgView::Arg(t), j),
                Outcome::Miss => Outcome::Miss,
                Outcome::Fail(p) => Outcome::Fail(p),
            }
        },
    }
}

/// The words from `i` on, after the words `acc`, with blanks between them.
pub open spec fn args_from(s: Seq<char>, i: int, acc: Seq<ArgView>) -> Outcome<Seq<ArgView>>
    decreases s.len() - i, 7nat,
{
    match arg(s, i) {
        Outcome::Done(a, j) => {
            let k = skip_blanks(s, j);
            if ahead(s, i, j) && onward(s, j, k) {
                args_from(s, k, acc.push(a))
            } else {
                Outcome::Fail(i)
            }
        },
        Outcome::Miss => Outcome::Done(acc, i),
        Outcome::Fail(p) => Outcome::Fail(p),
    }
}

/// The command at `i`: after white space, either nothing, which is the
/// empty command, or a name, words, then `|` and a command where the
/// output is piped on, then `&` where the command runs in the background.
pub open spec fn command(s: Seq<char>, i: int) -> Outcome<CommandView>
    decreases s.len() - i, 8nat,
{
    let j = skip_space(s, i);
    if !onward(s, i, j) {
        Outcome::Fail(i)
    } else if j >= s.len() {
        Outcome::Done(CommandView::empty(), j)
    } else {
        match special(s, j) {
            Outcome::Miss => if j == i {
                Outcome::Miss
            } else {
                Outcome::Fail(j)
            },
            Outcome::Fail(p) => Outcome::Fail(p),
            Outcome::Done(name, k0) => {
                let k = skip_blanks(s, k0);
                if !(ahead(s, j, k0) && onward(s, k0, k)) {
                    Outcome::Fail(j)
                } else {
                    match args_from(s, k, Seq::empty()) {
                        Outcome::Miss => Outcome::Fail(k),
                        Outcome::Fail(p) => Outcome::Fail(p),
                        Outcome::Done(args, k1) => {
                            if at(s, k1, '|') {
                                if k1 < k {
                                    Outcome::Fail(k1)
                                } else {
                                    match command(s, k1 + 1) {
                                        Outcome::Miss => Outcome::Fail(k1 + 1),
                                        Outcome::Fail(p) => Outcome::Fail(p),
                                        Outcome::Done(c, k2) => tail(
                                            s,
                                            k2,
                                            name,
                                            args,
                                            Some(Box::new(c)),
                                        ),
                                    }
                                }
                            } else {
                                tail(s, k1, name, args, None)
                            }
                        },
                    }
                }
            },
        }
    }
}

/// The end of a command: `&` after blanks makes it a background command.
pub open spec fn tail(
    s: Seq<char>,
    i: int,
    name: SpecialStrView,
    args: Seq<ArgView>,
    pipe: Option<Box<CommandView>>,
) -> Outcome<CommandView> {
    let k = skip_blanks(s, i);
    if at(s, k, '&') {
        Outcome::Done(CommandView { name, args, pipe, bg: true }, skip_blanks(s, k + 1))
    } else {
        Outcome::Done(CommandView { name, args, pipe, bg: false }, i)
    }
}

/// The head of a procedure's definition at `i`: a name, and after white
/// space the `{` that opens its body; the name and the position of the `{`.
pub open spec fn proc_head(s: Seq<char>, i: int) -> Option<(Seq<char>, int)> {
    let k = run_end(s, i, Class::ProcName);
    if k > i && i >= 0 {
        let b = skip_space(s, k);
        if at(s, b, '{') {
            Some((s.subrange(i, k), b))
        } else {
            None
        }
    } else {
        None
    }
}

/// The patterns of an arm of a `case` from `i` on, after the patterns
/// `acc`, with `|` between them.
pub open spec fn pats_from(s: Seq<char>, i: int, acc: Seq<SpecialStrView>) -> Outcome<
    Seq<SpecialStrView>,
>
    decreases s.len() - i, 9nat,
{
    match special(s, i) {
        Outcome::Done(p, j) => {
            let k = skip_space(s, j);
            if !(ahead(s, i, j) && onward(s, j, k)) {
                Outcome::Fail(i)
            } else if at(s, k, '|') {
                let n = skip_space(s, k + 1);
                if ahead(s, k, n) {
                    pats_from(s, n, acc.push(p))
                } else {
                    Outcome::Fail(k)
                }
            } else {
                Outcome::Done(acc.push(p), k)
            }
        },
        Outcome::Miss => if acc.len() == 0 {
            Outcome::Done(acc, i)
        } else {
            Outcome::Fail(i)
        },
        Outcome::Fail(p) => Outcome::Fail(p),
    }
}

/// The arms of a `case` from `i` on, after the arms `acc`, up to the
/// closing `}`: patterns, `=>`, and a block.
pub open spec fn arms_from(
    s: Seq<char>,
    i: int,
    acc: Seq<(Seq<SpecialStrView>, BlockView)>,
) -> Outcome<Seq<(Seq<SpecialStrView>, BlockView)>>
    decreases s.len() - i, 13nat,
{
    if at(s, i, '}') {
        Outcome::Done(acc, i + 1)
    } else {
        match pats_from(s, i, Seq::empty()) {
            Outcome::Miss => Outcome::Fail(i),
            Outcome::Fail(p) => Outcome::Fail(p),
            Outcome::Done(pats, j) => if onward(s, i, j) && starts(s, j, word_arrow()) && ahead(
                s,
                j,
                j + 2,
            ) {
                match block(s, j + 2) {
                    Outcome::Miss => Outcome::Fail(j + 2),
                    Outcome::Fail(p) => Outcome::Fail(p),
                    Outcome::Done(b, k) => {
                        let n = skip_space(s, k);
                        if ahead(s, j, k) && onward(s, k, n) {
                            arms_from(s, n, acc.push((pats, b)))
                        } else {
                            Outcome::Fail(j)
                        }
                    },
                }
            } else {
                Outcome::Fail(j)
            },
        }
    }
}

/// The lines of a block in braces from `i` on, after the lines `acc`, up to
/// the closing `}`: blocks with a line feed or `;` after each but the last,
/// and blanks before it.
pub open spec fn lines_from(s: Seq<char>, i: int, acc: Seq<BlockView>) -> Outcome<Seq<BlockView>>
    decreases s.len() - i, 12nat,
{
    if at(s, i, '}') {
        Outcome::Done(acc, i + 1)
    } else {
        match block(s, i) {
            Outcome::Miss => Outcome::Fail(i),
            Outcome::Fail(p) => Outcome::Fail(p),
            Outcome::Done(b, e) => {
                let j = skip_blanks(s, e);
                if at(s, j, '\n') || at(s, j, ';') {
                    let n = skip_space(s, j + 1);
                    if onward(s, i, j) && ahead(s, j, n) {
                        lines_from(s, n, acc.push(b))
                    } else {
                        Outcome::Fail(j)
                    }
                } else if at(s, j, '}') {
                    Outcome::Done(acc.push(b), j + 1)
                } else {
                    Outcome::Fail(j)
                }
            },
        }
    }
}

/// The block in braces at `i`, where `{` stands.
pub open spec fn multi(s: Seq<char>, i: int) -> Outcome<Seq<BlockView>>
    decreases s.len() - i, 10nat,
{
    let n = skip_space(s, i + 1);
    if at(s, i, '{') && ahead(s, i, n) {
        lines_from(s, n, Seq::empty())
    } else {
        Outcome::Miss
    }
}

/// A condition and a body from `i` on: a special string, then a block.
pub open spec fn cond_body(s: Seq<char>, i: int) -> Outcome<(SpecialStrView, BlockView)>
    decreases s.len() - i, 14nat,
{
    let j = skip_space(s, i);
    if !onward(s, i, j) {
        Outcome::Fail(i)
    } else {
        match special(s, j) {
            Outcome::Miss => Outcome::Fail(j),
            Outcome::Fail(p) => Outcome::Fail(p),
            Outcome::Done(c, k) => if ahead(s, j, k) {
                match block(s, k) {
                    Outcome::Miss => Outcome::Fail(k),
                    Outcome::Fail(p) => Outcome::Fail(p),
                    Outcome::Done(b, e) => Outcome::Done((c, b), e),
                }
            } else {
                Outcome::Fail(j)
            },
        }
    }
}

/// A `while` from `i` on, after the word: a condition and a body.
pub open spec fn while_at(s: Seq<char>, i: int) -> Outcome<BlockView>
    decreases s.len() - i, 15nat,
{
    match cond_body(s, i) {
        Outcome::Done((c, b), e) => Outcome::Done(BlockView::While(c, Box::new(b)), e),
        Outcome::Miss => Outcome::Fail(i),
        Outcome::Fail(p) => Outcome::Fail(p),
    }
}

/// A `for` from `i` on, after the word: a name, `in`, what to run through,
/// and a body.
pub open spec fn for_at(s: Seq<char>, i: int) -> Outcome<BlockView>
    decreases s.len() - i, 15nat,
{
    let a = skip_space(s, i);
    let z = run_end(s, a, Class::Word);
    let w = skip_space(s, z);
    if !(onward(s, i, a) && ahead(s, a, z)) {
        Outcome::Fail(a)
    } else if !(onward(s, z, w) && starts(s, w, word_in()) && ahead(s, w, w + 2)) {
        Outcome::Fail(w)
    } else {
        match cond_body(s, w + 2) {
            Outcome::Done((c, b), e) => Outcome::Done(
                BlockView::For(s.subrange(a, z), c, Box::new(b)),
                e,
            ),
            Outcome::Miss => Outcome::Fail(w + 2),
            Outcome::Fail(p) => Outcome::Fail(p),
        }
    }
}

/// A `case` from `i` on, after the word: what to compare, and the arms in
/// braces.
pub open spec fn case_at(s: Seq<char>, i: int) -> Outcome<BlockView>
    decreases s.len() - i, 15nat,
{
    let a = skip_space(s, i);
    if !onward(s, i, a) {
        Outcome::Fail(i)
    } else {
        match special(s, a) {
            Outcome::Miss => Outcome::Fail(a),
            Outcome::Fail(p) => Outcome::Fail(p),
            Outcome::Done(c, k) => {
                let o = skip_space(s, k);
                let n = skip_space(s, o + 1);
                if !(ahead(s, a, k) && onward(s, k, o) && at(s, o, '{') && ahead(s, o, n)) {
                    Outcome::Fail(o)
                } else {
                    match arms_from(s, n, Seq::empty()) {
                        Outcome::Done(arms, e) => Outcome::Done(BlockView::Case(c, arms), e),
                        Outcome::Miss => Outcome::Fail(n),
                        Outcome::Fail(p) => Outcome::Fail(p),
                    }
                }
            },
        }
    }
}

/// An `if` from `i` on, after the word: a condition, a block, and after
/// `else` another block.
pub open spec fn if_at(s: Seq<char>, i: int) -> Outcome<BlockView>
    decreases s.len() - i, 15nat,
{
    match cond_body(s, i) {
        Outcome::Miss => Outcome::Fail(i),
        Outcome::Fail(p) => Outcome::Fail(p),
        Outcome::Done((c, b), e) => {
            let k = skip_space(s, e);
            if ahead(s, i, e) && onward(s, e, k) && starts(s, k, word_else())
                && ahead(s, k, k + 4) {
                match block(s, k + 4) {
                    Outcome::Done(o, z) => Outcome::Done(
                        BlockView::If(c, Box::new(b), Some(Box::new(o))),
                        z,
                    ),
                    Outcome::Miss => Outcome::Fail(k + 4),
                    Outcome::Fail(p) => Outcome::Fail(p),
                }
            } else {
                Outcome::Done(BlockView::If(c, Box::new(b), None), e)
            }
        },
    }
}

/// The definition of a procedure: its name, and its body in braces, which
/// begins at `b`.
pub open spec fn proc_at(s: Seq<char>, name: Seq<char>, b: int) -> Outcome<BlockView>
    decreases s.len() - b, 15nat,
{
    match multi(s, b) {
        Outcome::Done(lines, e) => Outcome::Done(
            BlockView::Proc(name, Box::new(BlockView::Multi(lines))),
            e,
        ),
        Outcome::Miss => Outcome::Fail(b),
        Outcome::Fail(p) => Outcome::Fail(p),
    }
}

/// The block at `i`: after white space, `break`, `continue`, a procedure's
/// definition, `while`, `for`, `case`, `if`, a block in braces, or a
/// command, tried in this order.
pub open spec fn block(s: Seq<char>, i: int) -> Outcome<BlockView>
    decreases s.len() - i, 11nat,
{
    let j = skip_space(s, i);
    if !onward(s, i, j) {
        Outcome::Fail(i)
    } else if starts(s, j, word_break()) {
        Outcome::Done(BlockView::Break, j + 5)
    } else if starts(s, j, word_continue()) {
        Outcome::Done(BlockView::Continue, j + 8)
    } else {
        match proc_head(s, j) {
            Some((name, b)) => if ahead(s, j, b) {
                proc_at(s, name, b)
            } else {
                Outcome::Fail(j)
            },
            None => if starts(s, j, word_while()) {
                if ahead(s, j, j + 5) {
                    while_at(s, j + 5)
                } else {
                    Outcome::Fail(j)
                }
            } else if starts(s, j, word_for()) {
                if ahead(s, j, j + 3) {
                    for_at(s, j + 3)
                } else {
                    Outcome::Fail(j)
                }
            } else if starts(s, j, word_case()) {
                if ahead(s, j, j + 4) {
                    case_at(s, j + 4)
                } else {
                    Outcome::Fail(j)
                }
            } else if starts(s, j, word_if()) {
                if ahead(s, j, j + 2) {
                    if_at(s, j + 2)
                } else {
                    Outcome::Fail(j)
                }
            } else if at(s, j, '{') {
                match multi(s, j) {
                    Outcome::Done(lines, e) => Outcome::Done(BlockView::Multi(lines), e),
                    Outcome::Miss => Outcome::Fail(j),
                    Outcome::Fail(p) => Outcome::Fail(p),
                }
            } else {
                match command(s, j) {
                    Outcome::Done(c, e) => Outcome::Done(BlockView::Single(c), e),
                    Outcome::Miss => if j == i {
                        Outcome::Miss
                    } else {
                        Outcome::Fail(j)
                    },
                    Outcome::Fail(p) => Outcome::Fail(p),
                }
            },
        }
    }
}

} // verus!
