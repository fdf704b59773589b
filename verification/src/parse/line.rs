//! Whole lines: a line is one block and nothing after it, or it is not
//! finished yet, or it is wrong.

use super::grammar::{block as block_of, skip_space as space_end, Outcome};
use super::lexical::{spaces_line, Step};
use super::syntax::{Block, BlockView};
use crate::text::{chars_of, decimal, format_usize, texts};
use vstd::prelude::*;
use vstd::string::StringExecFns;

verus! {

/// What a line turned out to be.
#[derive(Debug, PartialEq, Eq)]
pub enum Parsed {
    /// A whole block.
    Complete(Block),
    /// The beginning of a block: more lines have to follow.
    Yet,
}

/// Why a line is not of the language.
#[derive(Clone, Copy, Debug, PartialEq, Eq, Structural)]
pub enum ParseError {
    /// A block was read, and text is left after it, from this position on.
    Unread(usize),
    /// What stands at this position cannot stand there.
    Unexpected(usize),
}

/// What a line is, as a mathematical value.
pub enum Reading {
    Complete(BlockView),
    Yet,
    Wrong(ParseError),
}

/// What the line `s` is: a whole block where one block can be read from
/// its start and only white space follows it; not finished yet where reading fails at the end of
/// the line; wrong where reading fails before the end, or text is left
/// after the block.
#[verifier::opaque]
pub open spec fn reading(s: Seq<char>) -> Reading {
    match block_of(s, 0) {
        Outcome::Done(b, n) => if space_end(s, n) == s.len() {
            Reading::Complete(b)
        } else {
            Reading::Wrong(ParseError::Unread(space_end(s, n) as usize))
        },
        Outcome::Miss => Reading::Wrong(ParseError::Unexpected(0)),
        Outcome::Fail(p) => if p >= s.len() {
            Reading::Yet
        } else {
            Reading::Wrong(ParseError::Unexpected(p as usize))
        },
    }
}

impl ParseError {
    /// The message that goes with the error.
    pub open spec fn text(self) -> Seq<char> {
        match self {
            ParseError::Unread(_) => "Unread characters are remain."@,
            ParseError::Unexpected(p) => "Unexpected character at "@ + decimal(p as nat),
        }
    }

    /// The message that goes with the error.
    pub fn message(&self) -> (r: String)
        ensures
            r@ == self.text(),
    {
        match self {
            ParseError::Unread(_) => String::from_str("Unread characters are remain."),
            ParseError::Unexpected(p) => {
                let mut out = String::from_str("Unexpected character at ");
                out.append(format_usize(*p).as_str());
                out
            },
        }
    }
}

/// Reads the characters of a line.
pub fn parse_chars(s: &Vec<char>) -> (r: Result<Parsed, ParseError>)
    ensures
        match reading(s@) {
            Reading::Complete(b) => r matches Ok(Parsed::Complete(x)) && x@ == b,
            Reading::Yet => r matches Ok(Parsed::Yet),
            Reading::Wrong(e) => r == Err::<Parsed, ParseError>(e),
        },
{
    proof {
        reveal(reading);
    }
    match Block::parse(s, 0) {
        Step::Done(b, n) => {
            let m = spaces_line(s, n);
            if m == s.len() {
                Ok(Parsed::Complete(b))
            } else {
                Err(ParseError::Unread(m))
            }
        },
        Step::Miss => Err(ParseError::Unexpected(0)),
        Step::Fail(p) => if p >= s.len() {
            Ok(Parsed::Yet)
        } else {
            Err(ParseError::Unexpected(p))
        },
    }
}

/// Reads a line: `Complete` with its block, `Yet` where more lines have to
/// follow, or what is wrong with it.
pub fn parse_line(input: &str) -> (r: Result<Parsed, ParseError>)
    ensures
        match reading(input@) {
            Reading::Complete(b) => r matches Ok(Parsed::Complete(x)) && x@ == b,
            Reading::Yet => r matches Ok(Parsed::Yet),
            Reading::Wrong(e) => r == Err::<Parsed, ParseError>(e),
        },
{
    let s = chars_of(input);
    parse_chars(&s)
}

/// What the lines of a script give as their next statement.
pub enum Statement {
    /// A whole block.
    Whole(BlockView),
    /// Text that is not of the language.
    Wrong(ParseError),
    /// The lines ended within a statement.
    Unfinished,
}

/// The statement that begins with `text` and goes on with the lines from
/// `k` on, one line added after a line feed as long as the text is not
/// finished; and the line that follows the statement.
pub open spec fn gathered(lines: Seq<Seq<char>>, k: int, text: Seq<char>) -> (Statement, int)
    decreases lines.len() - k,
{
    match reading(text) {
        Reading::Complete(b) => (Statement::Whole(b), k),
        Reading::Wrong(e) => (Statement::Wrong(e), k),
        Reading::Yet => if 0 <= k < lines.len() {
            gathered(lines, k + 1, text + seq!['\n'] + lines[k])
        } else {
            (Statement::Unfinished, k)
        },
    }
}

/// The next statement of a script, as `gather` gives it.
#[derive(Debug, PartialEq, Eq)]
pub enum Gathered {
    Whole(Block),
    Wrong(ParseError),
    Unfinished,
}

/// Whether what `gather` gave is the statement `t`.
pub open spec fn gathered_is(g: Gathered, t: Statement) -> bool {
    match (g, t) {
        (Gathered::Whole(b), Statement::Whole(v)) => b@ == v,
        (Gathered::Wrong(e), Statement::Wrong(f)) => e == f,
        (Gathered::Unfinished, Statement::Unfinished) => true,
        _ => false,
    }
}

/// The statement that begins with the line `from` of `lines`, and the line
/// that follows it.
pub fn gather(lines: &Vec<String>, from: usize) -> (r: (Gathered, usize))
    requires
        from < lines.len(),
    ensures
        gathered_is(r.0, gathered(texts(lines@), from + 1, lines@[from as int]@).0),
        r.1 == gathered(texts(lines@), from + 1, lines@[from as int]@).1,
        from < r.1 <= lines.len(),
{
    let mut text = lines[from].clone();
    let mut k = from + 1;
    loop
        invariant
            from < k <= lines.len(),
            gathered(texts(lines@), from + 1, lines@[from as int]@) == gathered(
                texts(lines@),
                k as int,
                text@,
            ),
        decreases lines.len() - k,
    {
        match parse_line(text.as_str()) {
            Ok(Parsed::Complete(b)) => {
                return (Gathered::Whole(b), k);
            },
            Err(e) => {
                return (Gathered::Wrong(e), k);
            },
            Ok(Parsed::Yet) => {
                if k >= lines.len() {
                    return (Gathered::Unfinished, k);
                }
                let ghost before = text@;
                text.push('\n');
                text.append(lines[k].as_str());
                proof {
                    assert(text@ =~= before + seq!['\n'] + lines@[k as int]@);
                    assert(texts(lines@)[k as int] == lines@[k as int]@);
                }
                k = k + 1;
            },
        }
    }
}

} // verus!
