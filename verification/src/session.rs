//! The session: lines come one at a time, and a statement may take several.
//!
//! The session keeps the text of a statement that is not finished yet. Each
//! line is added to it after a line feed, and the whole is read again, so a
//! statement comes out the same whether it came as one line or as many.

use crate::eval::block::{lowered_block, Block};
use crate::parse::line::{gathered, parse_line, reading, ParseError, Parsed, Reading, Statement};
use crate::parse::syntax::BlockView;
use vstd::prelude::*;
use vstd::string::StringExecFns;

verus! {

/// What became of a line.
#[derive(Debug, PartialEq, Eq)]
pub enum Fed {
    /// With it a statement is whole: this is the block to evaluate.
    Ready(Block),
    /// The statement is not finished: another line has to follow.
    More,
    /// The text is not of the language; it is dropped.
    Rejected(ParseError),
}

/// The lines of a statement that is not finished yet.
#[derive(Debug)]
pub struct Session {
    pending: Option<String>,
}

/// The text that is read when `line` comes after the text `pending`.
pub open spec fn joined_with(pending: Option<Seq<char>>, line: Seq<char>) -> Seq<char> {
    match pending {
        Some(p) => p + seq!['\n'] + line,
        None => line,
    }
}

impl View for Session {
    type V = Option<Seq<char>>;

    closed spec fn view(&self) -> Option<Seq<char>> {
        match self.pending {
            Some(p) => Some(p@),
            None => None,
        }
    }
}

impl Session {
    /// A session at the start of a statement.
    pub fn new() -> (r: Session)
        ensures
            r@ is None,
    {
        Session { pending: None }
    }

    /// Whether a statement has begun and is not finished: the next line
    /// continues it.
    pub fn pending(&self) -> (r: bool)
        ensures
            r == (self@ is Some),
    {
        self.pending.is_some()
    }

    /// Takes the next line. The line is added to the text that waits, and
    /// the whole text is read: a whole statement is handed out and nothing
    /// waits any more; an unfinished one goes on waiting; a wrong one is
    /// dropped.
    pub fn feed(&mut self, line: &str) -> (r: Fed)
        ensures
            match reading(joined_with(old(self)@, line@)) {
                Reading::Complete(b) => r matches Fed::Ready(x) && x@ == lowered_block(b)
                    && final(self)@ is None,
                Reading::Yet => r == Fed::More && final(self)@ == Some(
                    joined_with(old(self)@, line@),
                ),
                Reading::Wrong(e) => r == Fed::Rejected(e) && final(self)@ is None,
            },
    {
        let mut waiting: Option<String> = None;
        std::mem::swap(&mut waiting, &mut self.pending);
        let text = match waiting {
            Some(p) => {
                let mut t = p;
                t.push('\n');
                t.append(line);
                t
            },
            None => String::from_str(line),
        };
        assert(text@ =~= joined_with(old(self)@, line@));
        match parse_line(text.as_str()) {
            Ok(Parsed::Complete(b)) => Fed::Ready(Block::from(b)),
            Ok(Parsed::Yet) => {
                self.pending = Some(text);
                Fed::More
            },
            Err(e) => Fed::Rejected(e),
        }
    }

    /// The input has ended. At the start of a statement the session is
    /// over, and the answer is `false`. Within a statement the session goes
    /// on, and the answer is `true`: what there is of the statement is
    /// dropped, and nothing of it is evaluated.
    pub fn at_end(&mut self) -> (goes_on: bool)
        ensures
            goes_on == (old(self)@ is Some),
            final(self)@ is None,
    {
        let goes_on = self.pending.is_some();
        self.pending = None;
        goes_on
    }

    /// Drops a statement that is not finished.
    pub fn end(&mut self)
        ensures
            final(self)@ is None,
    {
        self.pending = None;
    }
}

/// The lines from `k` up to `n`, each after a line feed.
pub open spec fn continued(lines: Seq<Seq<char>>, k: int, n: int) -> Seq<char>
    decreases n - k,
{
    if k >= n || k < 0 || n > lines.len() {
        Seq::empty()
    } else {
        seq!['\n'] + lines[k] + continued(lines, k + 1, n)
    }
}

/// A statement gathered from several lines is the statement that the same
/// lines give as one text, with line feeds between them.
pub proof fn law_lines_as_one_text(
    lines: Seq<Seq<char>>,
    k: int,
    text: Seq<char>,
    b: BlockView,
    n: int,
)
    requires
        0 <= k <= lines.len(),
        gathered(lines, k, text) == (Statement::Whole(b), n),
    ensures
        k <= n <= lines.len(),
        reading(text + continued(lines, k, n)) == Reading::Complete(b),
    decreases lines.len() - k,
{
    match reading(text) {
        Reading::Complete(x) => {
            assert(text + continued(lines, k, n) =~= text);
        },
        Reading::Wrong(e) => {},
        Reading::Yet => {
            if k < lines.len() {
                let more = text + seq!['\n'] + lines[k];
                law_lines_as_one_text(lines, k + 1, more, b, n);
                assert(more + continued(lines, k + 1, n) =~= text + continued(lines, k, n));
            }
        },
    }
}

} // verus!
