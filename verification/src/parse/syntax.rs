//! The syntax tree of the command language, and what each node is as a
//! mathematical value.

use vstd::prelude::*;

verus! {

/// One fragment of a special string.
#[derive(Debug, PartialEq, Eq)]
pub enum StrKind {
    /// Text taken as it stands.
    String(String),
    /// The value of the named variable.
    Var(String),
    /// The captured output of a command.
    Cmd(Command),
    /// The process id of the job with this id.
    Pid(usize),
}

/// Text with variables, command substitutions and job references embedded in
/// it: a sequence of fragments, rendered left to right and joined.
#[derive(Debug, PartialEq, Eq)]
pub struct SpecialStr(pub Vec<StrKind>);

/// Which stream a redirection touches, and how.
#[derive(Clone, Copy, Debug, PartialEq, Eq, Structural)]
pub enum RedKind {
    AppendStdout,
    OverwriteStdout,
    AppendStderr,
    OverwriteStderr,
    AppendBoth,
    OverwriteBoth,
    Stdin,
    HereDoc,
}

/// Where a redirection points.
#[derive(Debug, PartialEq, Eq)]
pub enum RedTarget {
    Stdin,
    Stdout,
    Stderr,
    Null,
    Other(SpecialStr),
}

/// One redirection of a command.
#[derive(Debug, PartialEq, Eq)]
pub struct Redirect {
    pub kind: RedKind,
    pub target: RedTarget,
}

/// One word after the command's name.
#[derive(Debug, PartialEq, Eq)]
pub enum Arg {
    /// Written `!text`: the value is split on white space into arguments.
    ExpandArg(SpecialStr),
    /// One argument, whatever its value holds.
    Arg(SpecialStr),
    /// A redirection.
    Redirect(Redirect),
}

/// A command as written: a name, arguments and redirections, an optional
/// right-hand side of a pipe, and whether the whole runs in the background.
#[derive(Debug, PartialEq, Eq)]
pub struct Command {
    pub name: SpecialStr,
    pub args: Vec<Arg>,
    pub pipe: Option<Box<Command>>,
    pub bg: bool,
}

/// A statement of the language.
#[derive(Debug, PartialEq, Eq)]
pub enum Block {
    Single(Command),
    Multi(Vec<Block>),
    If(SpecialStr, Box<Block>, Option<Box<Block>>),
    Case(SpecialStr, Vec<(Vec<SpecialStr>, Block)>),
    For(String, SpecialStr, Box<Block>),
    While(SpecialStr, Box<Block>),
    Proc(String, Box<Block>),
    Break,
    Continue,
}

/// `StrKind` as a mathematical value.
pub enum StrKindView {
    String(Seq<char>),
    Var(Seq<char>),
    Cmd(CommandView),
    Pid(nat),
}

/// `SpecialStr` as a mathematical value.
pub struct SpecialStrView {
    pub parts: Seq<StrKindView>,
}

/// `RedTarget` as a mathematical value.
pub enum RedTargetView {
    Stdin,
    Stdout,
    Stderr,
    Null,
    Other(SpecialStrView),
}

/// `Redirect` as a mathematical value.
pub struct RedirectView {
    pub kind: RedKind,
    pub target: RedTargetView,
}

/// `Arg` as a mathematical value.
pub enum ArgView {
    ExpandArg(SpecialStrView),
    Arg(SpecialStrView),
    Redirect(RedirectView),
}

/// `Command` as a mathematical value.
pub struct CommandView {
    pub name: SpecialStrView,
    pub args: Seq<ArgView>,
    pub pipe: Option<Box<CommandView>>,
    pub bg: bool,
}

/// `Block` as a mathematical value.
pub enum BlockView {
    Single(CommandView),
    Multi(Seq<BlockView>),
    If(SpecialStrView, Box<BlockView>, Option<Box<BlockView>>),
    Case(SpecialStrView, Seq<(Seq<SpecialStrView>, BlockView)>),
    For(Seq<char>, SpecialStrView, Box<BlockView>),
    While(SpecialStrView, Box<BlockView>),
    Proc(Seq<char>, Box<BlockView>),
    Break,
    Continue,
}

impl SpecialStrView {
    /// The string with no fragment.
    pub open spec fn empty() -> SpecialStrView {
        SpecialStrView { parts: Seq::empty() }
    }

    /// The string made of one piece of plain text.
    pub open spec fn text(s: Seq<char>) -> SpecialStrView {
        SpecialStrView { parts: seq![StrKindView::String(s)] }
    }
}

impl CommandView {
    /// The command with no name, no argument and no pipe, in the foreground.
    pub open spec fn empty() -> CommandView {
        CommandView { name: SpecialStrView::empty(), args: Seq::empty(), pipe: None, bg: false }
    }
}

/// The views of a list of fragments.
pub open spec fn kinds_view(v: Seq<StrKind>) -> Seq<StrKindView>
    decreases v, 1nat,
{
    Seq::new(
        v.len(),
        |i: int|
            if 0 <= i < v.len() {
                v[i]@
            } else {
                StrKindView::Pid(0)
            },
    )
}

/// The views of a list of arguments.
pub open spec fn args_view(v: Seq<Arg>) -> Seq<ArgView>
    decreases v, 1nat,
{
    Seq::new(
        v.len(),
        |i: int|
            if 0 <= i < v.len() {
                v[i]@
            } else {
                ArgView::Arg(SpecialStrView::empty())
            },
    )
}

/// The view of what stands to the right of a pipe, if anything.
pub open spec fn pipe_view(p: Option<Box<Command>>) -> Option<Box<CommandView>>
    decreases p, 1nat,
{
    match p {
        Some(b) => Some(Box::new((*b)@)),
        None => None,
    }
}

impl View for StrKind {
    type V = StrKindView;

    open spec fn view(&self) -> StrKindView
        decreases self, 0nat,
    {
        match self {
            StrKind::String(s) => StrKindView::String(s@),
            StrKind::Var(s) => StrKindView::Var(s@),
            StrKind::Cmd(c) => StrKindView::Cmd(c@),
            StrKind::Pid(n) => StrKindView::Pid(*n as nat),
        }
    }
}

impl View for SpecialStr {
    type V = SpecialStrView;

    open spec fn view(&self) -> SpecialStrView
        decreases self, 0nat,
    {
        SpecialStrView { parts: kinds_view(self.0@) }
    }
}

impl View for RedTarget {
    type V = RedTargetView;

    open spec fn view(&self) -> RedTargetView
        decreases self, 0nat,
    {
        match self {
            RedTarget::Stdin => RedTargetView::Stdin,
            RedTarget::Stdout => RedTargetView::Stdout,
            RedTarget::Stderr => RedTargetView::Stderr,
            RedTarget::Null => RedTargetView::Null,
            RedTarget::Other(s) => RedTargetView::Other(s@),
        }
    }
}

impl View for Redirect {
    type V = RedirectView;

    open spec fn view(&self) -> RedirectView
        decreases self, 0nat,
    {
        RedirectView { kind: self.kind, target: self.target@ }
    }
}

impl View for Arg {
    type V = ArgView;

    open spec fn view(&self) -> ArgView
        decreases self, 0nat,
    {
        match self {
            Arg::ExpandArg(s) => ArgView::ExpandArg(s@),
            Arg::Arg(s) => ArgView::Arg(s@),
            Arg::Redirect(r) => ArgView::Redirect(r@),
        }
    }
}

impl View for Command {
    type V = CommandView;

    open spec fn view(&self) -> CommandView
        decreases self, 0nat,
    {
        CommandView {
            name: self.name@,
            args: args_view(self.args@),
            pipe: pipe_view(self.pipe),
            bg: self.bg,
        }
    }
}

/// The views of a list of special strings.
pub open spec fn strs_view(v: Seq<SpecialStr>) -> Seq<SpecialStrView> {
    Seq::new(v.len(), |i: int| v[i]@)
}

/// The views of a list of blocks.
pub open spec fn blocks_view(v: Seq<Block>) -> Seq<BlockView>
    decreases v, 1nat,
{
    Seq::new(
        v.len(),
        |i: int|
            if 0 <= i < v.len() {
                v[i]@
            } else {
                BlockView::Break
            },
    )
}

/// The views of the arms of a `case`.
pub open spec fn arms_view(v: Seq<(Vec<SpecialStr>, Block)>) -> Seq<
    (Seq<SpecialStrView>, BlockView),
>
    decreases v, 1nat,
{
    Seq::new(
        v.len(),
        |i: int|
            if 0 <= i < v.len() {
                (strs_view(v[i].0@), v[i].1@)
            } else {
                (Seq::empty(), BlockView::Break)
            },
    )
}

/// The view of a block held in a box.
pub open spec fn boxed_view(b: Box<Block>) -> Box<BlockView>
    decreases b, 1nat,
{
    Box::new((*b)@)
}

/// The view of an optional block held in a box.
pub open spec fn opt_boxed_view(b: Option<Box<Block>>) -> Option<Box<BlockView>>
    decreases b, 0nat,
{
    match b {
        Some(x) => Some(boxed_view(x)),
        None => None,
    }
}

impl View for Block {
    type V = BlockView;

    open spec fn view(&self) -> BlockView
        decreases self, 0nat,
    {
        match self {
            Block::Single(c) => BlockView::Single(c@),
            Block::Multi(v) => BlockView::Multi(blocks_view(v@)),
            Block::If(c, a, b) => BlockView::If(c@, boxed_view(*a), opt_boxed_view(*b)),
            Block::Case(c, arms) => BlockView::Case(c@, arms_view(arms@)),
            Block::For(x, it, b) => BlockView::For(x@, it@, boxed_view(*b)),
            Block::While(c, b) => BlockView::While(c@, boxed_view(*b)),
            Block::Proc(n, b) => BlockView::Proc(n@, boxed_view(*b)),
            Block::Break => BlockView::Break,
            Block::Continue => BlockView::Continue,
        }
    }
}

/// The views of a list of fragments are the fragments' views, one for one.
pub proof fn lemma_kinds_view(v: Seq<StrKind>)
    ensures
        kinds_view(v).len() == v.len(),
        forall|i: int| 0 <= i < v.len() ==> kinds_view(v)[i] == (#[trigger] v[i])@,
{
}

/// The views of a list of arguments are the arguments' views, one for one.
pub proof fn lemma_args_view(v: Seq<Arg>)
    ensures
        args_view(v).len() == v.len(),
        forall|i: int| 0 <= i < v.len() ==> args_view(v)[i] == (#[trigger] v[i])@,
{
}

/// The views of a list of blocks are the blocks' views, one for one.
pub proof fn lemma_blocks_view(v: Seq<Block>)
    ensures
        blocks_view(v).len() == v.len(),
        forall|i: int| 0 <= i < v.len() ==> blocks_view(v)[i] == (#[trigger] v[i])@,
{
}

/// The views of the arms of a `case` are the arms' views, one for one.
pub proof fn lemma_arms_view(v: Seq<(Vec<SpecialStr>, Block)>)
    ensures
        arms_view(v).len() == v.len(),
        forall|i: int|
            0 <= i < v.len() ==> arms_view(v)[i] == (strs_view((#[trigger] v[i]).0@), v[i].1@),
{
}

impl SpecialStr {
    /// The empty special string.
    pub fn new() -> (r: SpecialStr)
        ensures
            r@ == SpecialStrView::empty(),
    {
        let r = SpecialStr(Vec::new());
        proof {
            lemma_kinds_view(r.0@);
            assert(r@.parts =~= Seq::empty());
        }
        r
    }

    /// The special string that renders as `s`, whatever the state.
    pub fn from(s: String) -> (r: SpecialStr)
        ensures
            r@ == SpecialStrView::text(s@),
    {
        let ghost text = s@;
        let mut v: Vec<StrKind> = Vec::new();
        v.push(StrKind::String(s));
        let r = SpecialStr(v);
        proof {
            lemma_kinds_view(r.0@);
            assert(r@.parts =~= seq![StrKindView::String(text)]);
        }
        r
    }
}

impl Command {
    /// The empty command, which does nothing.
    pub fn empty() -> (r: Command)
        ensures
            r@ == CommandView::empty(),
    {
        let name = SpecialStr::new();
        let r = Command { name, args: Vec::new(), pipe: None, bg: false };
        proof {
            lemma_args_view(r.args@);
            assert(r@.args =~= Seq::empty());
        }
        r
    }
}

} // verus!
