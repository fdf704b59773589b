//! What the evaluator and its host say to each other, and what the
//! evaluator keeps between two steps.

use crate::eval::block::{arms_view, blocks_view, Block, BlockView, State};
use crate::eval::command::builtin::{BuiltinError, BuiltinKind};
use crate::eval::command::external::{Arg, ArgView, External, ExternalView};
use crate::eval::command::redirect::{OutMode, RedirectError, Wiring, WiringView};
use crate::job::jobs::Notice;
use crate::job::status::{JobError, Status};
use crate::parse::line::ParseError;
use crate::parse::syntax::{kinds_view, SpecialStr, SpecialStrView, StrKind, StrKindView};
use crate::text::texts;
use vstd::prelude::*;
use vstd::string::StringExecFns;

verus! {

/// Why an evaluation failed.
#[derive(Debug, PartialEq, Eq)]
pub enum EvalError {
    /// A variable that is not set was asked for.
    Unset(String),
    /// A command of the shell's own refused.
    Builtin(BuiltinError),
    /// The job table refused, or the foreground process was interrupted.
    Job(JobError),
    /// A redirection asks a stream to flow the wrong way.
    Redirection(RedirectError),
    /// The host could not do what it was asked to: spawn, open, change the
    /// directory, read a script, or take captured output as text.
    Host(String),
    /// The host answered with something that was not asked for.
    Protocol,
}

/// `EvalError` as a mathematical value.
pub enum EvalErrorView {
    Unset(Seq<char>),
    Builtin(BuiltinError),
    Job(JobError),
    Redirection(RedirectError),
    Host(Seq<char>),
    Protocol,
}

impl View for EvalError {
    type V = EvalErrorView;

    open spec fn view(&self) -> EvalErrorView {
        match self {
            EvalError::Unset(s) => EvalErrorView::Unset(s@),
            EvalError::Builtin(e) => EvalErrorView::Builtin(*e),
            EvalError::Job(e) => EvalErrorView::Job(*e),
            EvalError::Redirection(e) => EvalErrorView::Redirection(*e),
            EvalError::Host(s) => EvalErrorView::Host(s@),
            EvalError::Protocol => EvalErrorView::Protocol,
        }
    }
}

impl EvalErrorView {
    /// The message that goes with the error.
    pub open spec fn text(self) -> Seq<char> {
        match self {
            EvalErrorView::Unset(s) => "environment variable not found: "@ + s,
            EvalErrorView::Builtin(e) => e.text(),
            EvalErrorView::Job(e) => e.text(),
            EvalErrorView::Redirection(e) => e.text(),
            EvalErrorView::Host(s) => s,
            EvalErrorView::Protocol => "Unexpected answer of the host."@,
        }
    }
}

impl EvalError {
    /// The message that goes with the error.
    pub fn message(&self) -> (r: String)
        ensures
            r@ == self@.text(),
    {
        match self {
            EvalError::Unset(s) => {
                let mut out = String::from_str("environment variable not found: ");
                out.append(s.as_str());
                out
            },
            EvalError::Builtin(e) => e.message(),
            EvalError::Job(e) => e.message(),
            EvalError::Redirection(e) => e.message(),
            EvalError::Host(s) => s.clone(),
            EvalError::Protocol => String::from_str("Unexpected answer of the host."),
        }
    }

    /// A copy of the error.
    pub fn copy(&self) -> (r: EvalError)
        ensures
            r@ == self@,
    {
        match self {
            EvalError::Unset(s) => EvalError::Unset(s.clone()),
            EvalError::Builtin(e) => EvalError::Builtin(*e),
            EvalError::Job(e) => EvalError::Job(*e),
            EvalError::Redirection(e) => EvalError::Redirection(*e),
            EvalError::Host(s) => EvalError::Host(s.clone()),
            EvalError::Protocol => EvalError::Protocol,
        }
    }
}

/// Something for the user to read.
#[derive(Debug, PartialEq, Eq)]
pub enum Message {
    /// News of a job. `Started` goes to standard output, the others to
    /// standard error.
    Note(Notice),
    /// A statement of a script failed; the script goes on. To standard
    /// error.
    Fault(EvalError),
    /// A statement of a script is not of the language; the script goes on.
    /// To standard error, after `Parse Error: `.
    Syntax(ParseError),
}

/// `Message` as a mathematical value.
pub enum MessageView {
    Note(Notice),
    Fault(EvalErrorView),
    Syntax(ParseError),
}

impl View for Message {
    type V = MessageView;

    open spec fn view(&self) -> MessageView {
        match self {
            Message::Note(n) => MessageView::Note(*n),
            Message::Fault(e) => MessageView::Fault(e@),
            Message::Syntax(e) => MessageView::Syntax(*e),
        }
    }
}

impl Message {
    /// The line to print. In news of a job, what the system calls a signal
    /// outside the six is left open; the words around the name are not.
    pub fn text(&self) -> (r: String)
        ensures
            self matches Message::Note(n) ==> exists|spelled: Option<Seq<char>>|
                r@ == n.text(spelled),
            self matches Message::Fault(e) ==> r@ == e@.text(),
            self matches Message::Syntax(e) ==> r@ == "Parse Error: "@ + e.text(),
    {
        match self {
            Message::Note(n) => n.message(),
            Message::Fault(e) => e.message(),
            Message::Syntax(e) => {
                let mut out = String::from_str("Parse Error: ");
                out.append(e.message().as_str());
                out
            },
        }
    }

    /// Whether the line goes to standard output; else to standard error.
    pub fn to_stdout(&self) -> (r: bool)
        ensures
            r == (self@ matches MessageView::Note(Notice::Started(_, _))),
    {
        match self {
            Message::Note(Notice::Started(_, _)) => true,
            _ => false,
        }
    }
}

/// The views of a list of messages.
pub open spec fn messages_view(v: Seq<Message>) -> Seq<MessageView> {
    Seq::new(v.len(), |i: int| v[i]@)
}

/// What a child's standard input is to be.
#[derive(Debug, PartialEq, Eq)]
pub enum Input {
    /// The shell's own standard input.
    Inherit,
    /// The standard output of the stage before, through a pipe.
    Previous,
    /// The file of this name, opened for reading.
    File(String),
    /// A pipe into which this text is written once the child runs, and
    /// which is then closed.
    HereDoc(String),
}

/// What one of a child's output streams is to be.
#[derive(Debug, PartialEq, Eq)]
pub enum Output {
    /// The shell's own stream.
    Inherit,
    /// A pipe, for the next stage or for the shell to read.
    Pipe,
    /// The file of this name, opened as the mode says.
    File(OutMode, String),
    /// A duplicate of the descriptor that standard output got.
    Shared,
}

/// One program to run as a stage of a pipeline.
#[derive(Debug, PartialEq, Eq)]
pub struct Stage {
    pub name: String,
    pub args: Vec<String>,
    pub stdin: Input,
    pub stdout: Output,
    pub stderr: Output,
}

/// `Input` as a mathematical value.
pub enum InputView {
    Inherit,
    Previous,
    File(Seq<char>),
    HereDoc(Seq<char>),
}

/// `Output` as a mathematical value.
pub enum OutputView {
    Inherit,
    Pipe,
    File(OutMode, Seq<char>),
    Shared,
}

/// `Stage` as a mathematical value.
pub struct StageView {
    pub name: Seq<char>,
    pub args: Seq<Seq<char>>,
    pub stdin: InputView,
    pub stdout: OutputView,
    pub stderr: OutputView,
}

impl View for Input {
    type V = InputView;

    open spec fn view(&self) -> InputView {
        match self {
            Input::Inherit => InputView::Inherit,
            Input::Previous => InputView::Previous,
            Input::File(s) => InputView::File(s@),
            Input::HereDoc(s) => InputView::HereDoc(s@),
        }
    }
}

impl View for Output {
    type V = OutputView;

    open spec fn view(&self) -> OutputView {
        match self {
            Output::Inherit => OutputView::Inherit,
            Output::Pipe => OutputView::Pipe,
            Output::File(m, s) => OutputView::File(*m, s@),
            Output::Shared => OutputView::Shared,
        }
    }
}

impl View for Stage {
    type V = StageView;

    open spec fn view(&self) -> StageView {
        StageView {
            name: self.name@,
            args: texts(self.args@),
            stdin: self.stdin@,
            stdout: self.stdout@,
            stderr: self.stderr@,
        }
    }
}

/// What the host tells the evaluator.
#[derive(Debug, PartialEq, Eq)]
pub enum Event {
    /// Nothing: go on.
    Resume,
    /// The stage asked for runs, as the process with this id.
    Spawned(i32),
    /// The output of the last stage was read to its end, and the stage has
    /// ended: this is the output.
    Captured(String),
    /// The process waited for has this status.
    Waited(Status),
    /// What was asked for is done.
    Done,
    /// The script asked for holds these lines.
    Script(Vec<String>),
    /// What was asked for could not be done.
    Failed(String),
}

/// What the evaluator asks of the host. The host answers each with the
/// event named, or with `Failed`.
#[derive(Debug, PartialEq, Eq)]
pub enum Action {
    /// Nothing: answer `Resume`.
    Continue,
    /// Run this program, its streams wired as said; where its input is the
    /// stage before, that is the stage spawned last. Answer `Spawned`.
    Spawn(Stage),
    /// Read what the stage spawned last writes to its piped standard output,
    /// to the end, and wait for the stage. Answer `Captured`.
    Capture,
    /// Wait, with the job table unlocked, until the process with this id
    /// ends or is stopped. Answer `Waited`.
    Wait(i32),
    /// Change the working directory. Answer `Done`.
    Chdir(String),
    /// End the shell with this code.
    Exit(i32),
    /// Show the job table. Answer `Done`.
    ShowJobs,
    /// Read the script in this file. Answer `Script`.
    ReadScript(String),
    /// The evaluation is over, and this is how it ended.
    Finished(Result<(), EvalError>),
}

/// `Event` as a mathematical value.
pub enum EventView {
    Resume,
    Spawned(i32),
    Captured(Seq<char>),
    Waited(Status),
    Done,
    Script(Seq<Seq<char>>),
    Failed(Seq<char>),
}

/// `Action` as a mathematical value.
pub enum ActionView {
    Continue,
    Spawn(StageView),
    Capture,
    Wait(i32),
    Chdir(Seq<char>),
    Exit(i32),
    ShowJobs,
    ReadScript(Seq<char>),
    Finished(Result<(), EvalErrorView>),
}

impl View for Event {
    type V = EventView;

    open spec fn view(&self) -> EventView {
        match self {
            Event::Resume => EventView::Resume,
            Event::Spawned(p) => EventView::Spawned(*p),
            Event::Captured(s) => EventView::Captured(s@),
            Event::Waited(s) => EventView::Waited(*s),
            Event::Done => EventView::Done,
            Event::Script(v) => EventView::Script(texts(v@)),
            Event::Failed(s) => EventView::Failed(s@),
        }
    }
}

impl View for Action {
    type V = ActionView;

    open spec fn view(&self) -> ActionView {
        match self {
            Action::Continue => ActionView::Continue,
            Action::Spawn(s) => ActionView::Spawn(s@),
            Action::Capture => ActionView::Capture,
            Action::Wait(p) => ActionView::Wait(*p),
            Action::Chdir(s) => ActionView::Chdir(s@),
            Action::Exit(c) => ActionView::Exit(*c),
            Action::ShowJobs => ActionView::ShowJobs,
            Action::ReadScript(s) => ActionView::ReadScript(s@),
            Action::Finished(r) => ActionView::Finished(
                match r {
                    Ok(()) => Ok(()),
                    Err(e) => Err(e@),
                },
            ),
        }
    }
}

/// What a finished piece of work hands to the work that waits for it.
#[derive(Debug)]
pub enum Value {
    /// Nothing but the fact that it is done.
    Unit,
    Text(String),
    List(Vec<String>),
    Flow(State),
    Pid(i32),
    Status(Status),
}

/// `Value` as a mathematical value.
pub enum ValueView {
    Unit,
    Text(Seq<char>),
    List(Seq<Seq<char>>),
    Flow(State),
    Pid(i32),
    Status(Status),
}

impl View for Value {
    type V = ValueView;

    open spec fn view(&self) -> ValueView {
        match self {
            Value::Unit => ValueView::Unit,
            Value::Text(s) => ValueView::Text(s@),
            Value::List(v) => ValueView::List(texts(v@)),
            Value::Flow(f) => ValueView::Flow(*f),
            Value::Pid(p) => ValueView::Pid(*p),
            Value::Status(s) => ValueView::Status(*s),
        }
    }
}

/// Work that waits: for its turn, or for the value of the work above it.
#[derive(Debug)]
pub enum Frame {
    /// A block to evaluate.
    Run(Block),
    /// The lines of a block in braces, from the given one on.
    Lines(Vec<Block>, usize),
    /// An open scope of the namespace, to close when what is above is done.
    Scope,
    /// `if`: the two branches, waiting for the condition's value.
    Cond(Block, Option<Block>),
    /// `case`: the arms, the arm and the pattern that are next, and whether
    /// a pattern of the arm was the value compared; waiting for that value
    /// first, then for each pattern's.
    Pats(Option<String>, Vec<(Vec<SpecialStr>, Block)>, usize, usize, bool),
    /// `for`: the variable and the body, waiting for the text to run
    /// through.
    ForOf(String, Block),
    /// `for`: the variable, the values and the one that is next, the body.
    Each(String, Vec<String>, usize, Block),
    /// `while`: the condition and the body, waiting for the condition's
    /// value.
    WhileOf(SpecialStr, Block),
    /// `while`: the condition and the body, waiting for the body to end.
    Again(SpecialStr, Block),
    /// After a command: the foreground process is to be waited for.
    Settle,
    /// After a command: waiting for the foreground process's status.
    Settled,
    /// A command, waiting for its name's value.
    Named(External),
    /// A procedure's call: the name and the body, waiting for the
    /// arguments.
    Call(String, Block),
    /// Whatever comes is taken for done.
    Swallow,
    /// A command of the shell's own, waiting for the arguments.
    Built(BuiltinKind),
    /// `source`: the file and the arguments, waiting for the lines.
    Script(String, Vec<String>),
    /// `source`: the lines, and the one that is next.
    Feed(Vec<String>, usize),
    /// A statement of a script: a failure above stops here.
    Catch,
    /// A stage of a pipeline, waiting for its name's value: whether it is
    /// the first, whether the pipeline's output is captured, and whether a
    /// stage before it asked for the background.
    StageName(External, bool, bool, bool),
    /// A stage with its name, waiting for its arguments.
    StageArgs(External, String, bool, bool, bool),
    /// A stage with its name and arguments and the wiring of its streams,
    /// waiting for the names of the files in the wiring: what follows the
    /// stage in the pipeline, the name, the arguments, the wiring, whether
    /// the output is captured, whether the pipeline runs in the background.
    StageWires(Option<External>, String, Vec<String>, Wiring, bool, bool),
    /// A stage that is being spawned: what follows it in the pipeline,
    /// whether the output is captured, whether the pipeline runs in the
    /// background.
    Spawned(Option<External>, bool, bool),
    /// Captured output, to be rid of the white space at its end.
    Trim,
    /// A special string: the fragments, the one that is next, and the text
    /// so far.
    Parts(Vec<StrKind>, usize, String),
    /// Arguments: as written, the one that is next, and the values so far.
    Words(Vec<Arg>, usize, Vec<String>),
}

/// `Frame` as a mathematical value.
pub enum FrameView {
    Run(BlockView),
    Lines(Seq<BlockView>, nat),
    Scope,
    Cond(BlockView, Option<BlockView>),
    Pats(Option<Seq<char>>, Seq<(Seq<SpecialStrView>, BlockView)>, nat, nat, bool),
    ForOf(Seq<char>, BlockView),
    Each(Seq<char>, Seq<Seq<char>>, nat, BlockView),
    WhileOf(SpecialStrView, BlockView),
    Again(SpecialStrView, BlockView),
    Settle,
    Settled,
    Named(ExternalView),
    Call(Seq<char>, BlockView),
    Swallow,
    Built(BuiltinKind),
    Script(Seq<char>, Seq<Seq<char>>),
    Feed(Seq<Seq<char>>, nat),
    Catch,
    StageName(ExternalView, bool, bool, bool),
    StageArgs(ExternalView, Seq<char>, bool, bool, bool),
    StageWires(Option<ExternalView>, Seq<char>, Seq<Seq<char>>, WiringView, bool, bool),
    Spawned(Option<ExternalView>, bool, bool),
    Trim,
    Parts(Seq<StrKindView>, nat, Seq<char>),
    Words(Seq<ArgView>, nat, Seq<Seq<char>>),
}

/// The view of an optional block.
pub open spec fn block_opt(e: Option<Block>) -> Option<BlockView> {
    match e {
        Some(b) => Some(b@),
        None => None,
    }
}

/// The view of an optional command.
pub open spec fn ext_opt(e: Option<External>) -> Option<ExternalView> {
    match e {
        Some(b) => Some(b@),
        None => None,
    }
}

/// The view of an optional text.
pub open spec fn text_opt(e: Option<String>) -> Option<Seq<char>> {
    match e {
        Some(b) => Some(b@),
        None => None,
    }
}

/// The views of a list of arguments as written.
pub open spec fn words_view(v: Seq<Arg>) -> Seq<ArgView> {
    Seq::new(v.len(), |i: int| v[i]@)
}

impl View for Frame {
    type V = FrameView;

    open spec fn view(&self) -> FrameView {
        match self {
            Frame::Run(b) => FrameView::Run(b@),
            Frame::Lines(v, n) => FrameView::Lines(blocks_view(v@), *n as nat),
            Frame::Scope => FrameView::Scope,
            Frame::Cond(a, e) => FrameView::Cond(a@, block_opt(*e)),
            Frame::Pats(c, arms, a, p, hit) => FrameView::Pats(
                text_opt(*c),
                arms_view(arms@),
                *a as nat,
                *p as nat,
                *hit,
            ),
            Frame::ForOf(x, b) => FrameView::ForOf(x@, b@),
            Frame::Each(x, v, n, b) => FrameView::Each(x@, texts(v@), *n as nat, b@),
            Frame::WhileOf(c, b) => FrameView::WhileOf(c@, b@),
            Frame::Again(c, b) => FrameView::Again(c@, b@),
            Frame::Settle => FrameView::Settle,
            Frame::Settled => FrameView::Settled,
            Frame::Named(e) => FrameView::Named(e@),
            Frame::Call(n, b) => FrameView::Call(n@, b@),
            Frame::Swallow => FrameView::Swallow,
            Frame::Built(k) => FrameView::Built(*k),
            Frame::Script(f, a) => FrameView::Script(f@, texts(a@)),
            Frame::Feed(l, n) => FrameView::Feed(texts(l@), *n as nat),
            Frame::Catch => FrameView::Catch,
            Frame::StageName(e, first, capture, bg) => FrameView::StageName(
                e@,
                *first,
                *capture,
                *bg,
            ),
            Frame::StageArgs(e, n, first, capture, bg) => FrameView::StageArgs(
                e@,
                n@,
                *first,
                *capture,
                *bg,
            ),
            Frame::StageWires(e, n, a, w, capture, bg) => FrameView::StageWires(
                ext_opt(*e),
                n@,
                texts(a@),
                w@,
                *capture,
                *bg,
            ),
            Frame::Spawned(next, capture, bg) => FrameView::Spawned(
                ext_opt(*next),
                *capture,
                *bg,
            ),
            Frame::Trim => FrameView::Trim,
            Frame::Parts(p, n, acc) => FrameView::Parts(kinds_view(p@), *n as nat, acc@),
            Frame::Words(a, n, acc) => FrameView::Words(words_view(a@), *n as nat, texts(acc@)),
        }
    }
}

/// The views of a stack of frames.
pub open spec fn frames_view(v: Seq<Frame>) -> Seq<FrameView> {
    Seq::new(v.len(), |i: int| v[i]@)
}

} // verus!
