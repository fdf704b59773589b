//! What a step of the evaluator does, stated on mathematical values.
//!
//! A machine is a stack of frames, the value that the work done last
//! handed on, the namespace, and the messages for the user that no one has
//! fetched yet. A step takes the frame on top and the value, and says what
//! the stack, the namespace and the job table are afterwards and what the
//! host is to do.

use super::types::{
    ActionView, EvalErrorView, EventView, FrameView, InputView, MessageView, OutputView, StageView,
    ValueView,
};
use crate::eval::block::{lowered_block, BlockView, State};
use crate::eval::command::builtin::{
    assignment, builtin_named, exit_code, fg_done, BuiltinError, BuiltinKind,
};
use crate::eval::command::external::{lowered, ArgView, ExternalView};
use crate::eval::command::redirect::{wired, InWireView, OutWireView, WiringView};
use crate::eval::namespace::vars::VarsView;
use crate::eval::namespace::NameSpaceView;
use crate::job::jobs::{smallest_free, Jobs, Notice, Waited};
use crate::job::process::Process;
use crate::job::status::{JobError, Status};
use crate::parse::line::{gathered, Statement};
use crate::parse::syntax::{SpecialStrView, StrKindView};
use crate::text::{is_truthy, signed_decimal, split_on, trimmed_end, words_of};
use vstd::prelude::*;

verus! {

/// What a machine is.
pub struct MachineView {
    /// The work that waits, the next on top, which is the end.
    pub stack: Seq<FrameView>,
    /// What the work done last handed on.
    pub value: ValueView,
    /// The variables and the procedures.
    pub ns: NameSpaceView,
    /// The messages that wait to be fetched.
    pub out: Seq<MessageView>,
    /// How many scopes were open when the machine was made.
    pub base: nat,
}

/// A job table.
pub type Table = Map<nat, Process>;

/// How many scopes the frames of a stack hold open.
pub open spec fn scopes(stack: Seq<FrameView>) -> nat
    decreases stack.len(),
{
    if stack.len() == 0 {
        0
    } else {
        scopes(stack.drop_last()) + if stack.last() is Scope {
            1nat
        } else {
            0nat
        }
    }
}

impl MachineView {
    /// Whether the open scopes are those that were open at the start and
    /// those that the stack holds open.
    pub open spec fn balanced(self) -> bool {
        self.ns.vars.wf() && self.ns.vars.depth() == self.base + scopes(self.stack)
    }

    /// With `value` handed on to the frame on top, and nothing asked of the
    /// host.
    pub open spec fn yields(self, value: ValueView) -> (MachineView, ActionView) {
        (MachineView { value, ..self }, ActionView::Continue)
    }

    /// With the frame `a` put on the stack and `value` handed on.
    pub open spec fn goes1(self, a: FrameView, value: ValueView) -> (MachineView, ActionView) {
        (MachineView { stack: self.stack.push(a), value, ..self }, ActionView::Continue)
    }

    /// With the frames `a` and `b` put on the stack, `b` on top, and `value`
    /// handed on.
    pub open spec fn goes2(self, a: FrameView, b: FrameView, value: ValueView) -> (
        MachineView,
        ActionView,
    ) {
        (MachineView { stack: self.stack.push(a).push(b), value, ..self }, ActionView::Continue)
    }

    /// With the frames `a`, `b` and `c` put on the stack, `c` on top, and
    /// `value` handed on.
    pub open spec fn goes3(
        self,
        a: FrameView,
        b: FrameView,
        c: FrameView,
        value: ValueView,
    ) -> (MachineView, ActionView) {
        (
            MachineView { stack: self.stack.push(a).push(b).push(c), value, ..self },
            ActionView::Continue,
        )
    }

    /// With `act` asked of the host.
    pub open spec fn asks0(self, act: ActionView) -> (MachineView, ActionView) {
        (MachineView { value: ValueView::Unit, ..self }, act)
    }

    /// With the frame `a` put on the stack and `act` asked of the host.
    pub open spec fn asks1(self, a: FrameView, act: ActionView) -> (MachineView, ActionView) {
        (MachineView { stack: self.stack.push(a), value: ValueView::Unit, ..self }, act)
    }

    /// After the failure `err`: the stack is taken down to the statement of
    /// a script that the failure belongs to, which is then over, with a
    /// message left for the user; without such a statement the whole
    /// evaluation is over with that failure. Each scope on the way is
    /// closed.
    pub open spec fn fails(self, err: EvalErrorView) -> (MachineView, ActionView) {
        let u = unwound(self.stack, self.ns.vars);
        let m = MachineView {
            stack: u.0,
            ns: NameSpaceView { vars: u.1, ..self.ns },
            value: ValueView::Unit,
            ..self
        };
        if u.2 {
            (MachineView { out: self.out.push(MessageView::Fault(err)), ..m }, ActionView::Continue)
        } else {
            (m, ActionView::Finished(Err(err)))
        }
    }

    /// With the variables `vars`.
    pub open spec fn with_vars(self, vars: VarsView) -> MachineView {
        MachineView { ns: NameSpaceView { vars, ..self.ns }, ..self }
    }

    /// With one more message for the user.
    pub open spec fn tells(self, msg: MessageView) -> MachineView {
        MachineView { out: self.out.push(msg), ..self }
    }
}

/// A stack taken down after a failure: the frames that are left, the
/// variables after the scopes on the way were closed, and whether a
/// statement of a script stopped the fall.
pub open spec fn unwound(stack: Seq<FrameView>, vars: VarsView) -> (Seq<FrameView>, VarsView, bool)
    decreases stack.len(),
{
    if stack.len() == 0 {
        (stack, vars, false)
    } else if stack.last() is Catch {
        (stack.drop_last(), vars, true)
    } else if stack.last() is Scope {
        unwound(stack.drop_last(), vars.dropped())
    } else {
        unwound(stack.drop_last(), vars)
    }
}

/// The frame that evaluates a special string from its start.
pub open spec fn text_of(s: SpecialStrView) -> FrameView {
    FrameView::Parts(s.parts, 0, Seq::empty())
}

/// The frame that evaluates arguments from the first on.
pub open spec fn list_of(args: Seq<ArgView>) -> FrameView {
    FrameView::Words(args, 0, Seq::empty())
}

/// A block's turn has come.
pub open spec fn on_run(m: MachineView, b: BlockView) -> (MachineView, ActionView) {
    match b {
        BlockView::Single(c) => m.goes3(
            FrameView::Settle,
            FrameView::Named(c),
            text_of(c.name),
            ValueView::Unit,
        ),
        BlockView::Multi(lines) => m.with_vars(m.ns.vars.marked()).goes2(
            FrameView::Scope,
            FrameView::Lines(lines, 0),
            ValueView::Flow(State::Normal),
        ),
        BlockView::If(c, a, e) => m.goes2(
            FrameView::Cond(*a, unboxed_block(e)),
            text_of(c),
            ValueView::Unit,
        ),
        BlockView::Case(c, arms) => m.goes2(
            FrameView::Pats(None, arms, 0, 0, false),
            text_of(c),
            ValueView::Unit,
        ),
        BlockView::For(x, it, body) => m.with_vars(m.ns.vars.marked()).goes3(
            FrameView::Scope,
            FrameView::ForOf(x, *body),
            text_of(it),
            ValueView::Unit,
        ),
        BlockView::While(c, body) => m.goes2(
            FrameView::WhileOf(c, *body),
            text_of(c),
            ValueView::Unit,
        ),
        BlockView::Proc(name, body) => MachineView {
            ns: NameSpaceView { procs: m.ns.procs.insert(name, *body), ..m.ns },
            ..m
        }.yields(ValueView::Flow(State::Normal)),
        BlockView::Break => m.yields(ValueView::Flow(State::Breaked)),
        BlockView::Continue => m.yields(ValueView::Flow(State::Continued)),
    }
}

/// The lines of a block in braces: the next line runs as long as the one
/// before ended normally; a `break` or `continue` on its way ends the
/// block and goes on up.
pub open spec fn on_lines(m: MachineView, lines: Seq<BlockView>, n: nat, v: ValueView) -> (
    MachineView,
    ActionView,
) {
    match v {
        ValueView::Flow(f) => if f == State::Normal && n < lines.len() {
            m.goes2(
                FrameView::Lines(lines, n + 1),
                FrameView::Run(lines[n as int]),
                ValueView::Unit,
            )
        } else {
            m.yields(ValueView::Flow(f))
        },
        _ => m.fails(EvalErrorView::Protocol),
    }
}

/// A scope ends: it is closed, and what came goes on down.
pub open spec fn on_scope(m: MachineView, v: ValueView) -> (MachineView, ActionView) {
    m.with_vars(m.ns.vars.dropped()).yields(v)
}

/// `if`: the first branch where the condition's value counts as true, else
/// the second, if there is one.
pub open spec fn on_cond(m: MachineView, a: BlockView, e: Option<BlockView>, v: ValueView) -> (
    MachineView,
    ActionView,
) {
    match v {
        ValueView::Text(t) => if is_truthy(t) {
            m.goes1(FrameView::Run(a), ValueView::Unit)
        } else {
            match e {
                Some(b) => m.goes1(FrameView::Run(b), ValueView::Unit),
                None => m.yields(ValueView::Flow(State::Normal)),
            }
        },
        _ => m.fails(EvalErrorView::Protocol),
    }
}

/// `case`: the value to compare comes first. Then, arm by arm, all its
/// patterns are evaluated, left to right; the first arm of which a pattern
/// is the value runs. Without such an arm nothing runs.
pub open spec fn on_pats(
    m: MachineView,
    cond: Option<Seq<char>>,
    arms: Seq<(Seq<SpecialStrView>, BlockView)>,
    a: nat,
    p: nat,
    hit: bool,
    v: ValueView,
) -> (MachineView, ActionView) {
    match cond {
        None => match v {
            ValueView::Text(t) => m.goes1(
                FrameView::Pats(Some(t), arms, 0, 0, false),
                ValueView::Unit,
            ),
            _ => m.fails(EvalErrorView::Protocol),
        },
        Some(c) => {
            let found = hit || v == ValueView::Text(c);
            if a >= arms.len() {
                m.yields(ValueView::Flow(State::Normal))
            } else if p < arms[a as int].0.len() {
                m.goes2(
                    FrameView::Pats(Some(c), arms, a, p + 1, found),
                    text_of(arms[a as int].0[p as int]),
                    ValueView::Unit,
                )
            } else if found {
                m.goes1(FrameView::Run(arms[a as int].1), ValueView::Unit)
            } else {
                m.goes1(FrameView::Pats(Some(c), arms, a + 1, 0, false), ValueView::Unit)
            }
        },
    }
}

/// `for`: the text to run through is split at its line feeds.
pub open spec fn on_for(m: MachineView, x: Seq<char>, body: BlockView, v: ValueView) -> (
    MachineView,
    ActionView,
) {
    match v {
        ValueView::Text(t) => m.goes1(
            FrameView::Each(x, split_on(t, '\n'), 0, body),
            ValueView::Flow(State::Normal),
        ),
        _ => m.fails(EvalErrorView::Protocol),
    }
}

/// `for`: the variable gets the next value and the body runs, until the
/// values are used up or the body ends with `break`.
pub open spec fn on_each(
    m: MachineView,
    x: Seq<char>,
    vals: Seq<Seq<char>>,
    n: nat,
    body: BlockView,
    v: ValueView,
) -> (MachineView, ActionView) {
    match v {
        ValueView::Flow(f) => if f != State::Breaked && n < vals.len() {
            m.with_vars(m.ns.vars.pushed(x, vals[n as int])).goes2(
                FrameView::Each(x, vals, n + 1, body),
                FrameView::Run(body),
                ValueView::Unit,
            )
        } else {
            m.yields(ValueView::Flow(State::Normal))
        },
        _ => m.fails(EvalErrorView::Protocol),
    }
}

/// `while`: the body runs where the condition's value counts as true.
pub open spec fn on_while(m: MachineView, c: SpecialStrView, body: BlockView, v: ValueView) -> (
    MachineView,
    ActionView,
) {
    match v {
        ValueView::Text(t) => if is_truthy(t) {
            m.goes2(FrameView::Again(c, body), FrameView::Run(body), ValueView::Unit)
        } else {
            m.yields(ValueView::Flow(State::Normal))
        },
        _ => m.fails(EvalErrorView::Protocol),
    }
}

/// `while`: after the body the condition is evaluated again, unless the
/// body ended with `break`.
pub open spec fn on_again(m: MachineView, c: SpecialStrView, body: BlockView, v: ValueView) -> (
    MachineView,
    ActionView,
) {
    match v {
        ValueView::Flow(f) => if f == State::Breaked {
            m.yields(ValueView::Flow(State::Normal))
        } else {
            m.goes2(FrameView::WhileOf(c, body), text_of(c), ValueView::Unit)
        },
        _ => m.fails(EvalErrorView::Protocol),
    }
}

/// After a command: the host waits for the foreground process, if there is
/// one.
pub open spec fn on_settle(m: MachineView, jobs: Table) -> (MachineView, ActionView) {
    if jobs.contains_key(0) {
        m.asks1(FrameView::Settled, ActionView::Wait(jobs[0].pid))
    } else {
        m.yields(ValueView::Flow(State::Normal))
    }
}

/// What the machine is after the job table took in the status `status` of
/// the foreground process, with the result `r`: a failure of the table is
/// the failure of the command, and so is an interrupt; else an exit code
/// becomes the variable `status`, and the user is told where the process
/// became a job.
pub open spec fn after_wait(m: MachineView, status: Status, r: Result<Waited, JobError>) -> (
    MachineView,
    ActionView,
) {
    match r {
        Err(e) => m.fails(EvalErrorView::Job(e)),
        Ok(w) => if status.spec_interrupted() {
            m.fails(EvalErrorView::Job(JobError::Interrupted))
        } else {
            let told = match w.notice {
                Some(n) => m.tells(MessageView::Note(n)),
                None => m,
            };
            let set = match w.status {
                Some(Status::Exited(code)) => told.with_vars(
                    told.ns.vars.pushed("status"@, signed_decimal(code as int)),
                ),
                _ => told,
            };
            set.yields(ValueView::Flow(State::Normal))
        },
    }
}

/// A command's name is known: a procedure of that name is called, else a
/// command of the shell's own of that name runs, else a program of that
/// name.
pub open spec fn on_named(m: MachineView, c: ExternalView, v: ValueView) -> (
    MachineView,
    ActionView,
) {
    match v {
        ValueView::Text(name) => if m.ns.procs.contains_key(name) {
            m.goes2(FrameView::Call(name, m.ns.procs[name]), list_of(c.args), ValueView::Unit)
        } else {
            match builtin_named(name) {
                Some(k) => m.goes2(FrameView::Built(k), list_of(c.args), ValueView::Unit),
                None => m.goes2(
                    FrameView::StageArgs(c, name, true, false, false),
                    list_of(c.args),
                    ValueView::Unit,
                ),
            }
        },
        _ => m.fails(EvalErrorView::Protocol),
    }
}

/// A procedure is called: in a scope of its own the arguments are set, and
/// the body runs. How the body ends does not matter to the caller.
pub open spec fn on_call(m: MachineView, name: Seq<char>, body: BlockView, v: ValueView) -> (
    MachineView,
    ActionView,
) {
    match v {
        ValueView::List(args) => m.with_vars(m.ns.vars.marked().with_args(name, args)).goes3(
            FrameView::Swallow,
            FrameView::Scope,
            FrameView::Run(body),
            ValueView::Unit,
        ),
        _ => m.fails(EvalErrorView::Protocol),
    }
}

/// What `cd` asks of the host.
pub open spec fn cd_target(args: Seq<Seq<char>>, env: Map<Seq<char>, Seq<char>>) -> Result<
    Seq<char>,
    BuiltinError,
> {
    if args.len() == 0 {
        if env.contains_key("HOME"@) {
            Ok(env["HOME"@])
        } else {
            Err(BuiltinError::NoHome)
        }
    } else if args.len() == 1 {
        Ok(args[0])
    } else {
        Err(BuiltinError::Arity)
    }
}

/// A command of the shell's own runs, all but `fg`.
pub open spec fn on_built(m: MachineView, kind: BuiltinKind, args: Seq<Seq<char>>) -> (
    MachineView,
    ActionView,
) {
    match kind {
        BuiltinKind::Empty => m.yields(ValueView::Unit),
        BuiltinKind::Exit => match exit_code(args) {
            Ok(c) => m.asks0(ActionView::Exit(c)),
            Err(e) => m.fails(EvalErrorView::Builtin(e)),
        },
        BuiltinKind::Cd => match cd_target(args, m.ns.vars.env) {
            Ok(p) => m.asks0(ActionView::Chdir(p)),
            Err(e) => m.fails(EvalErrorView::Builtin(e)),
        },
        BuiltinKind::Fg => m.fails(EvalErrorView::Protocol),
        BuiltinKind::Jobs => m.asks0(ActionView::ShowJobs),
        BuiltinKind::Let => match assignment(args) {
            Ok((k, x)) => m.with_vars(m.ns.vars.pushed(k, x)).yields(ValueView::Unit),
            Err(e) => m.fails(EvalErrorView::Builtin(e)),
        },
        BuiltinKind::Export => match assignment(args) {
            Ok((k, x)) => m.with_vars(m.ns.vars.gpushed(k, x)).yields(ValueView::Unit),
            Err(e) => m.fails(EvalErrorView::Builtin(e)),
        },
        BuiltinKind::Source => if args.len() == 0 {
            m.fails(EvalErrorView::Builtin(BuiltinError::NoScript))
        } else {
            m.asks1(FrameView::Script(args[0], args.skip(1)), ActionView::ReadScript(args[0]))
        },
    }
}

/// What the machine is after `fg` gave the result `r`.
pub open spec fn after_fg(m: MachineView, r: Result<(), BuiltinError>) -> (
    MachineView,
    ActionView,
) {
    match r {
        Ok(()) => m.yields(ValueView::Unit),
        Err(e) => m.fails(EvalErrorView::Builtin(e)),
    }
}

/// `source`: the lines have come. In a scope of its own the arguments are
/// set, and the statements of the script run one after the other.
pub open spec fn on_script(
    m: MachineView,
    file: Seq<char>,
    args: Seq<Seq<char>>,
    v: ValueView,
) -> (MachineView, ActionView) {
    match v {
        ValueView::List(lines) => m.with_vars(m.ns.vars.marked().with_args(file, args)).goes2(
            FrameView::Scope,
            FrameView::Feed(lines, 0),
            ValueView::Unit,
        ),
        _ => m.fails(EvalErrorView::Protocol),
    }
}

/// `source`: the next statement of the script is gathered from its lines
/// and runs; a failure in it ends the statement, not the script. A
/// statement that is not of the language is told to the user and passed
/// over. Lines that end within a statement are dropped.
pub open spec fn on_feed(m: MachineView, lines: Seq<Seq<char>>, n: nat) -> (
    MachineView,
    ActionView,
) {
    if n >= lines.len() {
        m.yields(ValueView::Unit)
    } else {
        let g = gathered(lines, n as int + 1, lines[n as int]);
        match g.0 {
            Statement::Unfinished => m.yields(ValueView::Unit),
            Statement::Whole(b) => m.goes3(
                FrameView::Feed(lines, g.1 as nat),
                FrameView::Catch,
                FrameView::Run(lowered_block(b)),
                ValueView::Unit,
            ),
            Statement::Wrong(e) => m.tells(MessageView::Syntax(e)).goes1(
                FrameView::Feed(lines, g.1 as nat),
                ValueView::Unit,
            ),
        }
    }
}

/// A stage's name is known: its arguments are next.
pub open spec fn on_stage_name(
    m: MachineView,
    c: ExternalView,
    first: bool,
    capture: bool,
    bg: bool,
    v: ValueView,
) -> (MachineView, ActionView) {
    match v {
        ValueView::Text(name) => m.goes2(
            FrameView::StageArgs(c, name, first, capture, bg),
            list_of(c.args),
            ValueView::Unit,
        ),
        _ => m.fails(EvalErrorView::Protocol),
    }
}

/// The second branch of an `if`, out of its box.
pub open spec fn unboxed_block(e: Option<Box<BlockView>>) -> Option<BlockView> {
    match e {
        Some(x) => Some(*x),
        None => None,
    }
}

/// What stands to the right of a pipe, out of its box.
pub open spec fn unboxed(pipe: Option<Box<ExternalView>>) -> Option<ExternalView> {
    match pipe {
        Some(p) => Some(*p),
        None => None,
    }
}

/// The texts that name the files of a wiring: standard output, standard
/// error, standard input, as far as each is a file or a here-document.
pub open spec fn wire_texts(w: WiringView) -> Seq<ArgView> {
    let a = match w.stdout {
        OutWireView::File(_, t) => seq![ArgView::Normal(t)],
        _ => Seq::empty(),
    };
    let b = match w.stderr {
        OutWireView::File(_, t) => seq![ArgView::Normal(t)],
        _ => Seq::empty(),
    };
    let c = match w.stdin {
        InWireView::File(t) => seq![ArgView::Normal(t)],
        InWireView::HereDoc(t) => seq![ArgView::Normal(t)],
        _ => Seq::empty(),
    };
    a + b + c
}

/// A stage's arguments are known. A redirection of the stage that asks a
/// stream to flow the wrong way fails the command. Else the streams are
/// wired, the first stage reading from no pipe, every stage but the last
/// writing to one, and the last too where the output is captured. The
/// names of the files in the wiring are next.
pub open spec fn on_stage_args(
    m: MachineView,
    c: ExternalView,
    name: Seq<char>,
    first: bool,
    capture: bool,
    bg: bool,
    v: ValueView,
) -> (MachineView, ActionView) {
    match v {
        ValueView::List(args) => if c.fault is Some {
            m.fails(EvalErrorView::Redirection(c.fault->0))
        } else {
            let w = wired(c.reds, !first, c.pipe is Some || capture);
            m.goes2(
                FrameView::StageWires(unboxed(c.pipe), name, args, w, capture, bg || c.bg),
                list_of(wire_texts(w)),
                ValueView::Unit,
            )
        },
        _ => m.fails(EvalErrorView::Protocol),
    }
}

/// The stage to spawn: the wiring with each text replaced by its value, the
/// values taken in the order of `wire_texts`.
pub open spec fn staged(
    name: Seq<char>,
    args: Seq<Seq<char>>,
    w: WiringView,
    files: Seq<Seq<char>>,
) -> StageView {
    let o = if w.stdout is File {
        1int
    } else {
        0int
    };
    let e = if w.stderr is File {
        o + 1
    } else {
        o
    };
    StageView {
        name,
        args,
        stdout: match w.stdout {
            OutWireView::Inherit => OutputView::Inherit,
            OutWireView::Pipe => OutputView::Pipe,
            OutWireView::File(mode, _) => OutputView::File(mode, files[0]),
            OutWireView::Shared => OutputView::Shared,
        },
        stderr: match w.stderr {
            OutWireView::Inherit => OutputView::Inherit,
            OutWireView::Pipe => OutputView::Pipe,
            OutWireView::File(mode, _) => OutputView::File(mode, files[o]),
            OutWireView::Shared => OutputView::Shared,
        },
        stdin: match w.stdin {
            InWireView::Inherit => InputView::Inherit,
            InWireView::Pipe => InputView::Previous,
            InWireView::File(_) => InputView::File(files[e]),
            InWireView::HereDoc(_) => InputView::HereDoc(files[e]),
        },
    }
}

/// The names of a stage's files are known: the host spawns the stage.
pub open spec fn on_stage_wires(
    m: MachineView,
    next: Option<ExternalView>,
    name: Seq<char>,
    args: Seq<Seq<char>>,
    w: WiringView,
    capture: bool,
    bg: bool,
    v: ValueView,
) -> (MachineView, ActionView) {
    match v {
        ValueView::List(files) => if files.len() == wire_texts(w).len() {
            m.asks1(
                FrameView::Spawned(next, capture, bg),
                ActionView::Spawn(staged(name, args, w, files)),
            )
        } else {
            m.fails(EvalErrorView::Protocol)
        },
        _ => m.fails(EvalErrorView::Protocol),
    }
}

/// A stage runs, all but the last stage of a pipeline that is not captured:
/// the next stage is prepared; after the last the host captures the
/// output.
pub open spec fn on_spawned(
    m: MachineView,
    next: Option<ExternalView>,
    capture: bool,
    bg: bool,
) -> (MachineView, ActionView) {
    match next {
        Some(n) => m.goes2(
            FrameView::StageName(n, false, capture, bg),
            text_of(n.name),
            ValueView::Unit,
        ),
        None => m.asks1(FrameView::Trim, ActionView::Capture),
    }
}

/// The last stage of a pipeline runs as the process `pid`: it is the
/// pipeline's job. In the background it takes the smallest free job id and
/// the user is told; else it takes the foreground slot.
pub open spec fn registered(
    m: MachineView,
    bg: bool,
    pid: i32,
    before: Table,
    after: Table,
    then: (MachineView, ActionView),
) -> bool {
    if bg {
        if forall|k: nat| 1 <= k <= usize::MAX ==> before.contains_key(k) {
            after == before && then == m.fails(EvalErrorView::Job(JobError::TableFull))
        } else {
            exists|id: usize| registered_as(m, id, pid, before, after, then)
        }
    } else if before.contains_key(0) {
        after == before && then == m.fails(EvalErrorView::Job(JobError::ForegroundBusy))
    } else {
        after == before.insert(0, Process { pid, suspended: false }) && then == m.yields(
            ValueView::Unit,
        )
    }
}

/// The process `pid` became the background job `id`.
pub open spec fn registered_as(
    m: MachineView,
    id: usize,
    pid: i32,
    before: Table,
    after: Table,
    then: (MachineView, ActionView),
) -> bool {
    &&& smallest_free(before, id as nat)
    &&& after == before.insert(id as nat, Process { pid, suspended: false })
    &&& then == m.tells(MessageView::Note(Notice::Started(id, pid))).yields(ValueView::Unit)
}

/// Captured output loses the white space at its end.
pub open spec fn on_trim(m: MachineView, v: ValueView) -> (MachineView, ActionView) {
    match v {
        ValueView::Text(t) => m.yields(ValueView::Text(trimmed_end(t))),
        _ => m.fails(EvalErrorView::Protocol),
    }
}

/// How far a special string can be rendered without the host.
pub enum Rendering {
    /// To its end: this is its value.
    Text(Seq<char>),
    /// Up to the fragment with this index, which is a command to run; the
    /// text so far.
    Command(nat, Seq<char>, crate::parse::syntax::CommandView),
    /// Not at all: this variable is not set.
    Unset(Seq<char>),
    /// Not at all: no job has the id asked for.
    NoJob,
}

/// The fragments from `n` on, rendered after the text `acc`: text as it
/// stands, a variable by its value in the environment, a job by its
/// process id in decimal.
pub open spec fn rendered(
    parts: Seq<StrKindView>,
    n: nat,
    acc: Seq<char>,
    env: Map<Seq<char>, Seq<char>>,
    jobs: Table,
) -> Rendering
    decreases parts.len() - n,
{
    if n >= parts.len() {
        Rendering::Text(acc)
    } else {
        match parts[n as int] {
            StrKindView::String(x) => rendered(parts, n + 1, acc + x, env, jobs),
            StrKindView::Var(k) => if env.contains_key(k) {
                rendered(parts, n + 1, acc + env[k], env, jobs)
            } else {
                Rendering::Unset(k)
            },
            StrKindView::Pid(j) => if jobs.contains_key(j) {
                rendered(parts, n + 1, acc + signed_decimal(jobs[j].pid as int), env, jobs)
            } else {
                Rendering::NoJob
            },
            StrKindView::Cmd(c) => Rendering::Command(n, acc, c),
        }
    }
}

/// A special string goes on: the text of a command that ran, if one did,
/// is added, and the fragments that follow are rendered up to the next
/// command, which then runs with its output captured.
pub open spec fn on_parts(
    m: MachineView,
    parts: Seq<StrKindView>,
    n: nat,
    acc: Seq<char>,
    v: ValueView,
    jobs: Table,
) -> (MachineView, ActionView) {
    let so_far = match v {
        ValueView::Text(t) => acc + t,
        _ => acc,
    };
    match rendered(parts, n, so_far, m.ns.vars.env, jobs) {
        Rendering::Text(t) => m.yields(ValueView::Text(t)),
        Rendering::Unset(k) => m.fails(EvalErrorView::Unset(k)),
        Rendering::NoJob => m.fails(EvalErrorView::Job(JobError::NotFound)),
        Rendering::Command(i, text, c) => m.goes3(
            FrameView::Parts(parts, i + 1, text),
            FrameView::StageName(lowered(c), true, true, false),
            text_of(c.name),
            ValueView::Unit,
        ),
    }
}

/// Arguments go on: the value of the argument evaluated last is one
/// argument, or as many as it has words where it was written with `!`;
/// then the next argument is evaluated.
pub open spec fn on_words(
    m: MachineView,
    args: Seq<ArgView>,
    n: nat,
    acc: Seq<Seq<char>>,
    v: ValueView,
) -> (MachineView, ActionView) {
    let so_far = match v {
        ValueView::Text(t) => if 0 < n <= args.len() {
            match args[n - 1] {
                ArgView::Normal(_) => acc.push(t),
                ArgView::Expand(_) => acc + words_of(t),
            }
        } else {
            acc
        },
        _ => acc,
    };
    if n < args.len() {
        m.goes2(
            FrameView::Words(args, n + 1, so_far),
            text_of( match args[n as int] { ArgView::Normal(s) => s, ArgView::Expand(s) => s}),
            ValueView::Unit,
        )
    } else {
        m.yields(ValueView::List(so_far))
    }
}

/// The value that an event brings; what was handed on where the event is
/// `Resume`.
pub open spec fn brought_value(m: MachineView, ev: EventView) -> ValueView {
    match ev {
        EventView::Resume => m.value,
        EventView::Spawned(p) => ValueView::Pid(p),
        EventView::Captured(t) => ValueView::Text(t),
        EventView::Waited(s) => ValueView::Status(s),
        EventView::Done => ValueView::Unit,
        EventView::Script(l) => ValueView::List(l),
        EventView::Failed(_) => ValueView::Unit,
    }
}

/// Which part of the evaluation a frame belongs to.
#[derive(Clone, Copy, Debug, PartialEq, Eq, Structural)]
pub enum Part {
    /// Blocks and the flow of control.
    Control,
    /// Commands: procedures, the shell's own commands, scripts, and the
    /// wait for the foreground.
    Command,
    /// Pipelines, special strings and arguments.
    Pipeline,
}

/// The part that a frame belongs to.
pub open spec fn part_of(top: FrameView) -> Part {
    match top {
        FrameView::Run(_) => Part::Control,
        FrameView::Lines(_, _) => Part::Control,
        FrameView::Scope => Part::Control,
        FrameView::Cond(_, _) => Part::Control,
        FrameView::Pats(_, _, _, _, _) => Part::Control,
        FrameView::ForOf(_, _) => Part::Control,
        FrameView::Each(_, _, _, _) => Part::Control,
        FrameView::WhileOf(_, _) => Part::Control,
        FrameView::Again(_, _) => Part::Control,
        FrameView::Settle => Part::Command,
        FrameView::Settled => Part::Command,
        FrameView::Named(_) => Part::Command,
        FrameView::Call(_, _) => Part::Command,
        FrameView::Swallow => Part::Command,
        FrameView::Built(_) => Part::Command,
        FrameView::Script(_, _) => Part::Command,
        FrameView::Feed(_, _) => Part::Command,
        FrameView::Catch => Part::Command,
        _ => Part::Pipeline,
    }
}

/// The turn of a frame of blocks and control flow.
pub open spec fn control_turn(m: MachineView, top: FrameView, v: ValueView) -> (
    MachineView,
    ActionView,
) {
    match top {
        FrameView::Run(b) => on_run(m, b),
        FrameView::Lines(l, n) => on_lines(m, l, n, v),
        FrameView::Scope => on_scope(m, v),
        FrameView::Cond(a, e) => on_cond(m, a, e, v),
        FrameView::Pats(c, arms, a, p, hit) => on_pats(m, c, arms, a, p, hit, v),
        FrameView::ForOf(x, b) => on_for(m, x, b, v),
        FrameView::Each(x, vals, n, b) => on_each(m, x, vals, n, b, v),
        FrameView::WhileOf(c, b) => on_while(m, c, b, v),
        FrameView::Again(c, b) => on_again(m, c, b, v),
        _ => m.fails(EvalErrorView::Protocol),
    }
}

/// Whether the turn of a frame of commands can leave the machine and the
/// table of `then` and `j1`.
pub open spec fn command_turn(
    m: MachineView,
    top: FrameView,
    v: ValueView,
    j0: Table,
    j1: Table,
    then: (MachineView, ActionView),
) -> bool {
    match top {
        FrameView::Settle => j1 == j0 && then == on_settle(m, j0),
        FrameView::Settled => match v {
            ValueView::Status(s) => on_settled(m, s, j0, j1, then),
            _ => j1 == j0 && then == m.fails(EvalErrorView::Protocol),
        },
        FrameView::Named(c) => j1 == j0 && then == on_named(m, c, v),
        FrameView::Call(n, b) => j1 == j0 && then == on_call(m, n, b, v),
        FrameView::Swallow => j1 == j0 && then == m.yields(ValueView::Unit),
        FrameView::Built(k) => match v {
            ValueView::List(args) => if k == BuiltinKind::Fg {
                on_fg(m, args, j0, j1, then)
            } else {
                j1 == j0 && then == on_built(m, k, args)
            },
            _ => j1 == j0 && then == m.fails(EvalErrorView::Protocol),
        },
        FrameView::Script(f, a) => j1 == j0 && then == on_script(m, f, a, v),
        FrameView::Feed(l, n) => j1 == j0 && then == on_feed(m, l, n),
        FrameView::Catch => j1 == j0 && then == m.yields(ValueView::Unit),
        _ => j1 == j0 && then == m.fails(EvalErrorView::Protocol),
    }
}

/// Whether the turn of a frame of pipelines, special strings and arguments
/// can leave the machine and the table of `then` and `j1`.
pub open spec fn pipeline_turn(
    m: MachineView,
    top: FrameView,
    v: ValueView,
    j0: Table,
    j1: Table,
    then: (MachineView, ActionView),
) -> bool {
    match top {
        FrameView::StageName(c, first, capture, bg) => j1 == j0 && then == on_stage_name(
            m,
            c,
            first,
            capture,
            bg,
            v,
        ),
        FrameView::StageArgs(c, n, first, capture, bg) => j1 == j0 && then == on_stage_args(
            m,
            c,
            n,
            first,
            capture,
            bg,
            v,
        ),
        FrameView::StageWires(next, n, a, w, capture, bg) => j1 == j0 && then == on_stage_wires(
            m,
            next,
            n,
            a,
            w,
            capture,
            bg,
            v,
        ),
        FrameView::Spawned(next, capture, bg) => match v {
            ValueView::Pid(pid) => if next is Some || capture {
                j1 == j0 && then == on_spawned(m, next, capture, bg)
            } else {
                registered(m, bg, pid, j0, j1, then)
            },
            _ => j1 == j0 && then == m.fails(EvalErrorView::Protocol),
        },
        FrameView::Trim => j1 == j0 && then == on_trim(m, v),
        FrameView::Parts(p, n, acc) => j1 == j0 && then == on_parts(m, p, n, acc, v, j0),
        FrameView::Words(a, n, acc) => j1 == j0 && then == on_words(m, a, n, acc, v),
        _ => j1 == j0 && then == m.fails(EvalErrorView::Protocol),
    }
}

/// Whether the turn of the frame `top`, taken from the machine `m` with
/// the value `v`, can leave the machine and the table of `then` and `j1`.
pub open spec fn turned(
    m: MachineView,
    top: FrameView,
    v: ValueView,
    j0: Table,
    j1: Table,
    then: (MachineView, ActionView),
) -> bool {
    match part_of(top) {
        Part::Control => j1 == j0 && then == control_turn(m, top, v),
        Part::Command => command_turn(m, top, v, j0, j1, then),
        Part::Pipeline => pipeline_turn(m, top, v, j0, j1, then),
    }
}

/// Whether a step from the machine `m0` and the job table `j0`, on the
/// event `ev`, can leave the machine `m1` and the table `j1` and ask `act`
/// of the host.
///
/// With no work left the evaluation is finished. A failure that the host
/// reports takes the stack down. Else the frame on top leaves the stack
/// and has its turn, with the value that the event brought.
pub open spec fn steps(
    m0: MachineView,
    j0: Table,
    ev: EventView,
    m1: MachineView,
    j1: Table,
    act: ActionView,
) -> bool {
    if m0.stack.len() == 0 {
        j1 == j0 && m1 == m0 && act == ActionView::Finished(Ok(()))
    } else if ev is Failed {
        j1 == j0 && (m1, act) == (MachineView { value: ValueView::Unit, ..m0 }).fails(
            EvalErrorView::Host(ev->Failed_0),
        )
    } else {
        turned(
            MachineView { stack: m0.stack.drop_last(), value: ValueView::Unit, ..m0 },
            m0.stack.last(),
            brought_value(m0, ev),
            j0,
            j1,
            (m1, act),
        )
    }
}

/// After the wait for the foreground process: the job table takes in the
/// status, and the machine goes on from what the table says.
pub open spec fn on_settled(
    m: MachineView,
    s: Status,
    j0: Table,
    j1: Table,
    then: (MachineView, ActionView),
) -> bool {
    exists|waited: Result<Waited, JobError>| settled_then(m, s, j0, j1, waited, then)
}

/// `fg` runs, and the machine goes on from its result.
pub open spec fn on_fg(
    m: MachineView,
    args: Seq<Seq<char>>,
    j0: Table,
    j1: Table,
    then: (MachineView, ActionView),
) -> bool {
    exists|moved: Result<(), BuiltinError>| fg_then(m, args, j0, j1, moved, then)
}

/// The job table took in the status of the foreground process with the
/// result `r`, and the machine went on from that.
pub open spec fn settled_then(
    m: MachineView,
    s: Status,
    j0: Table,
    j1: Table,
    r: Result<Waited, JobError>,
    then: (MachineView, ActionView),
) -> bool {
    Jobs::settled(j0, s, j1, r) && then == after_wait(m, s, r)
}

/// `fg` ran with the result `r`, and the machine went on from that.
pub open spec fn fg_then(
    m: MachineView,
    args: Seq<Seq<char>>,
    j0: Table,
    j1: Table,
    r: Result<(), BuiltinError>,
    then: (MachineView, ActionView),
) -> bool {
    fg_done(args, j0, j1, r) && then == after_fg(m, r)
}

} // verus!
