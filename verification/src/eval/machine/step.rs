//! The transitions: what each kind of frame does when its turn comes.

use super::semantics::{
    after_fg, after_wait, cd_target, command_turn, control_turn, fg_then, on_again, on_built,
    on_call, on_cond, on_each, on_feed, on_fg, on_for, on_lines, on_named, on_parts, on_pats,
    on_run, on_scope, on_script, on_settle, on_spawned, on_stage_args, on_stage_name,
    on_stage_wires, on_trim, on_while, on_words, part_of, pipeline_turn, registered, registered_as,
    rendered, settled_then, staged, steps, text_of, turned, wire_texts, MachineView, Part,
    Rendering,
};
use super::state::Machine;
use super::types::{
    block_opt, ext_opt, text_opt, words_view, Action, ActionView, EvalError, Event, Frame,
    FrameView, Input, Message, Output, Stage, Value, ValueView,
};
use crate::eval::block::{
    boxed_view, lemma_arms_view, lemma_blocks_view, opt_boxed_view, Block, State,
};
use crate::eval::command::builtin::{cd, exit, fg, source, BuiltinError, BuiltinKind};
use crate::eval::command::external::{piped_view, Arg, Args, External};
use crate::eval::command::redirect::{InWire, OutWire, Wiring};
use crate::eval::namespace::NameSpace;
use crate::job::jobs::{Jobs, Notice};
use crate::job::status::{JobError, Status};
use crate::parse::copy::copy_str;
use crate::parse::line::{gather, Gathered};
use crate::parse::syntax::{lemma_kinds_view, SpecialStr, StrKind};
use crate::text::{format_i32, same_text, split, texts, trim_end, truthy, words};
use vstd::prelude::*;
use vstd::string::StringExecFns;

verus! {

/// Two outcomes of a step are the same where their parts are.
proof fn lemma_same(a: (MachineView, ActionView), b: (MachineView, ActionView))
    requires
        a.0.stack =~= b.0.stack,
        a.0.value =~= b.0.value,
        a.0.ns =~= b.0.ns,
        a.0.out =~= b.0.out,
        a.0.base == b.0.base,
        a.1 =~= b.1,
    ensures
        a == b,
{
}

/// The frame that evaluates the special string `s` from its start.
fn text_frame(s: SpecialStr) -> (r: Frame)
    ensures
        r@ == text_of(s@),
{
    Frame::Parts(s.0, 0, String::new())
}

/// The frame that evaluates the arguments `args` from the first on.
fn list_frame(args: Args) -> (r: Frame)
    ensures
        r@ == FrameView::Words(args@, 0, Seq::empty()),
{
    let r = Frame::Words(args.0, 0, Vec::new());
    proof {
        assert(words_view(args.0@) =~= args@);
        assert(texts(Seq::<String>::empty()) =~= Seq::<Seq<char>>::empty());
    }
    r
}

impl Machine {
    /// A block's turn.
    #[verifier::rlimit(100)]
    fn on_run(&mut self, b: Block) -> (r: Action)
        ensures
            (final(self)@, r@) == on_run(old(self)@, b@),
    {
        let r = {
            match b {
                Block::Single(c) => {
                    let name = copy_str(&c.0.name);
                    self.go3(Frame::Settle, Frame::Named(c.0), text_frame(name), Value::Unit)
                },
                Block::Multi(lines) => {
                    self.mark();
                    self.go2(Frame::Scope, Frame::Lines(lines, 0), Value::Flow(State::Normal))
                },
                Block::If(c, a, e) => {
                    proof {
                        assert(boxed_view(a) == Box::new((*a)@));
                        assert(opt_boxed_view(e) == match e {
                            Some(x) => Some(boxed_view(x)),
                            None => None,
                        });
                        if e is Some {
                            assert(boxed_view(e->0) == Box::new((*e->0)@));
                        }
                    }
                    let other = match e {
                        Some(x) => Some(*x),
                        None => None,
                    };
                    self.go2(Frame::Cond(*a, other), text_frame(c), Value::Unit)
                },
                Block::Case(c, arms) => self.go2(
                    Frame::Pats(None, arms, 0, 0, false),
                    text_frame(c),
                    Value::Unit,
                ),
                Block::For(x, it, body) => {
                    assert(boxed_view(body) == Box::new((*body)@));
                    self.mark();
                    self.go3(Frame::Scope, Frame::ForOf(x, *body), text_frame(it), Value::Unit)
                },
                Block::While(c, body) => {
                    assert(boxed_view(body) == Box::new((*body)@));
                    let again = copy_str(&c);
                    self.go2(Frame::WhileOf(again, *body), text_frame(c), Value::Unit)
                },
                Block::Proc(name, body) => {
                    assert(boxed_view(body) == Box::new((*body)@));
                    self.push_proc(name, *body);
                    self.yields(Value::Flow(State::Normal))
                },
                Block::Break => self.yields(Value::Flow(State::Breaked)),
                Block::Continue => self.yields(Value::Flow(State::Continued)),
            }
        };
        proof {
            lemma_same((self@, r@), on_run(old(self)@, b@));
        }
        r
    }

    /// The next line of a block in braces.
    fn on_lines(&mut self, lines: Vec<Block>, n: usize, v: Value) -> (r: Action)
        ensures
            (final(self)@, r@) == on_lines(
                old(self)@,
                crate::eval::block::blocks_view(lines@),
                n as nat,
                v@,
            ),
    {
        let r = {
            proof {
                lemma_blocks_view(lines@);
            }
            match v {
                Value::Flow(f) => {
                    if f == State::Normal && n < lines.len() {
                        let next = lines[n].copy();
                        self.go2(Frame::Lines(lines, n + 1), Frame::Run(next), Value::Unit)
                    } else {
                        self.yields(Value::Flow(f))
                    }
                },
                _ => self.fail(EvalError::Protocol),
            }
        };
        proof {
            lemma_same(
                (self@, r@),
                on_lines(
                    old(self)@,
                    crate::eval::block::blocks_view(lines@),
                    n as nat,
                    v@,
                ),
            );
        }
        r
    }

    /// The end of a scope.
    fn on_scope(&mut self, v: Value) -> (r: Action)
        ensures
            (final(self)@, r@) == on_scope(old(self)@, v@),
    {
        let r = {
            self.drop_scope();
            self.yields(v)
        };
        proof {
            lemma_same((self@, r@), on_scope(old(self)@, v@));
        }
        r
    }

    /// The branches of an `if`, once the condition's value is there.
    fn on_cond(&mut self, a: Block, e: Option<Block>, v: Value) -> (r: Action)
        ensures
            (final(self)@, r@) == on_cond(
                old(self)@,
                a@,
                block_opt(e),
                v@,
            ),
    {
        let r = {
            match v {
                Value::Text(t) => {
                    if truthy(t.as_str()) {
                        self.go1(Frame::Run(a), Value::Unit)
                    } else {
                        match e {
                            Some(b) => self.go1(Frame::Run(b), Value::Unit),
                            None => self.yields(Value::Flow(State::Normal)),
                        }
                    }
                },
                _ => self.fail(EvalError::Protocol),
            }
        };
        proof {
            lemma_same((self@, r@), on_cond( old(self)@, a@, block_opt(e), v@, ));
        }
        r
    }

    /// The arms of a `case`.
    fn on_pats(
        &mut self,
        cond: Option<String>,
        arms: Vec<(Vec<SpecialStr>, Block)>,
        a: usize,
        p: usize,
        hit: bool,
        v: Value,
    ) -> (r: Action)
        ensures
            (final(self)@, r@) == on_pats(
                old(self)@,
                text_opt(cond),
                crate::eval::block::arms_view(arms@),
                a as nat,
                p as nat,
                hit,
                v@,
            ),
    {
        proof {
            lemma_arms_view(arms@);
        }
        match cond {
            None => match v {
                Value::Text(t) => self.go1(Frame::Pats(Some(t), arms, 0, 0, false), Value::Unit),
                _ => self.fail(EvalError::Protocol),
            },
            Some(c) => {
                let found = hit || match &v {
                    Value::Text(t) => same_text(t.as_str(), c.as_str()),
                    _ => false,
                };
                assert(found == (hit || v@ == ValueView::Text(c@)));
                if a >= arms.len() {
                    self.yields(Value::Flow(State::Normal))
                } else if p < arms[a].0.len() {
                    let pat = copy_str(&arms[a].0[p]);
                    let next = Frame::Pats(Some(c), arms, a, p + 1, found);
                    self.go2(next, text_frame(pat), Value::Unit)
                } else if found {
                    let body = arms[a].1.copy();
                    self.go1(Frame::Run(body), Value::Unit)
                } else {
                    self.go1(Frame::Pats(Some(c), arms, a + 1, 0, false), Value::Unit)
                }
            },
        }
    }

    /// A `for`, once the text to run through is there.
    fn on_for(&mut self, x: String, body: Block, v: Value) -> (r: Action)
        ensures
            (final(self)@, r@) == on_for(old(self)@, x@, body@, v@),
    {
        let r = {
            match v {
                Value::Text(t) => {
                    let vals = split(t.as_str(), '\n');
                    self.go1(Frame::Each(x, vals, 0, body), Value::Flow(State::Normal))
                },
                _ => self.fail(EvalError::Protocol),
            }
        };
        proof {
            lemma_same((self@, r@), on_for(old(self)@, x@, body@, v@));
        }
        r
    }

    /// The next round of a `for`.
    fn on_each(&mut self, x: String, vals: Vec<String>, n: usize, body: Block, v: Value) -> (r:
        Action)
        ensures
            (final(self)@, r@) == on_each(old(self)@, x@, texts(vals@), n as nat, body@, v@),
    {
        let r = {
            match v {
                Value::Flow(f) => {
                    if f != State::Breaked && n < vals.len() {
                        self.push_var(x.as_str(), vals[n].as_str());
                        let next = body.copy();
                        self.go2(Frame::Each(x, vals, n + 1, body), Frame::Run(next), Value::Unit)
                    } else {
                        self.yields(Value::Flow(State::Normal))
                    }
                },
                _ => self.fail(EvalError::Protocol),
            }
        };
        proof {
            lemma_same((self@, r@), on_each(old(self)@, x@, texts(vals@), n as nat, body@, v@));
        }
        r
    }

    /// A `while`, once the condition's value is there.
    fn on_while(&mut self, c: SpecialStr, body: Block, v: Value) -> (r: Action)
        ensures
            (final(self)@, r@) == on_while(old(self)@, c@, body@, v@),
    {
        let r = {
            match v {
                Value::Text(t) => {
                    if truthy(t.as_str()) {
                        let next = body.copy();
                        self.go2(Frame::Again(c, body), Frame::Run(next), Value::Unit)
                    } else {
                        self.yields(Value::Flow(State::Normal))
                    }
                },
                _ => self.fail(EvalError::Protocol),
            }
        };
        proof {
            lemma_same((self@, r@), on_while(old(self)@, c@, body@, v@));
        }
        r
    }

    /// A `while`, after its body.
    fn on_again(&mut self, c: SpecialStr, body: Block, v: Value) -> (r: Action)
        ensures
            (final(self)@, r@) == on_again(old(self)@, c@, body@, v@),
    {
        let r = {
            match v {
                Value::Flow(f) => {
                    if f == State::Breaked {
                        self.yields(Value::Flow(State::Normal))
                    } else {
                        let again = copy_str(&c);
                        self.go2(Frame::WhileOf(again, body), text_frame(c), Value::Unit)
                    }
                },
                _ => self.fail(EvalError::Protocol),
            }
        };
        proof {
            lemma_same((self@, r@), on_again(old(self)@, c@, body@, v@));
        }
        r
    }

    /// After a command: the wait for the foreground process.
    fn on_settle(&mut self, jobs: &Jobs) -> (r: Action)
        ensures
            (final(self)@, r@) == on_settle(old(self)@, jobs@),
    {
        let r = {
            match jobs.fg_pid() {
                Some(pid) => self.ask1(Frame::Settled, Action::Wait(pid)),
                None => self.yields(Value::Flow(State::Normal)),
            }
        };
        proof {
            lemma_same((self@, r@), on_settle(old(self)@, jobs@));
        }
        r
    }

    /// After the wait for the foreground process.
    fn on_settled(&mut self, jobs: &mut Jobs, s: Status) -> (r: Action)
        ensures
            exists|w: Result<crate::job::jobs::Waited, JobError>|
                settled_then(old(self)@, s, old(jobs)@, final(jobs)@, w, (final(self)@, r@)),
    {
        let w = jobs.settle_fg(s);
        let ghost m = self@;
        let r = match w {
            Err(e) => self.fail(EvalError::Job(e)),
            Ok(waited) => {
                if s.interrupted() {
                    self.fail(EvalError::Job(JobError::Interrupted))
                } else {
                    match waited.notice {
                        Some(n) => {
                            self.tell(Message::Note(n));
                        },
                        None => {},
                    }
                    match waited.status {
                        Some(Status::Exited(code)) => {
                            self.push_var("status", format_i32(code).as_str());
                        },
                        _ => {},
                    }
                    self.yields(Value::Flow(State::Normal))
                }
            },
        };
        proof {
            assert((self@, r@) == after_wait(m, s, w));
            assert(settled_then(m, s, old(jobs)@, jobs@, w, (self@, r@)));
        }
        r
    }

    /// A command, once its name's value is there.
    fn on_named(&mut self, c: External, v: Value) -> (r: Action)
        ensures
            (final(self)@, r@) == on_named(old(self)@, c@, v@),
    {
        let r = {
            match v {
                Value::Text(name) => {
                    let args = c.args.copy();
                    match self.namespace().get_proc(name.as_str()) {
                        Some(body) => {
                            self.go2(Frame::Call(name, body), list_frame(args), Value::Unit)
                        },
                        None => match BuiltinKind::new(name.as_str()) {
                            Some(k) => self.go2(Frame::Built(k), list_frame(args), Value::Unit),
                            None => self.go2(
                                Frame::StageArgs(c, name, true, false, false),
                                list_frame(args),
                                Value::Unit,
                            ),
                        },
                    }
                },
                _ => self.fail(EvalError::Protocol),
            }
        };
        proof {
            lemma_same((self@, r@), on_named(old(self)@, c@, v@));
        }
        r
    }

    /// A procedure's call, once the arguments are there.
    fn on_call(&mut self, name: String, body: Block, v: Value) -> (r: Action)
        ensures
            (final(self)@, r@) == on_call(old(self)@, name@, body@, v@),
    {
        let r = {
            match v {
                Value::List(args) => {
                    self.call_scope(name.as_str(), &args);
                    self.go3(Frame::Swallow, Frame::Scope, Frame::Run(body), Value::Unit)
                },
                _ => self.fail(EvalError::Protocol),
            }
        };
        proof {
            lemma_same((self@, r@), on_call(old(self)@, name@, body@, v@));
        }
        r
    }

    /// A command of the shell's own other than `fg`, once the arguments are there.
    fn on_built(&mut self, kind: BuiltinKind, args: Vec<String>) -> (r: Action)
        requires
            kind != BuiltinKind::Fg,
        ensures
            (final(self)@, r@) == on_built(old(self)@, kind, texts(args@)),
    {
        let r = {
            match kind {
                BuiltinKind::Empty => self.yields(Value::Unit),
                BuiltinKind::Exit => match exit(&args) {
                    Ok(c) => self.ask0(Action::Exit(c)),
                    Err(e) => self.fail(EvalError::Builtin(e)),
                },
                BuiltinKind::Cd => {
                    let target = cd(&args, self.namespace());
                    assert(match (target, cd_target(texts(args@), self@.ns.vars.env)) {
                        (Ok(p), Ok(q)) => p@ == q,
                        (Err(e), Err(f)) => e == f,
                        _ => false,
                    });
                    match target {
                        Ok(p) => self.ask0(Action::Chdir(p)),
                        Err(e) => self.fail(EvalError::Builtin(e)),
                    }
                },
                BuiltinKind::Fg => self.fail(EvalError::Protocol),
                BuiltinKind::Jobs => self.ask0(Action::ShowJobs),
                BuiltinKind::Let => match self.assign(&args, false) {
                    Ok(()) => self.yields(Value::Unit),
                    Err(e) => self.fail(EvalError::Builtin(e)),
                },
                BuiltinKind::Export => match self.assign(&args, true) {
                    Ok(()) => self.yields(Value::Unit),
                    Err(e) => self.fail(EvalError::Builtin(e)),
                },
                BuiltinKind::Source => match source(&args) {
                    Ok((file, rest)) => {
                        let name = file.clone();
                        self.ask1(Frame::Script(file, rest), Action::ReadScript(name))
                    },
                    Err(e) => self.fail(EvalError::Builtin(e)),
                },
            }
        };
        proof {
            lemma_same((self@, r@), on_built(old(self)@, kind, texts(args@)));
        }
        r
    }

    /// `fg`, once the arguments are there.
    fn on_fg(&mut self, jobs: &mut Jobs, args: Vec<String>) -> (r: Action)
        ensures
            exists|x: Result<(), BuiltinError>|
                fg_then(old(self)@, texts(args@), old(jobs)@, final(jobs)@, x, (final(self)@, r@)),
    {
        let x = fg(&args, jobs);
        let ghost m = self@;
        let r = match x {
            Ok(()) => self.yields(Value::Unit),
            Err(e) => self.fail(EvalError::Builtin(e)),
        };
        proof {
            assert((self@, r@) == after_fg(m, x));
            assert(fg_then(m, texts(args@), old(jobs)@, jobs@, x, (self@, r@)));
        }
        r
    }

    /// `source`, once the lines are there.
    fn on_script(&mut self, file: String, args: Vec<String>, v: Value) -> (r: Action)
        ensures
            (final(self)@, r@) == on_script(old(self)@, file@, texts(args@), v@),
    {
        let r = {
            match v {
                Value::List(lines) => {
                    self.call_scope(file.as_str(), &args);
                    self.go2(Frame::Scope, Frame::Feed(lines, 0), Value::Unit)
                },
                _ => self.fail(EvalError::Protocol),
            }
        };
        proof {
            lemma_same((self@, r@), on_script(old(self)@, file@, texts(args@), v@));
        }
        r
    }

    /// The next statement of a script.
    fn on_feed(&mut self, lines: Vec<String>, n: usize) -> (r: Action)
        ensures
            (final(self)@, r@) == on_feed(old(self)@, texts(lines@), n as nat),
    {
        let r = {
            if n >= lines.len() {
                self.yields(Value::Unit)
            } else {
                let (g, k) = gather(&lines, n);
                match g {
                    Gathered::Unfinished => self.yields(Value::Unit),
                    Gathered::Whole(b) => {
                        let block = Block::from(b);
                        let rest = Frame::Feed(lines, k);
                        self.go3(rest, Frame::Catch, Frame::Run(block), Value::Unit)
                    },
                    Gathered::Wrong(e) => {
                        self.tell(Message::Syntax(e));
                        self.go1(Frame::Feed(lines, k), Value::Unit)
                    },
                }
            }
        };
        proof {
            lemma_same((self@, r@), on_feed(old(self)@, texts(lines@), n as nat));
        }
        r
    }

    /// A stage, once its name's value is there.
    fn on_stage_name(&mut self, c: External, first: bool, capture: bool, bg: bool, v: Value) -> (r:
        Action)
        ensures
            (final(self)@, r@) == on_stage_name(old(self)@, c@, first, capture, bg, v@),
    {
        let r = {
            match v {
                Value::Text(name) => {
                    let args = c.args.copy();
                    self.go2(
                        Frame::StageArgs(c, name, first, capture, bg),
                        list_frame(args),
                        Value::Unit,
                    )
                },
                _ => self.fail(EvalError::Protocol),
            }
        };
        proof {
            lemma_same((self@, r@), on_stage_name(old(self)@, c@, first, capture, bg, v@));
        }
        r
    }

    /// A stage, once its arguments are there.
    fn on_stage_args(
        &mut self,
        c: External,
        name: String,
        first: bool,
        capture: bool,
        bg: bool,
        v: Value,
    ) -> (r: Action)
        ensures
            (final(self)@, r@) == on_stage_args(old(self)@, c@, name@, first, capture, bg, v@),
    {
        let ghost cv = c@;
        let ghost nv = name@;
        let ghost vv = v@;
        let r = match v {
            Value::List(args) => if let Some(e) = c.fault {
                self.fail(EvalError::Redirection(e))
            } else {
                proof {
                    assert(piped_view(c.pipe) == match c.pipe {
                        Some(b) => Some(Box::new((*b)@)),
                        None => None,
                    });
                }
                let w = c.reds.redirect(!first, c.pipe.is_some() || capture);
                let files = wire_list(&w);
                let next = match c.pipe {
                    Some(p) => Some(*p),
                    None => None,
                };
                self.go2(
                    Frame::StageWires(next, name, args, w, capture, bg || c.bg),
                    list_frame(files),
                    Value::Unit,
                )
            },
            _ => self.fail(EvalError::Protocol),
        };
        proof {
            lemma_same((self@, r@), on_stage_args(old(self)@, cv, nv, first, capture, bg, vv));
        }
        r
    }

    /// A stage, once the names of its files are there.
    fn on_stage_wires(
        &mut self,
        next: Option<External>,
        name: String,
        args: Vec<String>,
        w: Wiring,
        capture: bool,
        bg: bool,
        v: Value,
    ) -> (r: Action)
        ensures
            (final(self)@, r@) == on_stage_wires(
                old(self)@,
                ext_opt(next),
                name@,
                texts(args@),
                w@,
                capture,
                bg,
                v@,
            ),
    {
        match v {
            Value::List(files) => {
                match stage(name, args, &w, &files) {
                    Some(s) => self.ask1(Frame::Spawned(next, capture, bg), Action::Spawn(s)),
                    None => self.fail(EvalError::Protocol),
                }
            },
            _ => self.fail(EvalError::Protocol),
        }
    }

    /// After a stage that is not the job of its pipeline was spawned.
    fn on_spawned(&mut self, next: Option<External>, capture: bool, bg: bool) -> (r: Action)
        requires
            next is Some || capture,
        ensures
            (final(self)@, r@) == on_spawned(
                old(self)@,
                ext_opt(next),
                capture,
                bg,
            ),
    {
        let r = {
            match next {
                Some(n) => {
                    let name = copy_str(&n.name);
                    self.go2(Frame::StageName(n, false, capture, bg), text_frame(name), Value::Unit)
                },
                None => self.ask1(Frame::Trim, Action::Capture),
            }
        };
        proof {
            lemma_same((self@, r@), on_spawned( old(self)@, ext_opt(next), capture, bg, ));
        }
        r
    }

    /// After the stage that is the job of its pipeline was spawned.
    fn on_last(&mut self, jobs: &mut Jobs, bg: bool, pid: i32) -> (r: Action)
        ensures
            registered(old(self)@, bg, pid, old(jobs)@, final(jobs)@, (final(self)@, r@)),
    {
        if bg {
            match jobs.new_bg(pid) {
                Ok((id, p)) => {
                    self.tell(Message::Note(Notice::Started(id, p)));
                    let r = self.yields(Value::Unit);
                    assert(registered_as(old(self)@, id, pid, old(jobs)@, jobs@, (self@, r@)));
                    r
                },
                Err(e) => self.fail(EvalError::Job(e)),
            }
        } else {
            match jobs.new_fg(pid) {
                Ok(()) => self.yields(Value::Unit),
                Err(e) => self.fail(EvalError::Job(e)),
            }
        }
    }

    /// Captured output.
    fn on_trim(&mut self, v: Value) -> (r: Action)
        ensures
            (final(self)@, r@) == on_trim(old(self)@, v@),
    {
        let r = {
            match v {
                Value::Text(t) => self.yields(Value::Text(trim_end(t.as_str()))),
                _ => self.fail(EvalError::Protocol),
            }
        };
        proof {
            lemma_same((self@, r@), on_trim(old(self)@, v@));
        }
        r
    }

    /// A special string, from a fragment on.
    fn on_parts(&mut self, parts: Vec<StrKind>, n: usize, acc: String, v: Value, jobs: &Jobs) -> (r:
        Action)
        ensures
            (final(self)@, r@) == on_parts(
                old(self)@,
                crate::parse::syntax::kinds_view(parts@),
                n as nat,
                acc@,
                v@,
                jobs@,
            ),
    {
        let r = {
            let mut text = acc;
            match v {
                Value::Text(t) => {
                    text.append(t.as_str());
                },
                _ => {},
            }
            match render(&parts, n, text, self.namespace(), jobs) {
                Rendered::Text(t) => self.yields(Value::Text(t)),
                Rendered::Unset(k) => self.fail(EvalError::Unset(k)),
                Rendered::NoJob => self.fail(EvalError::Job(JobError::NotFound)),
                Rendered::Command(i, t) => {
                    proof {
                        lemma_kinds_view(parts@);
                    }
                    assert(i < parts.len());
                    match &parts[i] {
                        StrKind::Cmd(c) => {
                            let ext = External::lower(c);
                            let name = copy_str(&c.name);
                            self.go3(
                                Frame::Parts(parts, i + 1, t),
                                Frame::StageName(ext, true, true, false),
                                text_frame(name),
                                Value::Unit,
                            )
                        },
                        _ => self.fail(EvalError::Protocol),
                    }
                },
            }
        };
        proof {
            lemma_same(
                (self@, r@),
                on_parts(
                    old(self)@,
                    crate::parse::syntax::kinds_view(parts@),
                    n as nat,
                    acc@,
                    v@,
                    jobs@,
                ),
            );
        }
        r
    }

    /// Arguments, from one on.
    fn on_words(&mut self, args: Vec<Arg>, n: usize, acc: Vec<String>, v: Value) -> (r: Action)
        ensures
            (final(self)@, r@) == on_words(
                old(self)@,
                words_view(args@),
                n as nat,
                texts(acc@),
                v@,
            ),
    {
        let r = {
            let mut list = acc;
            match v {
                Value::Text(t) => {
                    if 0 < n && n <= args.len() {
                        match &args[n - 1] {
                            Arg::Normal(_) => {
                                let ghost before = texts(list@);
                                list.push(t);
                                assert(texts(list@) =~= before.push(t@));
                            },
                            Arg::Expand(_) => {
                                let ghost before = texts(list@);
                                let mut more = words(t.as_str());
                                let ghost added = texts(more@);
                                list.append(&mut more);
                                assert(texts(list@) =~= before + added);
                            },
                        }
                    }
                },
                _ => {},
            }
            if n < args.len() {
                let s = match &args[n] {
                    Arg::Normal(s) => copy_str(s),
                    Arg::Expand(s) => copy_str(s),
                };
                self.go2(Frame::Words(args, n + 1, list), text_frame(s), Value::Unit)
            } else {
                self.yields(Value::List(list))
            }
        };
        proof {
            lemma_same(
                (self@, r@),
                on_words(
                    old(self)@,
                    words_view(args@),
                    n as nat,
                    texts(acc@),
                    v@,
                ),
            );
        }
        r
    }

    /// The turn of a frame of blocks and control flow.
    fn control_turn(&mut self, frame: Frame, v: Value) -> (r: Action)
        requires
            part_of(frame@) == Part::Control,
        ensures
            (final(self)@, r@) == control_turn(old(self)@, frame@, v@),
    {
        match frame {
            Frame::Run(b) => self.on_run(b),
            Frame::Lines(l, n) => self.on_lines(l, n, v),
            Frame::Scope => self.on_scope(v),
            Frame::Cond(a, e) => self.on_cond(a, e, v),
            Frame::Pats(c, arms, a, p, hit) => self.on_pats(c, arms, a, p, hit, v),
            Frame::ForOf(x, b) => self.on_for(x, b, v),
            Frame::Each(x, vals, n, b) => self.on_each(x, vals, n, b, v),
            Frame::WhileOf(c, b) => self.on_while(c, b, v),
            Frame::Again(c, b) => self.on_again(c, b, v),
            _ => self.fail(EvalError::Protocol),
        }
    }

    /// The turn of a frame of commands.
    fn command_turn(&mut self, jobs: &mut Jobs, frame: Frame, v: Value) -> (r: Action)
        requires
            part_of(frame@) == Part::Command,
        ensures
            command_turn(old(self)@, frame@, v@, old(jobs)@, final(jobs)@, (final(self)@, r@)),
    {
        match frame {
            Frame::Settle => self.on_settle(jobs),
            Frame::Settled => self.settled_turn(jobs, v),
            Frame::Named(c) => self.on_named(c, v),
            Frame::Call(n, b) => self.on_call(n, b, v),
            Frame::Swallow => self.yields(Value::Unit),
            Frame::Built(k) => self.built_turn(jobs, k, v),
            Frame::Script(f, a) => self.on_script(f, a, v),
            Frame::Feed(l, n) => self.on_feed(l, n),
            Frame::Catch => self.yields(Value::Unit),
            _ => self.fail(EvalError::Protocol),
        }
    }

    /// The turn of the frame after the wait for the foreground process.
    fn settled_turn(&mut self, jobs: &mut Jobs, v: Value) -> (r: Action)
        ensures
            command_turn(
                old(self)@,
                FrameView::Settled,
                v@,
                old(jobs)@,
                final(jobs)@,
                (final(self)@, r@),
            ),
    {
        match v {
            Value::Status(s) => self.on_settled(jobs, s),
            _ => self.fail(EvalError::Protocol),
        }
    }

    /// The turn of a command of the shell's own.
    fn built_turn(&mut self, jobs: &mut Jobs, k: BuiltinKind, v: Value) -> (r: Action)
        ensures
            command_turn(
                old(self)@,
                FrameView::Built(k),
                v@,
                old(jobs)@,
                final(jobs)@,
                (final(self)@, r@),
            ),
    {
        let ghost before = self@;
        let ghost vv = v@;
        match v {
            Value::List(args) => match k {
                BuiltinKind::Fg => {
                    let ghost list = texts(args@);
                    let r = self.on_fg(jobs, args);
                    proof {
                        let x = choose|x: Result<(), BuiltinError>|
                            fg_then(before, list, old(jobs)@, jobs@, x, (self@, r@));
                        assert(fg_then(before, list, old(jobs)@, jobs@, x, (self@, r@)));
                        assert(vv == ValueView::List(list));
                        let then = (self@, r@);
                        assert(on_fg(before, list, old(jobs)@, jobs@, then));
                        assert(k == BuiltinKind::Fg);
                        assert(command_turn(
                            before,
                            FrameView::Built(BuiltinKind::Fg),
                            ValueView::List(list),
                            old(jobs)@,
                            jobs@,
                            then,
                        ));
                    }
                    r
                },
                _ => {
                    let ghost list = texts(args@);
                    let r = self.on_built(k, args);
                    proof {
                        assert(vv == ValueView::List(list));
                        assert((self@, r@) == on_built(before, k, list));
                        assert(command_turn(
                            before,
                            FrameView::Built(k),
                            vv,
                            old(jobs)@,
                            jobs@,
                            (self@, r@),
                        ));
                    }
                    r
                },
            },
            _ => {
                let r = self.fail(EvalError::Protocol);
                proof {
                    assert(command_turn(
                        before,
                        FrameView::Built(k),
                        vv,
                        old(jobs)@,
                        jobs@,
                        (self@, r@),
                    ));
                }
                r
            },
        }
    }

    /// The turn of a frame of pipelines, special strings and arguments.
    fn pipeline_turn(&mut self, jobs: &mut Jobs, frame: Frame, v: Value) -> (r: Action)
        requires
            part_of(frame@) == Part::Pipeline,
        ensures
            pipeline_turn(old(self)@, frame@, v@, old(jobs)@, final(jobs)@, (final(self)@, r@)),
    {
        match frame {
            Frame::StageName(c, first, capture, bg) => self.on_stage_name(c, first, capture, bg, v),
            Frame::StageArgs(c, n, first, capture, bg) => self.on_stage_args(
                c,
                n,
                first,
                capture,
                bg,
                v,
            ),
            Frame::StageWires(next, n, a, w, capture, bg) => self.on_stage_wires(
                next,
                n,
                a,
                w,
                capture,
                bg,
                v,
            ),
            Frame::Spawned(next, capture, bg) => match v {
                Value::Pid(pid) => if next.is_some() || capture {
                    self.on_spawned(next, capture, bg)
                } else {
                    self.on_last(jobs, bg, pid)
                },
                _ => self.fail(EvalError::Protocol),
            },
            Frame::Trim => self.on_trim(v),
            Frame::Parts(p, n, acc) => self.on_parts(p, n, acc, v, jobs),
            Frame::Words(a, n, acc) => self.on_words(a, n, acc, v),
            _ => self.fail(EvalError::Protocol),
        }
    }

    /// The turn of the frame `frame`, with the value `v`.
    fn turn(&mut self, jobs: &mut Jobs, frame: Frame, v: Value) -> (r: Action)
        ensures
            turned(old(self)@, frame@, v@, old(jobs)@, final(jobs)@, (final(self)@, r@)),
    {
        match part(&frame) {
            Part::Control => self.control_turn(frame, v),
            Part::Command => self.command_turn(jobs, frame, v),
            Part::Pipeline => self.pipeline_turn(jobs, frame, v),
        }
    }

    /// One step of the evaluation: takes what the host has to tell, and
    /// gives what the host is to do next.
    ///
    /// The host locks the job table for the step, and not while it does
    /// what the step asked for.
    pub fn step(&mut self, jobs: &mut Jobs, event: Event) -> (r: Action)
        ensures
            steps(old(self)@, old(jobs)@, event@, final(self)@, final(jobs)@, r@),
    {
        if self.idle() {
            return Action::Finished(Ok(()));
        }
        let (frame, carried) = self.pop();
        let v = match event {
            Event::Failed(msg) => {
                self.restore(frame);
                proof {
                    assert(old(self)@.stack.drop_last().push(old(self)@.stack.last())
                        =~= old(self)@.stack);
                    assert(self@ == (MachineView { value: ValueView::Unit, ..old(self)@ }));
                }
                return self.fail(EvalError::Host(msg));
            },
            Event::Resume => carried,
            Event::Spawned(p) => Value::Pid(p),
            Event::Captured(t) => Value::Text(t),
            Event::Waited(s) => Value::Status(s),
            Event::Done => Value::Unit,
            Event::Script(l) => Value::List(l),
        };
        self.turn(jobs, frame, v)
    }
}

/// The part that a frame belongs to.
fn part(frame: &Frame) -> (r: Part)
    ensures
        r == part_of(frame@),
{
    match frame {
        Frame::Run(_) => Part::Control,
        Frame::Lines(_, _) => Part::Control,
        Frame::Scope => Part::Control,
        Frame::Cond(_, _) => Part::Control,
        Frame::Pats(_, _, _, _, _) => Part::Control,
        Frame::ForOf(_, _) => Part::Control,
        Frame::Each(_, _, _, _) => Part::Control,
        Frame::WhileOf(_, _) => Part::Control,
        Frame::Again(_, _) => Part::Control,
        Frame::Settle => Part::Command,
        Frame::Settled => Part::Command,
        Frame::Named(_) => Part::Command,
        Frame::Call(_, _) => Part::Command,
        Frame::Swallow => Part::Command,
        Frame::Built(_) => Part::Command,
        Frame::Script(_, _) => Part::Command,
        Frame::Feed(_, _) => Part::Command,
        Frame::Catch => Part::Command,
        _ => Part::Pipeline,
    }
}

/// How far a special string was rendered.
enum Rendered {
    Text(String),
    Command(usize, String),
    Unset(String),
    NoJob,
}

/// Whether `r` is the rendering `w`.
spec fn rendered_is(r: Rendered, w: Rendering, parts: Seq<StrKind>) -> bool {
    match (r, w) {
        (Rendered::Text(t), Rendering::Text(u)) => t@ == u,
        (Rendered::Command(i, t), Rendering::Command(j, u, c)) => i == j && t@ == u && i
            < parts.len() && parts[i as int]@ == crate::parse::syntax::StrKindView::Cmd(c),
        (Rendered::Unset(k), Rendering::Unset(l)) => k@ == l,
        (Rendered::NoJob, Rendering::NoJob) => true,
        _ => false,
    }
}

/// Renders the fragments from `n` on after the text `acc`, as far as that
/// goes without running a command.
fn render(parts: &Vec<StrKind>, n: usize, acc: String, ns: &NameSpace, jobs: &Jobs) -> (r:
    Rendered)
    ensures
        rendered_is(
            r,
            rendered(
                crate::parse::syntax::kinds_view(parts@),
                n as nat,
                acc@,
                ns@.vars.env,
                jobs@,
            ),
            parts@,
        ),
        r matches Rendered::Command(i, _) ==> i < parts@.len(),
{
    let ghost views = crate::parse::syntax::kinds_view(parts@);
    let ghost env = ns@.vars.env;
    let mut text = acc;
    let mut k = n;
    proof {
        lemma_kinds_view(parts@);
    }
    while k < parts.len()
        invariant
            views == crate::parse::syntax::kinds_view(parts@),
            views.len() == parts@.len(),
            env == ns@.vars.env,
            rendered(views, n as nat, acc@, env, jobs@) == rendered(
                views,
                k as nat,
                text@,
                env,
                jobs@,
            ),
        decreases parts.len() - k,
    {
        proof {
            lemma_kinds_view(parts@);
            assert(views[k as int] == parts@[k as int]@);
        }
        match &parts[k] {
            StrKind::String(x) => {
                text.append(x.as_str());
            },
            StrKind::Var(key) => match ns.get_var(key.as_str()) {
                Some(val) => {
                    text.append(val.as_str());
                },
                None => {
                    return Rendered::Unset(key.clone());
                },
            },
            StrKind::Pid(id) => match jobs.get_pid(id) {
                Ok(pid) => {
                    text.append(format_i32(pid).as_str());
                },
                Err(_) => {
                    return Rendered::NoJob;
                },
            },
            StrKind::Cmd(c) => {
                return Rendered::Command(k, text);
            },
        }
        k = k + 1;
    }
    Rendered::Text(text)
}

/// The texts that name the files of a wiring, as arguments to evaluate.
fn wire_list(w: &Wiring) -> (r: Args)
    ensures
        r@ == wire_texts(w@),
{
    let mut out: Vec<Arg> = Vec::new();
    match &w.stdout {
        OutWire::File(_, t) => {
            out.push(Arg::Normal(copy_str(t)));
        },
        _ => {},
    }
    match &w.stderr {
        OutWire::File(_, t) => {
            out.push(Arg::Normal(copy_str(t)));
        },
        _ => {},
    }
    match &w.stdin {
        InWire::File(t) => {
            out.push(Arg::Normal(copy_str(t)));
        },
        InWire::HereDoc(t) => {
            out.push(Arg::Normal(copy_str(t)));
        },
        _ => {},
    }
    let r = Args(out);
    assert(r@ =~= wire_texts(w@));
    r
}

/// The stage to spawn; `None` where the files are not as many as the
/// wiring names.
fn stage(name: String, args: Vec<String>, w: &Wiring, files: &Vec<String>) -> (r: Option<Stage>)
    ensures
        files@.len() == wire_texts(w@).len() ==> (r matches Some(s) && s@ == staged(
            name@,
            texts(args@),
            w@,
            texts(files@),
        )),
        files@.len() != wire_texts(w@).len() ==> r is None,
{
    let mut k: usize = 0;
    let need_out = match &w.stdout {
        OutWire::File(_, _) => true,
        _ => false,
    };
    let need_err = match &w.stderr {
        OutWire::File(_, _) => true,
        _ => false,
    };
    let need_in = match &w.stdin {
        InWire::File(_) => true,
        InWire::HereDoc(_) => true,
        _ => false,
    };
    let o: usize = if need_out {
        1
    } else {
        0
    };
    let e: usize = if need_err {
        o + 1
    } else {
        o
    };
    let all: usize = if need_in {
        e + 1
    } else {
        e
    };
    assert(wire_texts(w@).len() == all);
    if files.len() != all {
        return None;
    }
    let stdout = match &w.stdout {
        OutWire::Inherit => Output::Inherit,
        OutWire::Pipe => Output::Pipe,
        OutWire::File(mode, _) => Output::File(*mode, files[0].clone()),
        OutWire::Shared => Output::Shared,
    };
    let stderr = match &w.stderr {
        OutWire::Inherit => Output::Inherit,
        OutWire::Pipe => Output::Pipe,
        OutWire::File(mode, _) => Output::File(*mode, files[o].clone()),
        OutWire::Shared => Output::Shared,
    };
    let stdin = match &w.stdin {
        InWire::Inherit => Input::Inherit,
        InWire::Pipe => Input::Previous,
        InWire::File(_) => Input::File(files[e].clone()),
        InWire::HereDoc(_) => Input::HereDoc(files[e].clone()),
    };
    Some(Stage { name, args, stdin, stdout, stderr })
}

} // verus!
