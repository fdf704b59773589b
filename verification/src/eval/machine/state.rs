//! The machine itself, and the moves that every transition is made of.

use super::semantics::{scopes, unwound, MachineView};
use super::types::{
    frames_view, messages_view, Action, EvalError, Frame, FrameView, Message, Value, ValueView,
};
use crate::eval::block::Block;
use crate::eval::command::builtin::{assignment, export, let_, BuiltinError};
use crate::eval::namespace::vars::{lemma_vars, lemma_with_args};
use crate::eval::namespace::{NameSpace, NameSpaceView};
use crate::text::texts;
use vstd::prelude::*;

verus! {

/// The evaluator between two steps.
#[derive(Debug)]
pub struct Machine {
    pub(crate) ns: NameSpace,
    pub(crate) stack: Vec<Frame>,
    pub(crate) value: Value,
    pub(crate) out: Vec<Message>,
    pub(crate) base: usize,
}

impl View for Machine {
    type V = MachineView;

    closed spec fn view(&self) -> MachineView {
        MachineView {
            stack: frames_view(self.stack@),
            value: self.value@,
            ns: self.ns@,
            out: messages_view(self.out@),
            base: self.base as nat,
        }
    }
}

/// The views of a stack with one more frame are the views of the stack
/// and the view of the frame.
pub proof fn lemma_frames_push(s: Seq<Frame>, f: Frame)
    ensures
        frames_view(s.push(f)) == frames_view(s).push(f@),
{
    assert(frames_view(s.push(f)) =~= frames_view(s).push(f@));
}

/// The views of a stack without its top are the views of the stack without
/// the last.
pub proof fn lemma_frames_pop(s: Seq<Frame>)
    requires
        s.len() > 0,
    ensures
        frames_view(s.drop_last()) == frames_view(s).drop_last(),
        frames_view(s).last() == s.last()@,
{
    assert(frames_view(s.drop_last()) =~= frames_view(s).drop_last());
}

impl Machine {
    /// A machine with the namespace `ns` and no work.
    pub fn new(ns: NameSpace) -> (r: Machine)
        ensures
            r@.stack.len() == 0,
            r@.ns == ns@,
            r@.out.len() == 0,
            r@.value == ValueView::Unit,
            r@.balanced(),
    {
        let base = ns.depth();
        let r = Machine { ns, stack: Vec::new(), value: Value::Unit, out: Vec::new(), base };
        proof {
            assert(r@.stack =~= Seq::empty());
            assert(scopes(r@.stack) == 0);
        }
        r
    }

    /// Whether no work is left.
    pub fn idle(&self) -> (r: bool)
        ensures
            r == (self@.stack.len() == 0),
    {
        self.stack.len() == 0
    }

    /// Gives the machine the block `block` to evaluate, if it has no work.
    /// Says whether it took the block.
    pub fn start(&mut self, block: Block) -> (r: bool)
        ensures
            r == (old(self)@.stack.len() == 0),
            r ==> final(self)@ == (MachineView {
                stack: seq![FrameView::Run(block@)],
                value: ValueView::Unit,
                ..old(self)@
            }),
            !r ==> final(self)@ == old(self)@,
            old(self)@.balanced() ==> final(self)@.balanced(),
    {
        if self.stack.len() != 0 {
            return false;
        }
        proof {
            lemma_frames_push(self.stack@, Frame::Run(block));
        }
        self.stack.push(Frame::Run(block));
        self.value = Value::Unit;
        proof {
            assert(self@.stack =~= seq![FrameView::Run(block@)]);
            assert(self@.stack.drop_last() =~= old(self)@.stack);
            assert(scopes(old(self)@.stack) == 0);
            assert(scopes(self@.stack) == 0);
        }
        true
    }

    /// Opens the scope of a script that is run as a whole, with the
    /// variables of its call set, if the machine has no work and the depth
    /// can be counted. Says whether it did. The scope stays open from one
    /// block of the script to the next, until `leave` closes it.
    pub fn enter(&mut self, name: &str, args: &Vec<String>) -> (r: bool)
        ensures
            r == (old(self)@.stack.len() == 0 && old(self)@.base < usize::MAX),
            r ==> final(self)@ == (MachineView {
                base: old(self)@.base + 1,
                ..old(self)@.with_vars(old(self)@.ns.vars.marked().with_args(name@, texts(args@)))
            }),
            !r ==> final(self)@ == old(self)@,
            old(self)@.balanced() ==> final(self)@.balanced(),
    {
        if self.stack.len() != 0 || self.base == usize::MAX {
            return false;
        }
        proof {
            if self@.balanced() {
                lemma_vars(self@.ns.vars);
                lemma_with_args(self@.ns.vars.marked(), name@, texts(args@));
            }
        }
        self.ns.mark();
        self.ns.set_args(name, args);
        self.base = self.base + 1;
        true
    }

    /// Closes the scope that `enter` opened, if the machine has no work and
    /// such a scope is open. Says whether it did.
    pub fn leave(&mut self) -> (r: bool)
        ensures
            r == (old(self)@.stack.len() == 0 && old(self)@.base > 0),
            r ==> final(self)@ == (MachineView {
                base: (old(self)@.base - 1) as nat,
                ..old(self)@.with_vars(old(self)@.ns.vars.dropped())
            }),
            !r ==> final(self)@ == old(self)@,
            old(self)@.balanced() ==> final(self)@.balanced(),
    {
        if self.stack.len() != 0 || self.base == 0 {
            return false;
        }
        proof {
            if self@.balanced() {
                lemma_vars(self@.ns.vars);
            }
        }
        self.ns.drop();
        self.base = self.base - 1;
        true
    }

    /// The namespace.
    pub fn namespace(&self) -> (r: &NameSpace)
        ensures
            r@ == self@.ns,
    {
        &self.ns
    }

    /// Ends the machine and gives its namespace back.
    pub fn into_namespace(self) -> (r: NameSpace)
        ensures
            r@ == self@.ns,
    {
        self.ns
    }

    /// Fetches the messages for the user, oldest first.
    pub fn take_messages(&mut self) -> (r: Vec<Message>)
        ensures
            messages_view(r@) == old(self)@.out,
            final(self)@ == (MachineView { out: Seq::empty(), ..old(self)@ }),
    {
        let mut out: Vec<Message> = Vec::new();
        std::mem::swap(&mut out, &mut self.out);
        assert(messages_view(self.out@) =~= Seq::empty());
        out
    }

    /// Leaves a message for the user.
    pub(crate) fn tell(&mut self, msg: Message)
        ensures
            final(self)@ == old(self)@.tells(msg@),
    {
        self.out.push(msg);
        assert(messages_view(self.out@) =~= messages_view(old(self).out@).push(msg@));
    }

    /// Hands `v` on to the frame on top.
    pub(crate) fn yields(&mut self, v: Value) -> (r: Action)
        ensures
            (final(self)@, r@) == old(self)@.yields(v@),
    {
        self.value = v;
        Action::Continue
    }

    /// Puts `a` on the stack and hands `v` on.
    pub(crate) fn go1(&mut self, a: Frame, v: Value) -> (r: Action)
        ensures
            (final(self)@, r@) == old(self)@.goes1(a@, v@),
    {
        proof {
            lemma_frames_push(self.stack@, a);
        }
        self.stack.push(a);
        self.value = v;
        Action::Continue
    }

    /// Puts `a` and `b` on the stack, `b` on top, and hands `v` on.
    pub(crate) fn go2(&mut self, a: Frame, b: Frame, v: Value) -> (r: Action)
        ensures
            (final(self)@, r@) == old(self)@.goes2(a@, b@, v@),
    {
        proof {
            lemma_frames_push(self.stack@, a);
            lemma_frames_push(self.stack@.push(a), b);
        }
        self.stack.push(a);
        self.stack.push(b);
        self.value = v;
        Action::Continue
    }

    /// Puts `a`, `b` and `c` on the stack, `c` on top, and hands `v` on.
    pub(crate) fn go3(&mut self, a: Frame, b: Frame, c: Frame, v: Value) -> (r: Action)
        ensures
            (final(self)@, r@) == old(self)@.goes3(a@, b@, c@, v@),
    {
        proof {
            lemma_frames_push(self.stack@, a);
            lemma_frames_push(self.stack@.push(a), b);
            lemma_frames_push(self.stack@.push(a).push(b), c);
        }
        self.stack.push(a);
        self.stack.push(b);
        self.stack.push(c);
        self.value = v;
        Action::Continue
    }

    /// Asks `act` of the host.
    pub(crate) fn ask0(&mut self, act: Action) -> (r: Action)
        ensures
            (final(self)@, r@) == old(self)@.asks0(act@),
    {
        self.value = Value::Unit;
        act
    }

    /// Puts `a` on the stack and asks `act` of the host.
    pub(crate) fn ask1(&mut self, a: Frame, act: Action) -> (r: Action)
        ensures
            (final(self)@, r@) == old(self)@.asks1(a@, act@),
    {
        proof {
            lemma_frames_push(self.stack@, a);
        }
        self.stack.push(a);
        self.value = Value::Unit;
        act
    }

    /// Opens a scope.
    pub(crate) fn mark(&mut self)
        ensures
            final(self)@ == old(self)@.with_vars(old(self)@.ns.vars.marked()),
    {
        self.ns.mark();
    }

    /// Closes the innermost scope.
    pub(crate) fn drop_scope(&mut self)
        ensures
            final(self)@ == old(self)@.with_vars(old(self)@.ns.vars.dropped()),
    {
        self.ns.drop();
    }

    /// Sets a variable for the innermost open scope.
    pub(crate) fn push_var(&mut self, key: &str, value: &str)
        ensures
            final(self)@ == old(self)@.with_vars(old(self)@.ns.vars.pushed(key@, value@)),
    {
        self.ns.push_var(key, value);
    }

    /// Opens a scope and sets the variables of a call in it.
    pub(crate) fn call_scope(&mut self, name: &str, args: &Vec<String>)
        ensures
            final(self)@ == old(self)@.with_vars(
                old(self)@.ns.vars.marked().with_args(name@, texts(args@)),
            ),
    {
        self.ns.mark();
        self.ns.set_args(name, args);
    }

    /// Defines a procedure.
    pub(crate) fn push_proc(&mut self, name: String, body: Block)
        ensures
            final(self)@ == (MachineView {
                ns: NameSpaceView {
                    procs: old(self)@.ns.procs.insert(name@, body@),
                    ..old(self)@.ns
                },
                ..old(self)@
            }),
    {
        self.ns.push_proc(name, body);
    }

    /// `let`, or `export` where `global` is set.
    pub(crate) fn assign(&mut self, args: &Vec<String>, global: bool) -> (r: Result<
        (),
        BuiltinError,
    >)
        ensures
            match assignment(texts(args@)) {
                Ok((k, v)) => r == Ok::<(), BuiltinError>(()) && final(self)@
                    == old(self)@.with_vars(
                    if global {
                        old(self)@.ns.vars.gpushed(k, v)
                    } else {
                        old(self)@.ns.vars.pushed(k, v)
                    },
                ),
                Err(e) => r == Err::<(), BuiltinError>(e) && final(self)@ == old(self)@,
            },
    {
        if global {
            export(args, &mut self.ns)
        } else {
            let_(args, &mut self.ns)
        }
    }

    /// Takes the frame on top and the value handed on.
    pub(crate) fn pop(&mut self) -> (r: (Frame, Value))
        requires
            old(self)@.stack.len() > 0,
        ensures
            r.0@ == old(self)@.stack.last(),
            r.1@ == old(self)@.value,
            final(self)@ == (MachineView {
                stack: old(self)@.stack.drop_last(),
                value: ValueView::Unit,
                ..old(self)@
            }),
    {
        proof {
            lemma_frames_pop(self.stack@);
        }
        let mut carried = Value::Unit;
        std::mem::swap(&mut carried, &mut self.value);
        let frame = match self.stack.pop() {
            Some(f) => f,
            None => Frame::Swallow,
        };
        (frame, carried)
    }

    /// Puts back the frame that `pop` took.
    pub(crate) fn restore(&mut self, frame: Frame)
        ensures
            final(self)@ == (MachineView {
                stack: old(self)@.stack.push(frame@),
                ..old(self)@
            }),
    {
        proof {
            lemma_frames_push(self.stack@, frame);
        }
        self.stack.push(frame);
    }

    /// Takes the stack down after the failure `err`.
    pub(crate) fn fail(&mut self, err: EvalError) -> (r: Action)
        ensures
            (final(self)@, r@) == old(self)@.fails(err@),
    {
        self.value = Value::Unit;
        let ghost start = self@;
        loop
            invariant
                self@.value == ValueView::Unit,
                self@.out == start.out,
                self@.base == start.base,
                self@.ns.procs == start.ns.procs,
                unwound(start.stack, start.ns.vars) == unwound(self@.stack, self@.ns.vars),
                start == (MachineView { value: ValueView::Unit, ..old(self)@ }),
            decreases self.stack@.len(),
        {
            proof {
                if self.stack@.len() > 0 {
                    lemma_frames_pop(self.stack@);
                }
            }
            match self.stack.pop() {
                None => {
                    return Action::Finished(Err(err));
                },
                Some(Frame::Catch) => {
                    self.tell(Message::Fault(err.copy()));
                    return Action::Continue;
                },
                Some(Frame::Scope) => {
                    self.ns.drop();
                },
                Some(_) => {},
            }
        }
    }
}

impl Block {
    /// Gives the block to the machine `m` to evaluate, if the machine has no
    /// work. Says whether the machine took it; the host then drives the
    /// machine with `step` until the evaluation is finished.
    pub fn eval(self, m: &mut Machine) -> (r: bool)
        ensures
            r == (old(m)@.stack.len() == 0),
            r ==> final(m)@ == (MachineView {
                stack: seq![FrameView::Run(self@)],
                value: ValueView::Unit,
                ..old(m)@
            }),
            !r ==> final(m)@ == old(m)@,
            old(m)@.balanced() ==> final(m)@.balanced(),
    {
        m.start(self)
    }
}

} // verus!
