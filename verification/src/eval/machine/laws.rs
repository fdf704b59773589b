//! What holds of every step of the evaluator.

use super::semantics::{
    after_fg, after_wait, command_turn, control_turn, fg_then, on_built, part_of, pipeline_turn,
    registered_as, scopes, settled_then, steps, unwound, MachineView, Part, Table,
};
use super::types::{ActionView, EvalErrorView, EventView, FrameView, MessageView, ValueView};

use crate::eval::command::builtin::{BuiltinError, BuiltinKind};
use crate::eval::namespace::vars::{lemma_vars, lemma_with_args, VarsView};
use crate::eval::namespace::NameSpaceView;
use crate::job::jobs::Waited;
use crate::job::status::{JobError, Status};
use vstd::prelude::*;

verus! {

/// Whether the outcome of a step leaves the scopes balanced, and no work
/// where it ends the evaluation.
pub open spec fn sound(then: (MachineView, ActionView)) -> bool {
    then.0.balanced() && (then.1 is Finished ==> then.0.stack.len() == 0)
}

/// How many scopes a frame holds open.
pub open spec fn held(f: FrameView) -> nat {
    if f is Scope {
        1
    } else {
        0
    }
}

proof fn lemma_push(s: Seq<FrameView>, f: FrameView)
    ensures
        scopes(s.push(f)) == scopes(s) + held(f),
{
    assert(s.push(f).drop_last() =~= s);
}

/// Every move of a machine whose scopes are balanced but for `d` more that
/// are open is sound, where the frames that the move puts on the stack
/// hold `d` scopes.
proof fn lemma_moves(m: MachineView, d: nat)
    requires
        m.ns.vars.wf(),
        m.ns.vars.depth() == m.base + scopes(m.stack) + d,
    ensures
        forall|v: ValueView| d == 0 ==> sound(#[trigger] m.yields(v)),
        forall|a: FrameView, v: ValueView| held(a) == d ==> sound(#[trigger] m.goes1(a, v)),
        forall|a: FrameView, b: FrameView, v: ValueView|
            held(a) + held(b) == d ==> sound(#[trigger] m.goes2(a, b, v)),
        forall|a: FrameView, b: FrameView, c: FrameView, v: ValueView|
            held(a) + held(b) + held(c) == d ==> sound(#[trigger] m.goes3(a, b, c, v)),
        forall|act: ActionView| d == 0 && !(act is Finished) ==> sound(#[trigger] m.asks0(act)),
        forall|a: FrameView, act: ActionView|
            held(a) == d && !(act is Finished) ==> sound(#[trigger] m.asks1(a, act)),
{
    assert forall|a: FrameView| scopes(m.stack.push(a)) == scopes(m.stack) + held(a) by {
        lemma_push(m.stack, a);
    }
    assert forall|a: FrameView, b: FrameView|
        scopes(m.stack.push(a).push(b)) == scopes(m.stack) + held(a) + held(b) by {
        lemma_push(m.stack, a);
        lemma_push(m.stack.push(a), b);
    }
    assert forall|a: FrameView, b: FrameView, c: FrameView|
        scopes(m.stack.push(a).push(b).push(c)) == scopes(m.stack) + held(a) + held(b) + held(
            c,
        ) by {
        lemma_push(m.stack, a);
        lemma_push(m.stack.push(a), b);
        lemma_push(m.stack.push(a).push(b), c);
    }
}

proof fn lemma_unwound(stack: Seq<FrameView>, vars: VarsView, base: nat)
    requires
        vars.wf(),
        vars.depth() == base + scopes(stack),
    ensures
        unwound(stack, vars).1.wf(),
        unwound(stack, vars).1.depth() == base + scopes(unwound(stack, vars).0),
        !unwound(stack, vars).2 ==> unwound(stack, vars).0.len() == 0,
    decreases stack.len(),
{
    if stack.len() == 0 {
    } else if stack.last() is Catch {
    } else if stack.last() is Scope {
        lemma_vars(vars);
        lemma_unwound(stack.drop_last(), vars.dropped(), base);
    } else {
        lemma_unwound(stack.drop_last(), vars, base);
    }
}

proof fn lemma_fails(m: MachineView)
    requires
        m.balanced(),
    ensures
        forall|err: EvalErrorView| sound(#[trigger] m.fails(err)),
{
    lemma_unwound(m.stack, m.ns.vars, m.base);
}

/// A machine with other variables, where those are well formed and as
/// deep, is balanced as it was.
proof fn lemma_same_depth(m: MachineView, vars: VarsView)
    requires
        m.balanced(),
        vars.wf(),
        vars.depth() == m.ns.vars.depth(),
    ensures
        m.with_vars(vars).balanced(),
        forall|v: ValueView| sound(#[trigger] m.with_vars(vars).yields(v)),
        forall|a: FrameView, v: ValueView|
            held(a) == 0 ==> sound(#[trigger] m.with_vars(vars).goes1(a, v)),
        forall|a: FrameView, b: FrameView, v: ValueView|
            held(a) + held(b) == 0 ==> sound(#[trigger] m.with_vars(vars).goes2(a, b, v)),
{
    lemma_moves(m.with_vars(vars), 0);
}

proof fn lemma_control(m: MachineView, top: FrameView, v: ValueView)
    requires
        m.ns.vars.wf(),
        m.ns.vars.depth() == m.base + scopes(m.stack) + held(top),
        part_of(top) == Part::Control,
    ensures
        sound(control_turn(m, top, v)),
{
    lemma_vars(m.ns.vars);
    match top {
        FrameView::Scope => {
            lemma_moves(m.with_vars(m.ns.vars.dropped()), 0);
        },
        FrameView::Run(b) => {
            lemma_moves(m, 0);
            lemma_moves(m.with_vars(m.ns.vars.marked()), 1);
            if b is Proc {
                let procs = MachineView {
                    ns: NameSpaceView {
                        procs: m.ns.procs.insert(b->Proc_0, *b->Proc_1),
                        ..m.ns
                    },
                    ..m
                };
                lemma_moves(procs, 0);
            }
        },
        FrameView::Each(x, vals, n, b) => {
            lemma_moves(m, 0);
            lemma_fails(m);
            if n < vals.len() {
                lemma_same_depth(m, m.ns.vars.pushed(x, vals[n as int]));
            }
        },
        _ => {
            lemma_moves(m, 0);
            lemma_fails(m);
        },
    }
}

proof fn lemma_after_wait(m: MachineView, s: Status, r: Result<Waited, JobError>)
    requires
        m.balanced(),
    ensures
        sound(after_wait(m, s, r)),
{
    lemma_fails(m);
    lemma_vars(m.ns.vars);
    if let Ok(w) = r {
        let told = match w.notice {
            Some(n) => m.tells(MessageView::Note(n)),
            None => m,
        };
        lemma_moves(told, 0);
        if let Some(Status::Exited(code)) = w.status {
            lemma_same_depth(
                told,
                told.ns.vars.pushed("status"@, crate::text::signed_decimal(code as int)),
            );
        }
    }
}

proof fn lemma_built(m: MachineView, kind: BuiltinKind, args: Seq<Seq<char>>)
    requires
        m.balanced(),
    ensures
        sound(on_built(m, kind, args)),
{
    lemma_fails(m);
    lemma_moves(m, 0);
    lemma_vars(m.ns.vars);
    match crate::eval::command::builtin::assignment(args) {
        Ok((k, x)) => {
            lemma_same_depth(m, m.ns.vars.pushed(k, x));
            lemma_same_depth(m, m.ns.vars.gpushed(k, x));
        },
        Err(_) => {},
    }
}

proof fn lemma_command(
    m: MachineView,
    top: FrameView,
    v: ValueView,
    j0: Table,
    j1: Table,
    then: (MachineView, ActionView),
)
    requires
        m.balanced(),
        part_of(top) == Part::Command,
        command_turn(m, top, v, j0, j1, then),
    ensures
        sound(then),
{
    lemma_fails(m);
    lemma_moves(m, 0);
    lemma_vars(m.ns.vars);
    match top {
        FrameView::Settled => {
            if let ValueView::Status(s) = v {
                let w = choose|w: Result<Waited, JobError>| settled_then(m, s, j0, j1, w, then);
                lemma_after_wait(m, s, w);
            }
        },
        FrameView::Call(n, b) => {
            if let ValueView::List(args) = v {
                lemma_with_args(m.ns.vars.marked(), n, args);
                lemma_moves(m.with_vars(m.ns.vars.marked().with_args(n, args)), 1);
            }
        },
        FrameView::Script(f, a) => {
            if let ValueView::List(lines) = v {
                lemma_with_args(m.ns.vars.marked(), f, a);
                lemma_moves(m.with_vars(m.ns.vars.marked().with_args(f, a)), 1);
            }
        },
        FrameView::Built(k) => {
            if let ValueView::List(args) = v {
                if k == BuiltinKind::Fg {
                    let x = choose|x: Result<(), BuiltinError>| fg_then(m, args, j0, j1, x, then);
                    assert(then == after_fg(m, x));
                } else {
                    lemma_built(m, k, args);
                }
            }
        },
        FrameView::Feed(l, n) => {
            if n < l.len() {
                let g = crate::parse::line::gathered(l, n as int + 1, l[n as int]);
                if let crate::parse::line::Statement::Wrong(e) = g.0 {
                    lemma_moves(m.tells(MessageView::Syntax(e)), 0);
                }
            }
        },
        _ => {},
    }
}

proof fn lemma_pipeline(
    m: MachineView,
    top: FrameView,
    v: ValueView,
    j0: Table,
    j1: Table,
    then: (MachineView, ActionView),
)
    requires
        m.balanced(),
        part_of(top) == Part::Pipeline,
        pipeline_turn(m, top, v, j0, j1, then),
    ensures
        sound(then),
{
    lemma_fails(m);
    lemma_moves(m, 0);
    match top {
        FrameView::Spawned(next, capture, bg) => {
            if let ValueView::Pid(pid) = v {
                if !(next is Some || capture) {
                    if bg && !(forall|k: nat| 1 <= k <= usize::MAX ==> j0.contains_key(k)) {
                        let id = choose|id: usize| registered_as(m, id, pid, j0, j1, then);
                        lemma_moves(
                            m.tells(
                                MessageView::Note(crate::job::jobs::Notice::Started(id, pid)),
                            ),
                            0,
                        );
                    }
                }
            }
        },
        _ => {},
    }
}

/// Every step leaves the scopes of the namespace balanced: as many are
/// open as were open when the machine was made, and as the work that waits
/// holds open. So when the evaluation of a block is over, however it ends,
/// as many scopes are open as before it.
pub proof fn law_scopes_balanced(
    m0: MachineView,
    j0: Table,
    ev: EventView,
    m1: MachineView,
    j1: Table,
    act: ActionView,
)
    requires
        m0.balanced(),
        steps(m0, j0, ev, m1, j1, act),
    ensures
        m1.balanced(),
        act is Finished ==> m1.stack.len() == 0 && m1.ns.vars.depth() == m1.base,
{
    if m0.stack.len() == 0 {
    } else if ev is Failed {
        lemma_fails(MachineView { value: ValueView::Unit, ..m0 });
    } else {
        let m = MachineView { stack: m0.stack.drop_last(), value: ValueView::Unit, ..m0 };
        let top = m0.stack.last();
        let v = super::semantics::brought_value(m0, ev);
        assert(m0.stack =~= m.stack.push(top));
        lemma_push(m.stack, top);
        match part_of(top) {
            Part::Control => {
                lemma_control(m, top, v);
            },
            Part::Command => {
                lemma_command(m, top, v, j0, j1, (m1, act));
            },
            Part::Pipeline => {
                lemma_pipeline(m, top, v, j0, j1, (m1, act));
            },
        }
    }
    if act is Finished {
        assert(scopes(m1.stack) == 0);
    }
}

/// Of the stages of a pipeline only the last becomes a job, and only
/// where the pipeline's output is not captured: in the foreground slot,
/// unless the pipeline runs in the background. While the stages before it
/// are spawned the job table stays as it is.
pub proof fn law_last_stage_is_the_job(
    m0: MachineView,
    j0: Table,
    pid: i32,
    m1: MachineView,
    j1: Table,
    act: ActionView,
)
    requires
        m0.stack.len() > 0,
        m0.stack.last() is Spawned,
        steps(m0, j0, EventView::Spawned(pid), m1, j1, act),
    ensures
        m0.stack.last()->Spawned_0 is Some || m0.stack.last()->Spawned_1 ==> j1 == j0,
        m0.stack.last()->Spawned_0 is None && !m0.stack.last()->Spawned_1
            && !m0.stack.last()->Spawned_2 && !j0.contains_key(0) ==> j1 == j0.insert(
            0,
            crate::job::process::Process { pid, suspended: false },
        ),
        m0.stack.last()->Spawned_0 is None && !m0.stack.last()->Spawned_1
            && m0.stack.last()->Spawned_2 ==> !j1.contains_key(0) || j0.contains_key(0),
{
    let m = MachineView { stack: m0.stack.drop_last(), value: ValueView::Unit, ..m0 };
    let top = m0.stack.last();
    if top->Spawned_0 is None && !top->Spawned_1 && top->Spawned_2 {
        if !(forall|k: nat| 1 <= k <= usize::MAX ==> j0.contains_key(k)) {
            let id = choose|id: usize| registered_as(m, id, pid, j0, j1, (m1, act));
            assert(id >= 1);
        }
    }
}

/// After a command the evaluator waits for the process in the foreground
/// slot, and for no other; with the slot empty it waits for none.
pub proof fn law_waits_for_the_foreground(
    m0: MachineView,
    j0: Table,
    ev: EventView,
    m1: MachineView,
    j1: Table,
    act: ActionView,
)
    requires
        m0.stack.len() > 0,
        m0.stack.last() is Settle,
        !(ev is Failed),
        steps(m0, j0, ev, m1, j1, act),
    ensures
        j1 == j0,
        j0.contains_key(0) ==> act == ActionView::Wait(j0[0].pid),
        !j0.contains_key(0) ==> act == ActionView::Continue,
{
}

} // verus!
