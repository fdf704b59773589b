//! Commands that run programs: the name, the arguments, the plan for the
//! streams, and what stands to the right of a pipe.

use super::redirect::{
    check_redirect, collapsed, first_fault, planned, redirects_view, RedirectError, Redirects,
    RedirectsView,
};
use crate::parse::copy::{copy_redirect, copy_str};
use crate::parse::syntax::{
    lemma_args_view, Arg as ParseArg, ArgView as ParseArgView, Command as ParseCmd,
    CommandView as ParseCmdView, Redirect, RedirectView, SpecialStr, SpecialStrView,
};
use vstd::prelude::*;

verus! {

/// One argument as written.
#[derive(Debug, PartialEq, Eq)]
pub enum Arg {
    /// One argument, whatever its value holds.
    Normal(SpecialStr),
    /// As many arguments as the value has words.
    Expand(SpecialStr),
}

/// The arguments of a command, as written.
#[derive(Debug, PartialEq, Eq)]
pub struct Args(pub Vec<Arg>);

/// A command that runs a program, with the commands that its output is
/// piped to.
#[derive(Debug, PartialEq, Eq)]
pub struct External {
    pub name: SpecialStr,
    pub args: Args,
    pub reds: Redirects,
    /// What is wrong with the first redirection that is wrong.
    pub fault: Option<RedirectError>,
    pub pipe: Option<Box<External>>,
    pub bg: bool,
}

/// `Arg` as a mathematical value.
pub enum ArgView {
    Normal(SpecialStrView),
    Expand(SpecialStrView),
}

/// `External` as a mathematical value.
pub struct ExternalView {
    pub name: SpecialStrView,
    pub args: Seq<ArgView>,
    pub reds: RedirectsView,
    pub fault: Option<RedirectError>,
    pub pipe: Option<Box<ExternalView>>,
    pub bg: bool,
}

impl View for Arg {
    type V = ArgView;

    open spec fn view(&self) -> ArgView {
        match self {
            Arg::Normal(s) => ArgView::Normal(s@),
            Arg::Expand(s) => ArgView::Expand(s@),
        }
    }
}

impl View for Args {
    type V = Seq<ArgView>;

    open spec fn view(&self) -> Seq<ArgView> {
        Seq::new(self.0@.len(), |i: int| self.0@[i]@)
    }
}

/// The view of what stands to the right of a pipe, if anything.
pub open spec fn piped_view(p: Option<Box<External>>) -> Option<Box<ExternalView>>
    decreases p, 1nat,
{
    match p {
        Some(b) => Some(Box::new((*b)@)),
        None => None,
    }
}

impl View for External {
    type V = ExternalView;

    open spec fn view(&self) -> ExternalView
        decreases self, 0nat,
    {
        ExternalView {
            name: self.name@,
            args: self.args@,
            reds: self.reds@,
            fault: self.fault,
            pipe: piped_view(self.pipe),
            bg: self.bg,
        }
    }
}

/// The arguments among the words of a command, in order.
pub open spec fn arguments_in(words: Seq<ParseArgView>) -> Seq<ArgView>
    decreases words.len(),
{
    if words.len() == 0 {
        Seq::empty()
    } else {
        let before = arguments_in(words.drop_last());
        match words.last() {
            ParseArgView::Arg(s) => before.push(ArgView::Normal(s)),
            ParseArgView::ExpandArg(s) => before.push(ArgView::Expand(s)),
            ParseArgView::Redirect(_) => before,
        }
    }
}

/// The redirections among the words of a command, in order.
pub open spec fn redirections_in(words: Seq<ParseArgView>) -> Seq<RedirectView>
    decreases words.len(),
{
    if words.len() == 0 {
        Seq::empty()
    } else {
        let before = redirections_in(words.drop_last());
        match words.last() {
            ParseArgView::Redirect(r) => before.push(r),
            _ => before,
        }
    }
}

/// What a written command is to the evaluator: its words sorted into
/// arguments and redirections, the redirections collapsed into a plan, and
/// the same done to whatever its output is piped to.
pub open spec fn lowered(c: ParseCmdView) -> ExternalView
    decreases c,
{
    ExternalView {
        name: c.name,
        args: arguments_in(c.args),
        reds: collapsed(planned(redirections_in(c.args))),
        fault: first_fault(redirections_in(c.args)),
        pipe: match c.pipe {
            Some(p) => Some(Box::new(lowered(*p))),
            None => None,
        },
        bg: c.bg,
    }
}

impl Args {
    /// A copy of these arguments.
    pub fn copy(&self) -> (r: Args)
        ensures
            r@ == self@,
    {
        let mut out: Vec<Arg> = Vec::new();
        let mut i: usize = 0;
        while i < self.0.len()
            invariant
                i <= self.0.len(),
                out.len() == i,
                forall|k: int| 0 <= k < i ==> (#[trigger] out@[k])@ == self.0@[k]@,
            decreases self.0.len() - i,
        {
            let a = match &self.0[i] {
                Arg::Normal(s) => Arg::Normal(copy_str(s)),
                Arg::Expand(s) => Arg::Expand(copy_str(s)),
            };
            out.push(a);
            i = i + 1;
        }
        let r = Args(out);
        assert(r@ =~= self@);
        r
    }
}

impl External {
    /// What the written command `cmd` is to the evaluator.
    pub fn from(cmd: ParseCmd) -> (r: External)
        ensures
            r@ == lowered(cmd@),
    {
        External::lower(&cmd)
    }

    /// What the written command `cmd` is to the evaluator.
    pub fn lower(cmd: &ParseCmd) -> (r: External)
        ensures
            r@ == lowered(cmd@),
        decreases cmd,
    {
        let mut args: Vec<Arg> = Vec::new();
        let mut reds: Vec<Redirect> = Vec::new();
        let mut fault: Option<RedirectError> = None;
        let ghost words = cmd@.args;
        proof {
            lemma_args_view(cmd.args@);
            assert(words.take(0) =~= Seq::empty());
        }
        let mut i: usize = 0;
        while i < cmd.args.len()
            invariant
                i <= cmd.args.len(),
                words == cmd@.args,
                words.len() == cmd.args@.len(),
                forall|k: int| 0 <= k < words.len() ==> words[k] == (#[trigger] cmd.args@[k])@,
                (Args(args))@ == arguments_in(words.take(i as int)),
                redirects_view(reds@) == redirections_in(words.take(i as int)),
                fault == first_fault(redirects_view(reds@)),
            decreases cmd.args.len() - i,
        {
            proof {
                assert(words.take(i + 1).drop_last() =~= words.take(i as int));
                assert(words.take(i + 1).last() == cmd.args@[i as int]@);
            }
            let ghost a0 = (Args(args))@;
            let ghost r0 = redirects_view(reds@);
            match &cmd.args[i] {
                ParseArg::Arg(s) => {
                    args.push(Arg::Normal(copy_str(s)));
                    assert((Args(args))@ =~= a0.push(ArgView::Normal(s@)));
                },
                ParseArg::ExpandArg(s) => {
                    args.push(Arg::Expand(copy_str(s)));
                    assert((Args(args))@ =~= a0.push(ArgView::Expand(s@)));
                },
                ParseArg::Redirect(r) => {
                    if fault.is_none() {
                        fault = check_redirect(r);
                    }
                    reds.push(copy_redirect(r));
                    assert(redirects_view(reds@) =~= r0.push(r@));
                    assert(redirects_view(reds@).drop_last() =~= r0);
                },
            }
            i = i + 1;
        }
        assert(words.take(i as int) =~= words);
        let pipe = match &cmd.pipe {
            Some(p) => Some(Box::new(External::lower(p))),
            None => None,
        };
        External {
            name: copy_str(&cmd.name),
            args: Args(args),
            reds: Redirects::new(reds),
            fault,
            pipe,
            bg: cmd.bg,
        }
    }

    /// A copy of this command.
    pub fn copy(&self) -> (r: External)
        ensures
            r@ == self@,
        decreases self,
    {
        let pipe = match &self.pipe {
            Some(p) => Some(Box::new(p.copy())),
            None => None,
        };
        External {
            name: copy_str(&self.name),
            args: self.args.copy(),
            reds: self.reds.copy(),
            fault: self.fault,
            pipe,
            bg: self.bg,
        }
    }
}

} // verus!
