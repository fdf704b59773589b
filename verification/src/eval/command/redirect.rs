//! From the redirections written on a command to a plan for its three
//! standard streams.
//!
//! The last redirection written for a stream decides it. Where standard
//! output and standard error end up with the same mode and target, the plan
//! binds them: the file is then to be opened once and shared.

use crate::parse::copy::{copy_str, copy_target};
use crate::parse::same::same_str;
use crate::parse::syntax::{
    RedKind, RedTarget, RedTargetView, Redirect, RedirectView, SpecialStr, SpecialStrView,
};
use vstd::prelude::*;
use vstd::string::StringExecFns;

verus! {

/// How a file that receives output is opened.
#[derive(Clone, Copy, Debug, PartialEq, Eq, Structural)]
pub enum OutMode {
    /// For writing, created if missing.
    Overwrite,
    /// For writing at its end.
    Append,
}

/// What feeds standard input.
#[derive(Clone, Copy, Debug, PartialEq, Eq, Structural)]
pub enum InMode {
    /// The file that the target names.
    Normal,
    /// The target's text itself.
    HereDoc,
}

/// Why a redirection cannot be: it asks a stream to flow the wrong way.
#[derive(Clone, Copy, Debug, PartialEq, Eq, Structural)]
pub enum RedirectError {
    /// Standard input was to come from standard output.
    InputFromStdout,
    /// Standard input was to come from standard error.
    InputFromStderr,
    /// Output was to go to standard input.
    OutputToStdin,
}

/// What is wrong with a redirection, if anything: input cannot come from
/// one of the shell's output streams, nor output go to its input.
pub open spec fn fault_of(r: RedirectView) -> Option<RedirectError> {
    match r.kind {
        RedKind::Stdin | RedKind::HereDoc => match r.target {
            RedTargetView::Stdout => Some(RedirectError::InputFromStdout),
            RedTargetView::Stderr => Some(RedirectError::InputFromStderr),
            _ => None,
        },
        _ => match r.target {
            RedTargetView::Stdin => Some(RedirectError::OutputToStdin),
            _ => None,
        },
    }
}

/// What is wrong with the first of the redirections that is wrong.
pub open spec fn first_fault(reds: Seq<RedirectView>) -> Option<RedirectError>
    decreases reds.len(),
{
    if reds.len() == 0 {
        None
    } else {
        match first_fault(reds.drop_last()) {
            Some(e) => Some(e),
            None => fault_of(reds.last()),
        }
    }
}

impl RedirectError {
    /// The message that goes with the error.
    pub open spec fn text(self) -> Seq<char> {
        match self {
            RedirectError::InputFromStdout => "Can't redirect input from stdout."@,
            RedirectError::InputFromStderr => "Can't redirect input from stderr."@,
            RedirectError::OutputToStdin => "Can't redirect output to stdin."@,
        }
    }

    /// The message that goes with the error.
    pub fn message(&self) -> (r: String)
        ensures
            r@ == self.text(),
    {
        match self {
            RedirectError::InputFromStdout => String::from_str("Can't redirect input from stdout."),
            RedirectError::InputFromStderr => String::from_str("Can't redirect input from stderr."),
            RedirectError::OutputToStdin => String::from_str("Can't redirect output to stdin."),
        }
    }
}

/// What is wrong with a redirection, if anything.
pub fn check_redirect(r: &Redirect) -> (e: Option<RedirectError>)
    ensures
        e == fault_of(r@),
{
    match r.kind {
        RedKind::Stdin | RedKind::HereDoc => match r.target {
            RedTarget::Stdout => Some(RedirectError::InputFromStdout),
            RedTarget::Stderr => Some(RedirectError::InputFromStderr),
            _ => None,
        },
        _ => match r.target {
            RedTarget::Stdin => Some(RedirectError::OutputToStdin),
            _ => None,
        },
    }
}

/// The plan for one output stream.
#[derive(Debug, PartialEq, Eq)]
pub struct RedOut {
    pub mode: OutMode,
    pub target: SpecialStr,
}

/// The plan for standard input.
#[derive(Debug, PartialEq, Eq)]
pub struct RedIn {
    pub mode: InMode,
    pub target: SpecialStr,
}

/// The plan for the three streams, in one of two shapes.
#[derive(Debug, PartialEq, Eq)]
pub enum RedirectsInner {
    /// Standard input, standard output and standard error, each on its own.
    Each(Option<RedIn>, Option<RedOut>, Option<RedOut>),
    /// Standard input, and one plan that both output streams share.
    Bind(Option<RedIn>, Option<RedOut>),
}

/// The redirections of one command, collapsed into a plan.
#[derive(Debug, PartialEq, Eq)]
pub struct Redirects(pub RedirectsInner);

/// `RedOut` as a mathematical value.
pub struct RedOutView {
    pub mode: OutMode,
    pub target: SpecialStrView,
}

/// `RedIn` as a mathematical value.
pub struct RedInView {
    pub mode: InMode,
    pub target: SpecialStrView,
}

/// `Redirects` as a mathematical value.
pub enum RedirectsView {
    Each(Option<RedInView>, Option<RedOutView>, Option<RedOutView>),
    Bind(Option<RedInView>, Option<RedOutView>),
}

impl View for RedOut {
    type V = RedOutView;

    open spec fn view(&self) -> RedOutView {
        RedOutView { mode: self.mode, target: self.target@ }
    }
}

impl View for RedIn {
    type V = RedInView;

    open spec fn view(&self) -> RedInView {
        RedInView { mode: self.mode, target: self.target@ }
    }
}

/// The view of an optional output plan.
pub open spec fn out_view(o: Option<RedOut>) -> Option<RedOutView> {
    match o {
        Some(x) => Some(x@),
        None => None,
    }
}

/// The view of an optional input plan.
pub open spec fn in_view(o: Option<RedIn>) -> Option<RedInView> {
    match o {
        Some(x) => Some(x@),
        None => None,
    }
}

impl View for RedirectsInner {
    type V = RedirectsView;

    open spec fn view(&self) -> RedirectsView {
        match self {
            RedirectsInner::Each(i, o, e) => RedirectsView::Each(
                in_view(*i),
                out_view(*o),
                out_view(*e),
            ),
            RedirectsInner::Bind(i, o) => RedirectsView::Bind(in_view(*i), out_view(*o)),
        }
    }
}

impl View for Redirects {
    type V = RedirectsView;

    open spec fn view(&self) -> RedirectsView {
        self.0@
    }
}

/// The views of a list of redirections.
pub open spec fn redirects_view(v: Seq<Redirect>) -> Seq<RedirectView> {
    Seq::new(v.len(), |i: int| v[i]@)
}

/// What the three streams are to become, before the two shapes are told
/// apart.
pub struct Plan {
    pub stdin: Option<RedInView>,
    pub stdout: Option<RedOutView>,
    pub stderr: Option<RedOutView>,
}

/// The text that names a target: a device file for the four fixed targets,
/// the written text for any other.
pub open spec fn target_text(t: RedTargetView) -> SpecialStrView {
    match t {
        RedTargetView::Stdin => SpecialStrView::text("/dev/stdin"@),
        RedTargetView::Stdout => SpecialStrView::text("/dev/stdout"@),
        RedTargetView::Stderr => SpecialStrView::text("/dev/stderr"@),
        RedTargetView::Null => SpecialStrView::text("/dev/null"@),
        RedTargetView::Other(s) => s,
    }
}

/// The plan `p` after one more redirection: it replaces what was planned
/// for the stream or streams that it touches.
pub open spec fn assigned(p: Plan, r: RedirectView) -> Plan {
    let t = target_text(r.target);
    let over = Some(RedOutView { mode: OutMode::Overwrite, target: t });
    let app = Some(RedOutView { mode: OutMode::Append, target: t });
    match r.kind {
        RedKind::OverwriteStdout => Plan { stdout: over, ..p },
        RedKind::AppendStdout => Plan { stdout: app, ..p },
        RedKind::OverwriteStderr => Plan { stderr: over, ..p },
        RedKind::AppendStderr => Plan { stderr: app, ..p },
        RedKind::OverwriteBoth => Plan { stdout: over, stderr: over, ..p },
        RedKind::AppendBoth => Plan { stdout: app, stderr: app, ..p },
        RedKind::Stdin => Plan { stdin: Some(RedInView { mode: InMode::Normal, target: t }), ..p },
        RedKind::HereDoc => Plan {
            stdin: Some(RedInView { mode: InMode::HereDoc, target: t }),
            ..p
        },
    }
}

/// The plan that a list of redirections amounts to, read left to right.
pub open spec fn planned(reds: Seq<RedirectView>) -> Plan
    decreases reds.len(),
{
    if reds.len() == 0 {
        Plan { stdin: None, stdout: None, stderr: None }
    } else {
        assigned(planned(reds.drop_last()), reds.last())
    }
}

/// The shape of a plan: bound where both output streams are planned and
/// planned alike, each on its own otherwise.
pub open spec fn collapsed(p: Plan) -> RedirectsView {
    if p.stdout is Some && p.stdout == p.stderr {
        RedirectsView::Bind(p.stdin, p.stdout)
    } else {
        RedirectsView::Each(p.stdin, p.stdout, p.stderr)
    }
}

/// The text that names a target.
pub fn target2str(target: RedTarget) -> (r: SpecialStr)
    ensures
        r@ == target_text(target@),
{
    match target {
        RedTarget::Stdin => SpecialStr::from(String::from_str("/dev/stdin")),
        RedTarget::Stdout => SpecialStr::from(String::from_str("/dev/stdout")),
        RedTarget::Stderr => SpecialStr::from(String::from_str("/dev/stderr")),
        RedTarget::Null => SpecialStr::from(String::from_str("/dev/null")),
        RedTarget::Other(s) => s,
    }
}

impl RedOut {
    /// Output to `target`, replacing what the file held.
    pub fn overwrite(target: RedTarget) -> (r: RedOut)
        ensures
            r@ == (RedOutView { mode: OutMode::Overwrite, target: target_text(target@) }),
    {
        RedOut { mode: OutMode::Overwrite, target: target2str(target) }
    }

    /// Output to `target`, added at the end of what the file holds.
    pub fn append(target: RedTarget) -> (r: RedOut)
        ensures
            r@ == (RedOutView { mode: OutMode::Append, target: target_text(target@) }),
    {
        RedOut { mode: OutMode::Append, target: target2str(target) }
    }

    /// A copy of this plan.
    pub fn copy(&self) -> (r: RedOut)
        ensures
            r@ == self@,
    {
        RedOut { mode: self.mode, target: copy_str(&self.target) }
    }

    /// Whether two plans are the same.
    pub fn same(&self, other: &RedOut) -> (r: bool)
        ensures
            r == (self@ == other@),
    {
        self.mode == other.mode && same_str(&self.target, &other.target)
    }
}

impl RedIn {
    /// A copy of this plan.
    pub fn copy(&self) -> (r: RedIn)
        ensures
            r@ == self@,
    {
        RedIn { mode: self.mode, target: copy_str(&self.target) }
    }
}

impl RedirectsInner {
    /// The plan that the redirections `reds` amount to.
    pub fn new(reds: Vec<Redirect>) -> (r: RedirectsInner)
        ensures
            r@ == collapsed(planned(redirects_view(reds@))),
    {
        let mut stdout: Option<RedOut> = None;
        let mut stderr: Option<RedOut> = None;
        let mut stdin: Option<RedIn> = None;
        let ghost all = redirects_view(reds@);
        let mut i: usize = 0;
        assert(all.take(0) =~= Seq::empty());
        while i < reds.len()
            invariant
                i <= reds.len(),
                all == redirects_view(reds@),
                planned(all.take(i as int)) == (Plan {
                    stdin: in_view(stdin),
                    stdout: out_view(stdout),
                    stderr: out_view(stderr),
                }),
            decreases reds.len() - i,
        {
            let red = &reds[i];
            proof {
                assert(all.take(i + 1).drop_last() =~= all.take(i as int));
                assert(all.take(i + 1).last() == red@);
            }
            match red.kind {
                RedKind::OverwriteStdout => {
                    stdout = Some(RedOut::overwrite(copy_target(&red.target)));
                },
                RedKind::AppendStdout => {
                    stdout = Some(RedOut::append(copy_target(&red.target)));
                },
                RedKind::OverwriteStderr => {
                    stderr = Some(RedOut::overwrite(copy_target(&red.target)));
                },
                RedKind::AppendStderr => {
                    stderr = Some(RedOut::append(copy_target(&red.target)));
                },
                RedKind::OverwriteBoth => {
                    stdout = Some(RedOut::overwrite(copy_target(&red.target)));
                    stderr = Some(RedOut::overwrite(copy_target(&red.target)));
                },
                RedKind::AppendBoth => {
                    stdout = Some(RedOut::append(copy_target(&red.target)));
                    stderr = Some(RedOut::append(copy_target(&red.target)));
                },
                RedKind::Stdin => {
                    let target = target2str(copy_target(&red.target));
                    stdin = Some(RedIn { mode: InMode::Normal, target });
                },
                RedKind::HereDoc => {
                    let target = target2str(copy_target(&red.target));
                    stdin = Some(RedIn { mode: InMode::HereDoc, target });
                },
            }
            i = i + 1;
        }
        assert(all.take(i as int) =~= all);
        let alike = match (&stdout, &stderr) {
            (Some(o), Some(e)) => o.same(e),
            _ => false,
        };
        if alike {
            RedirectsInner::Bind(stdin, stdout)
        } else {
            RedirectsInner::Each(stdin, stdout, stderr)
        }
    }
}

impl Redirects {
    /// The plan that the redirections `reds` amount to.
    pub fn new(reds: Vec<Redirect>) -> (r: Redirects)
        ensures
            r@ == collapsed(planned(redirects_view(reds@))),
    {
        Redirects(RedirectsInner::new(reds))
    }
}

/// What a child's standard input is connected to.
#[derive(Debug, PartialEq, Eq)]
pub enum InWire {
    /// The shell's own standard input.
    Inherit,
    /// A pipe: from the command to the left, or for a here-document.
    Pipe,
    /// The file that the text names, opened for reading.
    File(SpecialStr),
    /// A pipe into which the text is written once the child runs.
    HereDoc(SpecialStr),
}

/// What one of a child's output streams is connected to.
#[derive(Debug, PartialEq, Eq)]
pub enum OutWire {
    /// The shell's own stream.
    Inherit,
    /// A pipe: to the command to the right, or back to the shell.
    Pipe,
    /// The file that the text names, opened as the mode says.
    File(OutMode, SpecialStr),
    /// A duplicate of the descriptor that standard output got, so that both
    /// streams write at one file offset.
    Shared,
}

/// The wiring of a child's three standard streams.
#[derive(Debug, PartialEq, Eq)]
pub struct Wiring {
    pub stdin: InWire,
    pub stdout: OutWire,
    pub stderr: OutWire,
}

/// `InWire` as a mathematical value.
pub enum InWireView {
    Inherit,
    Pipe,
    File(SpecialStrView),
    HereDoc(SpecialStrView),
}

/// `OutWire` as a mathematical value.
pub enum OutWireView {
    Inherit,
    Pipe,
    File(OutMode, SpecialStrView),
    Shared,
}

/// `Wiring` as a mathematical value.
pub struct WiringView {
    pub stdin: InWireView,
    pub stdout: OutWireView,
    pub stderr: OutWireView,
}

impl View for InWire {
    type V = InWireView;

    open spec fn view(&self) -> InWireView {
        match self {
            InWire::Inherit => InWireView::Inherit,
            InWire::Pipe => InWireView::Pipe,
            InWire::File(s) => InWireView::File(s@),
            InWire::HereDoc(s) => InWireView::HereDoc(s@),
        }
    }
}

impl View for OutWire {
    type V = OutWireView;

    open spec fn view(&self) -> OutWireView {
        match self {
            OutWire::Inherit => OutWireView::Inherit,
            OutWire::Pipe => OutWireView::Pipe,
            OutWire::File(m, s) => OutWireView::File(*m, s@),
            OutWire::Shared => OutWireView::Shared,
        }
    }
}

impl View for Wiring {
    type V = WiringView;

    open spec fn view(&self) -> WiringView {
        WiringView { stdin: self.stdin@, stdout: self.stdout@, stderr: self.stderr@ }
    }
}

/// Standard input: a pipe where the command reads from the one to its left,
/// whatever was written; else what was planned; else the shell's own.
pub open spec fn wired_in(plan: Option<RedInView>, piped_in: bool) -> InWireView {
    if piped_in {
        InWireView::Pipe
    } else {
        match plan {
            None => InWireView::Inherit,
            Some(p) => match p.mode {
                InMode::Normal => InWireView::File(p.target),
                InMode::HereDoc => InWireView::HereDoc(p.target),
            },
        }
    }
}

/// An output stream on its own: the planned file, else the shell's own.
pub open spec fn wired_file(plan: Option<RedOutView>) -> OutWireView {
    match plan {
        None => OutWireView::Inherit,
        Some(p) => OutWireView::File(p.mode, p.target),
    }
}

/// The wiring that a plan asks for, given whether the command reads from a
/// pipe and whether its output is piped on.
///
/// A piped standard output is always the pipe. In a bound plan standard
/// error then takes the file alone; without the pipe the file is opened
/// once for standard output and shared with standard error.
pub open spec fn wired(plan: RedirectsView, piped_in: bool, piped_out: bool) -> WiringView {
    match plan {
        RedirectsView::Bind(i, Some(o)) => WiringView {
            stdin: wired_in(i, piped_in),
            stdout: if piped_out {
                OutWireView::Pipe
            } else {
                OutWireView::File(o.mode, o.target)
            },
            stderr: if piped_out {
                OutWireView::File(o.mode, o.target)
            } else {
                OutWireView::Shared
            },
        },
        RedirectsView::Bind(i, None) => WiringView {
            stdin: wired_in(i, piped_in),
            stdout: if piped_out {
                OutWireView::Pipe
            } else {
                OutWireView::Inherit
            },
            stderr: OutWireView::Inherit,
        },
        RedirectsView::Each(i, o, e) => WiringView {
            stdin: wired_in(i, piped_in),
            stdout: if piped_out {
                OutWireView::Pipe
            } else {
                wired_file(o)
            },
            stderr: wired_file(e),
        },
    }
}

fn wire_in(plan: &Option<RedIn>, piped_in: bool) -> (r: InWire)
    ensures
        r@ == wired_in(in_view(*plan), piped_in),
{
    if piped_in {
        InWire::Pipe
    } else {
        match plan {
            None => InWire::Inherit,
            Some(p) => match p.mode {
                InMode::Normal => InWire::File(copy_str(&p.target)),
                InMode::HereDoc => InWire::HereDoc(copy_str(&p.target)),
            },
        }
    }
}

fn wire_file(plan: &Option<RedOut>) -> (r: OutWire)
    ensures
        r@ == wired_file(out_view(*plan)),
{
    match plan {
        None => OutWire::Inherit,
        Some(p) => OutWire::File(p.mode, copy_str(&p.target)),
    }
}

impl RedirectsInner {
    /// The wiring of a child's streams under this plan.
    pub fn redirect(&self, piped_in: bool, piped_out: bool) -> (r: Wiring)
        ensures
            r@ == wired(self@, piped_in, piped_out),
    {
        match self {
            RedirectsInner::Bind(i, Some(o)) => {
                if piped_out {
                    Wiring {
                        stdin: wire_in(i, piped_in),
                        stdout: OutWire::Pipe,
                        stderr: OutWire::File(o.mode, copy_str(&o.target)),
                    }
                } else {
                    Wiring {
                        stdin: wire_in(i, piped_in),
                        stdout: OutWire::File(o.mode, copy_str(&o.target)),
                        stderr: OutWire::Shared,
                    }
                }
            },
            RedirectsInner::Bind(i, None) => Wiring {
                stdin: wire_in(i, piped_in),
                stdout: if piped_out {
                    OutWire::Pipe
                } else {
                    OutWire::Inherit
                },
                stderr: OutWire::Inherit,
            },
            RedirectsInner::Each(i, o, e) => Wiring {
                stdin: wire_in(i, piped_in),
                stdout: if piped_out {
                    OutWire::Pipe
                } else {
                    wire_file(o)
                },
                stderr: wire_file(e),
            },
        }
    }
}

impl Redirects {
    /// The wiring of a child's streams under this plan, given whether the
    /// command reads from a pipe (`piped_in`) and whether its output is
    /// piped on (`piped_out`).
    pub fn redirect(&self, piped_in: bool, piped_out: bool) -> (r: Wiring)
        ensures
            r@ == wired(self@, piped_in, piped_out),
    {
        self.0.redirect(piped_in, piped_out)
    }

    /// A copy of this plan.
    pub fn copy(&self) -> (r: Redirects)
        ensures
            r@ == self@,
    {
        match &self.0 {
            RedirectsInner::Each(i, o, e) => Redirects(
                RedirectsInner::Each(copy_in(i), copy_out(o), copy_out(e)),
            ),
            RedirectsInner::Bind(i, o) => Redirects(RedirectsInner::Bind(copy_in(i), copy_out(o))),
        }
    }
}

fn copy_in(plan: &Option<RedIn>) -> (r: Option<RedIn>)
    ensures
        in_view(r) == in_view(*plan),
{
    match plan {
        Some(x) => Some(x.copy()),
        None => None,
    }
}

fn copy_out(plan: &Option<RedOut>) -> (r: Option<RedOut>)
    ensures
        out_view(r) == out_view(*plan),
{
    match plan {
        Some(x) => Some(x.copy()),
        None => None,
    }
}

/// In a plan made from redirections, a bound pair of output streams is
/// always planned: the shape with nothing to share does not arise.
pub proof fn law_bound_plans_share_a_target(reds: Seq<RedirectView>)
    ensures
        collapsed(planned(reds)) matches RedirectsView::Bind(_, o) ==> o is Some,
{
}

} // verus!
