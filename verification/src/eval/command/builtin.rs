//! The commands that the shell runs itself.

use crate::eval::namespace::NameSpace;
use crate::job::jobs::{smallest_with_pid, Jobs};
use crate::job::process::Process;
use crate::job::status::JobError;
use crate::text::{
    all_digits, chars_of, digits_value, parse_i32, parse_usize, same_text, spelled_int, string_of,
    texts,
};
use vstd::prelude::*;
use vstd::string::StringExecFns;

verus! {

/// Which command of the shell's own a name selects.
#[derive(Clone, Copy, Debug, PartialEq, Eq, Structural)]
pub enum BuiltinKind {
    /// The empty command: nothing to do.
    Empty,
    Exit,
    Cd,
    Fg,
    Jobs,
    Let,
    Export,
    Source,
}

/// Why a command of the shell's own failed.
#[derive(Clone, Copy, Debug, PartialEq, Eq, Structural)]
pub enum BuiltinError {
    /// Too many arguments, or too few.
    Arity,
    /// An assignment without `=` between name and value.
    MissingEquals,
    /// An argument that should spell a number does not, or the number does
    /// not fit.
    BadNumber,
    /// `cd` without argument, and `HOME` is not set.
    NoHome,
    /// `source` without a file.
    NoScript,
    /// The job table refused.
    Job(JobError),
}

/// The command of the shell's own that `name` selects, if it selects one.
pub open spec fn builtin_named(name: Seq<char>) -> Option<BuiltinKind> {
    if name == ""@ {
        Some(BuiltinKind::Empty)
    } else if name == "exit"@ {
        Some(BuiltinKind::Exit)
    } else if name == "cd"@ {
        Some(BuiltinKind::Cd)
    } else if name == "fg"@ {
        Some(BuiltinKind::Fg)
    } else if name == "jobs"@ {
        Some(BuiltinKind::Jobs)
    } else if name == "let"@ {
        Some(BuiltinKind::Let)
    } else if name == "export"@ {
        Some(BuiltinKind::Export)
    } else if name == "source"@ {
        Some(BuiltinKind::Source)
    } else {
        None
    }
}

impl BuiltinKind {
    /// The command of the shell's own that `name` selects, if it selects
    /// one.
    pub fn new(name: &str) -> (r: Option<BuiltinKind>)
        ensures
            r == builtin_named(name@),
    {
        if same_text(name, "") {
            Some(BuiltinKind::Empty)
        } else if same_text(name, "exit") {
            Some(BuiltinKind::Exit)
        } else if same_text(name, "cd") {
            Some(BuiltinKind::Cd)
        } else if same_text(name, "fg") {
            Some(BuiltinKind::Fg)
        } else if same_text(name, "jobs") {
            Some(BuiltinKind::Jobs)
        } else if same_text(name, "let") {
            Some(BuiltinKind::Let)
        } else if same_text(name, "export") {
            Some(BuiltinKind::Export)
        } else if same_text(name, "source") {
            Some(BuiltinKind::Source)
        } else {
            None
        }
    }
}

impl BuiltinError {
    /// The message that goes with the error.
    pub open spec fn text(self) -> Seq<char> {
        match self {
            BuiltinError::Arity => "Unexpected args number."@,
            BuiltinError::MissingEquals => "Missing \"=\"."@,
            BuiltinError::BadNumber => "Failed to parse a number."@,
            BuiltinError::NoHome => "Failed to get the home directory."@,
            BuiltinError::NoScript => "Specify the file to run."@,
            BuiltinError::Job(e) => e.text(),
        }
    }

    /// The message that goes with the error.
    pub fn message(&self) -> (r: String)
        ensures
            r@ == self.text(),
    {
        match self {
            BuiltinError::Arity => String::from_str("Unexpected args number."),
            BuiltinError::MissingEquals => String::from_str("Missing \"=\"."),
            BuiltinError::BadNumber => String::from_str("Failed to parse a number."),
            BuiltinError::NoHome => String::from_str("Failed to get the home directory."),
            BuiltinError::NoScript => String::from_str("Specify the file to run."),
            BuiltinError::Job(e) => e.message(),
        }
    }
}

/// A command of the shell's own with its arguments.
#[derive(Debug, PartialEq, Eq)]
pub struct Builtin {
    pub kind: BuiltinKind,
    pub args: Vec<String>,
}

impl Builtin {
    /// The command `kind` with the arguments `args`.
    pub fn new(kind: BuiltinKind, args: Vec<String>) -> (r: Builtin)
        ensures
            r.kind == kind,
            r.args == args,
    {
        Builtin { kind, args }
    }
}

/// The code that `exit` ends the shell with: 0 without argument, else the
/// number that the one argument spells.
pub open spec fn exit_code(args: Seq<Seq<char>>) -> Result<i32, BuiltinError> {
    if args.len() == 0 {
        Ok(0i32)
    } else if args.len() == 1 {
        match spelled_int(args[0]) {
            Some(n) => if i32::MIN <= n <= i32::MAX {
                Ok(n as i32)
            } else {
                Err(BuiltinError::BadNumber)
            },
            None => Err(BuiltinError::BadNumber),
        }
    } else {
        Err(BuiltinError::Arity)
    }
}

/// `exit`: the code to end the shell with.
pub fn exit(args: &Vec<String>) -> (r: Result<i32, BuiltinError>)
    ensures
        r == exit_code(texts(args@)),
{
    if args.len() == 0 {
        Ok(0)
    } else if args.len() == 1 {
        match parse_i32(args[0].as_str()) {
            Some(n) => Ok(n),
            None => Err(BuiltinError::BadNumber),
        }
    } else {
        Err(BuiltinError::Arity)
    }
}

/// `cd`: the directory to change to, which is the one argument, or the
/// value of `HOME` where there is none.
pub fn cd(args: &Vec<String>, ns: &NameSpace) -> (r: Result<String, BuiltinError>)
    ensures
        args@.len() > 1 ==> r == Err::<String, BuiltinError>(BuiltinError::Arity),
        args@.len() == 1 ==> (r matches Ok(p) && p@ == args@[0]@),
        args@.len() == 0 && !ns@.vars.env.contains_key("HOME"@) ==> r == Err::<
            String,
            BuiltinError,
        >(BuiltinError::NoHome),
        args@.len() == 0 && ns@.vars.env.contains_key("HOME"@) ==> (r matches Ok(p) && p@
            == ns@.vars.env["HOME"@]),
{
    if args.len() == 0 {
        match ns.get_var("HOME") {
            Some(p) => Ok(p),
            None => Err(BuiltinError::NoHome),
        }
    } else if args.len() == 1 {
        Ok(args[0].clone())
    } else {
        Err(BuiltinError::Arity)
    }
}

/// What an assignment asks for: the name and the value, where the
/// arguments are a name, `=` and a value.
pub open spec fn assignment(args: Seq<Seq<char>>) -> Result<(Seq<char>, Seq<char>), BuiltinError> {
    if args.len() != 3 {
        Err(BuiltinError::Arity)
    } else if args[1] != "="@ {
        Err(BuiltinError::MissingEquals)
    } else {
        Ok((args[0], args[2]))
    }
}

/// `let NAME = VALUE`: sets a variable for the innermost open scope.
pub fn let_(args: &Vec<String>, ns: &mut NameSpace) -> (r: Result<(), BuiltinError>)
    ensures
        final(ns)@.procs == old(ns)@.procs,
        match assignment(texts(args@)) {
            Ok((k, v)) => r == Ok::<(), BuiltinError>(()) && final(ns)@.vars
                == old(ns)@.vars.pushed(k, v),
            Err(e) => r == Err::<(), BuiltinError>(e) && final(ns)@ == old(ns)@,
        },
{
    if args.len() != 3 {
        return Err(BuiltinError::Arity);
    }
    if !same_text(args[1].as_str(), "=") {
        return Err(BuiltinError::MissingEquals);
    }
    ns.push_var(args[0].as_str(), args[2].as_str());
    Ok(())
}

/// `export NAME = VALUE`: sets a variable for good.
pub fn export(args: &Vec<String>, ns: &mut NameSpace) -> (r: Result<(), BuiltinError>)
    ensures
        final(ns)@.procs == old(ns)@.procs,
        match assignment(texts(args@)) {
            Ok((k, v)) => r == Ok::<(), BuiltinError>(()) && final(ns)@.vars
                == old(ns)@.vars.gpushed(k, v),
            Err(e) => r == Err::<(), BuiltinError>(e) && final(ns)@ == old(ns)@,
        },
{
    if args.len() != 3 {
        return Err(BuiltinError::Arity);
    }
    if !same_text(args[1].as_str(), "=") {
        return Err(BuiltinError::MissingEquals);
    }
    ns.push_gvar(args[0].as_str(), args[2].as_str());
    Ok(())
}

/// `source FILE [ARG…]`: the file to run and the arguments to run it with.
pub fn source(args: &Vec<String>) -> (r: Result<(String, Vec<String>), BuiltinError>)
    ensures
        args@.len() == 0 ==> r is Err && r->Err_0 == BuiltinError::NoScript,
        args@.len() > 0 ==> (r matches Ok((file, rest)) && file@ == args@[0]@ && texts(rest@)
            == texts(args@).skip(1)),
{
    if args.len() == 0 {
        return Err(BuiltinError::NoScript);
    }
    let mut rest: Vec<String> = Vec::new();
    let mut i: usize = 1;
    while i < args.len()
        invariant
            1 <= i <= args.len(),
            rest.len() == i - 1,
            forall|k: int| 0 <= k < rest.len() ==> rest@[k]@ == args@[k + 1]@,
        decreases args.len() - i,
    {
        rest.push(args[i].clone());
        i = i + 1;
    }
    assert(texts(rest@) =~= texts(args@).skip(1));
    Ok((args[0].clone(), rest))
}

/// Which job `fg` is asked for: `%` and digits name a job by its id, digits
/// alone a process, with an optional sign, by its id.
pub enum FgTarget {
    Job(usize),
    Pid(i32),
}

/// The job that the argument of `fg` names.
pub open spec fn fg_target(arg: Seq<char>) -> Result<FgTarget, BuiltinError> {
    if arg.len() > 0 && arg[0] == '%' {
        if all_digits(arg.skip(1)) && digits_value(arg.skip(1)) <= 0xffff_ffff {
            Ok(FgTarget::Job(digits_value(arg.skip(1)) as usize))
        } else {
            Err(BuiltinError::BadNumber)
        }
    } else {
        match spelled_int(arg) {
            Some(n) => if i32::MIN <= n <= i32::MAX {
                Ok(FgTarget::Pid(n as i32))
            } else {
                Err(BuiltinError::BadNumber)
            },
            None => Err(BuiltinError::BadNumber),
        }
    }
}

/// The job that the argument of `fg` names.
pub fn read_fg_target(arg: &str) -> (r: Result<FgTarget, BuiltinError>)
    ensures
        r == fg_target(arg@),
{
    let v = chars_of(arg);
    if v.len() > 0 && v[0] == '%' {
        let rest = string_of(&v, 1, v.len());
        assert(v@.subrange(1, v@.len() as int) =~= arg@.skip(1));
        match parse_usize(rest.as_str()) {
            Some(n) => Ok(FgTarget::Job(n)),
            None => Err(BuiltinError::BadNumber),
        }
    } else {
        match parse_i32(arg) {
            Some(n) => Ok(FgTarget::Pid(n)),
            None => Err(BuiltinError::BadNumber),
        }
    }
}

/// What `fg` makes of its arguments and the job table `before`: the table
/// after it, and its result.
///
/// It fails with `Arity` unless there is one argument, and with `BadNumber`
/// where the argument spells no number. A process id stands for the job
/// with the smallest id that runs the process; where there is none the
/// failure is `NotFound`. The job is then brought to the foreground as
/// `move_to_fg` does it.
pub open spec fn fg_done(
    args: Seq<Seq<char>>,
    before: Map<nat, Process>,
    after: Map<nat, Process>,
    r: Result<(), BuiltinError>,
) -> bool {
    if args.len() != 1 {
        r == Err::<(), BuiltinError>(BuiltinError::Arity) && after == before
    } else {
        match fg_target(args[0]) {
            Err(e) => r == Err::<(), BuiltinError>(e) && after == before,
            Ok(FgTarget::Job(id)) => exists|j: Result<(), JobError>|
                fg_moved(before, id, after, r, j),
            Ok(FgTarget::Pid(pid)) => if forall|k: nat|
                before.contains_key(k) ==> before[k].pid != pid {
                r == Err::<(), BuiltinError>(BuiltinError::Job(JobError::NotFound)) && after
                    == before
            } else {
                exists|id: usize, j: Result<(), JobError>|
                    smallest_with_pid(before, pid, id as nat) && fg_moved(before, id, after, r, j)
            },
        }
    }
}

/// The job `id` was brought to the foreground with the result `j`, which
/// is the result `r` of the command.
pub open spec fn fg_moved(
    before: Map<nat, Process>,
    id: usize,
    after: Map<nat, Process>,
    r: Result<(), BuiltinError>,
    j: Result<(), JobError>,
) -> bool {
    Jobs::brought(before, id, after, j) && r == lifted(j)
}

/// `fg ID`: brings a job to the foreground and lets it go on. `ID` is `%`
/// and a job id, or a process id.
pub fn fg(args: &Vec<String>, jobs: &mut Jobs) -> (r: Result<(), BuiltinError>)
    ensures
        fg_done(texts(args@), old(jobs)@, final(jobs)@, r),
{
    if args.len() != 1 {
        return Err(BuiltinError::Arity);
    }
    let id = match read_fg_target(args[0].as_str()) {
        Err(e) => {
            return Err(e);
        },
        Ok(FgTarget::Job(id)) => id,
        Ok(FgTarget::Pid(pid)) => match jobs.from_pid(pid) {
            Some(id) => id,
            None => {
                return Err(BuiltinError::Job(JobError::NotFound));
            },
        },
    };
    let j = jobs.move_to_fg(id);
    let r = match j {
        Ok(()) => Ok(()),
        Err(e) => Err(BuiltinError::Job(e)),
    };
    assert(fg_moved(old(jobs)@, id, jobs@, r, j));
    r
}

/// A result of the job table as a result of a command.
pub open spec fn lifted(j: Result<(), JobError>) -> Result<(), BuiltinError> {
    match j {
        Ok(()) => Ok(()),
        Err(e) => Err(BuiltinError::Job(e)),
    }
}

} // verus!
