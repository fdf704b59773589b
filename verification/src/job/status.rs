//! What became of a child: how it ended or which signal reached it.

use super::sys::signal_text;
use crate::text::{format_i32, signed_decimal};
use vstd::prelude::*;
use vstd::string::StringExecFns;

verus! {

/// The signals that job control tells apart; any other by its number.
#[derive(Clone, Copy, Debug, PartialEq, Eq, Structural)]
pub enum Signal {
    /// SIGINT
    Int,
    /// SIGCONT
    Cont,
    /// SIGSTOP
    Stop,
    /// SIGTSTP
    Tstp,
    /// SIGTTIN
    Ttin,
    /// SIGTTOU
    Ttou,
    /// Any other signal, by its number on this system.
    Other(i32),
}

/// What `waitid` reported of a child.
#[derive(Clone, Copy, Debug, PartialEq, Eq, Structural)]
pub enum Status {
    /// It exited with this code.
    Exited(i32),
    /// This signal ended, stopped or continued it.
    Signaled(Signal),
}

/// Why an operation on a process or on the job table failed.
#[derive(Clone, Copy, Debug, PartialEq, Eq, Structural)]
pub enum JobError {
    /// Slot 0 already holds a process.
    ForegroundBusy,
    /// No job has this id, or no job runs this process.
    NotFound,
    /// The process is suspended already.
    AlreadySuspended,
    /// The process is not suspended.
    NotSuspended,
    /// The foreground process was interrupted.
    Interrupted,
    /// The process id is not that of one process.
    BadPid,
    /// `kill` failed, with this error number.
    Signal(i32),
    /// `waitid` failed, with this error number.
    Wait(i32),
    /// `waitid` reported what job control does not handle.
    Unexpected,
    /// Every job id is taken.
    TableFull,
}

/// The text of a name that the system may have given.
pub open spec fn spelling(name: Option<String>) -> Option<Seq<char>> {
    match name {
        Some(t) => Some(t@),
        None => None,
    }
}

impl Signal {
    /// The signal's name. The six signals that job control tells apart have
    /// their conventional names. Any other has the name `spelled`, where
    /// there is one, and else its number in decimal.
    pub open spec fn name_with(self, spelled: Option<Seq<char>>) -> Seq<char> {
        match self {
            Signal::Int => "SIGINT"@,
            Signal::Cont => "SIGCONT"@,
            Signal::Stop => "SIGSTOP"@,
            Signal::Tstp => "SIGTSTP"@,
            Signal::Ttin => "SIGTTIN"@,
            Signal::Ttou => "SIGTTOU"@,
            Signal::Other(n) => match spelled {
                Some(t) => t,
                None => signed_decimal(n as int),
            },
        }
    }

    /// The signal's name, where the system spells a signal outside the six
    /// as `spelled`, or has no name for it.
    pub fn name_from(&self, spelled: Option<String>) -> (r: String)
        ensures
            r@ == self.name_with(spelling(spelled)),
    {
        match self {
            Signal::Int => String::from_str("SIGINT"),
            Signal::Cont => String::from_str("SIGCONT"),
            Signal::Stop => String::from_str("SIGSTOP"),
            Signal::Tstp => String::from_str("SIGTSTP"),
            Signal::Ttin => String::from_str("SIGTTIN"),
            Signal::Ttou => String::from_str("SIGTTOU"),
            Signal::Other(n) => match spelled {
                Some(name) => name,
                None => format_i32(*n),
            },
        }
    }

    /// The signal's name, as the system's headers spell it; for a number
    /// that the system has no signal for, the number in decimal. What the
    /// system calls a signal outside the six is left open.
    pub fn name(&self) -> (r: String)
        ensures
            exists|spelled: Option<Seq<char>>| r@ == self.name_with(spelled),
    {
        let spelled = match self {
            Signal::Other(n) => signal_text(*n),
            _ => None,
        };
        let r = self.name_from(spelled);
        assert(r@ == self.name_with(spelling(spelled)));
        r
    }
}

impl Status {
    /// Whether a stop signal reached the process: it is alive and halted.
    pub open spec fn spec_stopped(&self) -> bool {
        match self {
            Status::Signaled(s) => s is Stop || s is Tstp || s is Ttin || s is Ttou,
            Status::Exited(_) => false,
        }
    }

    /// Whether a stop signal reached the process.
    #[verifier::when_used_as_spec(spec_stopped)]
    pub fn stopped(&self) -> (r: bool)
        ensures
            r == self.spec_stopped(),
    {
        match self {
            Status::Signaled(Signal::Stop) => true,
            Status::Signaled(Signal::Tstp) => true,
            Status::Signaled(Signal::Ttin) => true,
            Status::Signaled(Signal::Ttou) => true,
            _ => false,
        }
    }

    /// Whether the process was interrupted.
    pub open spec fn spec_interrupted(&self) -> bool {
        *self == Status::Signaled(Signal::Int)
    }

    /// Whether the process was interrupted.
    #[verifier::when_used_as_spec(spec_interrupted)]
    pub fn interrupted(&self) -> (r: bool)
        ensures
            r == self.spec_interrupted(),
    {
        match self {
            Status::Signaled(Signal::Int) => true,
            _ => false,
        }
    }

    /// Whether the process was told to go on.
    pub open spec fn spec_continued(&self) -> bool {
        *self == Status::Signaled(Signal::Cont)
    }

    /// Whether the process was told to go on.
    #[verifier::when_used_as_spec(spec_continued)]
    pub fn continued(&self) -> (r: bool)
        ensures
            r == self.spec_continued(),
    {
        match self {
            Status::Signaled(Signal::Cont) => true,
            _ => false,
        }
    }

    /// The status in words: `exited: ` and the code, or `signaled: ` and the
    /// signal's name, as `Signal::name_with` gives it for `spelled`.
    pub open spec fn text_with(self, spelled: Option<Seq<char>>) -> Seq<char> {
        match self {
            Status::Exited(c) => "exited: "@ + signed_decimal(c as int),
            Status::Signaled(s) => "signaled: "@ + s.name_with(spelled),
        }
    }

    /// The status in words. What the system calls a signal outside the six
    /// is left open; the words around the name are not.
    pub fn to_string(&self) -> (r: String)
        ensures
            exists|spelled: Option<Seq<char>>| r@ == self.text_with(spelled),
    {
        match self {
            Status::Exited(c) => {
                let mut out = String::from_str("exited: ");
                out.append(format_i32(*c).as_str());
                assert(out@ == self.text_with(None));
                out
            },
            Status::Signaled(s) => {
                let mut out = String::from_str("signaled: ");
                let name = s.name();
                let ghost spelled = choose|spelled: Option<Seq<char>>|
                    name@ == s.name_with(spelled);
                out.append(name.as_str());
                assert(out@ == self.text_with(spelled));
                out
            },
        }
    }
}

impl JobError {
    /// The message that goes with the error.
    pub open spec fn text(self) -> Seq<char> {
        match self {
            JobError::ForegroundBusy => "The foreground process is already exist."@,
            JobError::NotFound => "Can't find such a process."@,
            JobError::AlreadySuspended => "The process is already suspended."@,
            JobError::NotSuspended => "The process is not suspended."@,
            JobError::Interrupted => "Interrupted"@,
            JobError::BadPid => "Not the id of a process."@,
            JobError::Signal(e) => "Failed to signal the process: error "@ + signed_decimal(
                e as int,
            ),
            JobError::Wait(e) => "Failed to wait the process: error "@ + signed_decimal(e as int),
            JobError::Unexpected => "Unnexpected signal."@,
            JobError::TableFull => "No job id is left."@,
        }
    }

    /// The message that goes with the error.
    pub fn message(&self) -> (r: String)
        ensures
            r@ == self.text(),
    {
        match self {
            JobError::ForegroundBusy => String::from_str(
                "The foreground process is already exist.",
            ),
            JobError::NotFound => String::from_str("Can't find such a process."),
            JobError::AlreadySuspended => String::from_str("The process is already suspended."),
            JobError::NotSuspended => String::from_str("The process is not suspended."),
            JobError::Interrupted => String::from_str("Interrupted"),
            JobError::BadPid => String::from_str("Not the id of a process."),
            JobError::Signal(e) => {
                let mut out = String::from_str("Failed to signal the process: error ");
                out.append(format_i32(*e).as_str());
                out
            },
            JobError::Wait(e) => {
                let mut out = String::from_str("Failed to wait the process: error ");
                out.append(format_i32(*e).as_str());
                out
            },
            JobError::Unexpected => String::from_str("Unnexpected signal."),
            JobError::TableFull => String::from_str("No job id is left."),
        }
    }
}

} // verus!
