//! One child process and the signals that job control sends it.

use super::status::{JobError, Signal, Status};
use super::sys::{
    decode_status, send_signal, signal_of, unknown_report, wait_id, ChildEvent, WaitFlags,
};
use crate::text::{format_i32, parse_i32, signed_decimal, spelled_int};
use vstd::prelude::*;
use vstd::string::StringExecFns;

verus! {

/// A child process: its id, and whether job control has it suspended.
#[derive(Clone, Copy, Debug, PartialEq, Eq, Structural)]
pub struct Process {
    pub pid: i32,
    pub suspended: bool,
}

/// What a report of `waitid` means for job control: nothing to report, or
/// a process id with a status.
///
/// An exit gives its code; a stop or a kill the signal; a child that went on
/// counts as reached by SIGCONT. A `ptrace` stop is not expected of a child
/// of the shell.
pub fn interpret(ev: ChildEvent) -> (r: Result<Option<(i32, Status)>, JobError>)
    ensures
        ev matches ChildEvent::Exited(p, c) ==> r == Ok::<Option<(i32, Status)>, JobError>(
            Some((p, Status::Exited(c))),
        ),
        ev matches ChildEvent::Continued(p) ==> r == Ok::<Option<(i32, Status)>, JobError>(
            Some((p, Status::Signaled(Signal::Cont))),
        ),
        ev is StillAlive ==> r == Ok::<Option<(i32, Status)>, JobError>(None),
        ev is Traced ==> r == Err::<Option<(i32, Status)>, JobError>(JobError::Unexpected),
        ev matches ChildEvent::Signaled(p, n) ==> (r matches Ok(Some((q, Status::Signaled(s))))
            && q == p && (s matches Signal::Other(m) ==> m == n)),
        ev matches ChildEvent::Stopped(p, n) ==> (r matches Ok(Some((q, Status::Signaled(s))))
            && q == p && (s matches Signal::Other(m) ==> m == n)),
{
    match ev {
        ChildEvent::Exited(p, c) => Ok(Some((p, Status::Exited(c)))),
        ChildEvent::Signaled(p, s) => Ok(Some((p, Status::Signaled(signal_of(s))))),
        ChildEvent::Stopped(p, s) => Ok(Some((p, Status::Signaled(signal_of(s))))),
        ChildEvent::Continued(p) => Ok(Some((p, Status::Signaled(Signal::Cont)))),
        ChildEvent::Traced(_) => Err(JobError::Unexpected),
        ChildEvent::StillAlive => Ok(None),
    }
}

/// What `wait` makes of a report of `waitid`: the status alone, as
/// `interpret` reads it. A blocking wait that reports nothing is as
/// unexpected as a `ptrace` stop.
pub fn waited(ev: ChildEvent) -> (r: Result<Status, JobError>)
    ensures
        ev matches ChildEvent::Exited(_, c) ==> r == Ok::<Status, JobError>(Status::Exited(c)),
        ev is Continued ==> r == Ok::<Status, JobError>(Status::Signaled(Signal::Cont)),
        ev is StillAlive || ev is Traced ==> r == Err::<Status, JobError>(JobError::Unexpected),
        ev matches ChildEvent::Signaled(_, n) ==> (r matches Ok(Status::Signaled(s))
            && (s matches Signal::Other(m) ==> m == n)),
        ev matches ChildEvent::Stopped(_, n) ==> (r matches Ok(Status::Signaled(s))
            && (s matches Signal::Other(m) ==> m == n)),
{
    match interpret(ev) {
        Ok(Some((_, status))) => Ok(status),
        Ok(None) => Err(JobError::Unexpected),
        Err(e) => Err(e),
    }
}

/// What `wait` answers where `waitid` failed with the error number `e`:
/// `Unexpected` where that is the number `unknown`, by which a report of
/// a signal without a name is refused; else `Wait` with the number.
pub fn wait_failed(e: i32, unknown: i32) -> (r: JobError)
    ensures
        r == if e == unknown {
            JobError::Unexpected
        } else {
            JobError::Wait(e)
        },
{
    if e == unknown {
        JobError::Unexpected
    } else {
        JobError::Wait(e)
    }
}

/// What `sigchld` answers where `waitid` failed with the error number `e`:
/// `Unexpected` where that is the number `unknown`, by which a report of
/// a signal without a name is refused; else nothing to report, since no
/// child is left or the call was interrupted.
pub fn probe_failed(e: i32, unknown: i32) -> (r: Result<Option<(i32, Status)>, JobError>)
    ensures
        r == if e == unknown {
            Err::<Option<(i32, Status)>, JobError>(JobError::Unexpected)
        } else {
            Ok::<Option<(i32, Status)>, JobError>(None)
        },
{
    if e == unknown {
        Err(JobError::Unexpected)
    } else {
        Ok(None)
    }
}

/// What `wait` asks `waitid` to report: a child that ended or was stopped.
/// The report consumes the change.
pub fn wait_flags() -> (r: WaitFlags)
    ensures
        r == (WaitFlags { exited: true, stopped: true, continued: false, nowait: false }),
{
    WaitFlags { exited: true, stopped: true, continued: false, nowait: false }
}

/// What `sigchld` asks `waitid` to report: a child that ended, was stopped
/// or went on. The report leaves the child waitable, so that a later `wait`
/// on it still sees the change.
pub fn probe_flags() -> (r: WaitFlags)
    ensures
        r == (WaitFlags { exited: true, stopped: true, continued: true, nowait: true }),
{
    WaitFlags { exited: true, stopped: true, continued: true, nowait: true }
}

/// What `sigchld` hands to `waitid`: no process in particular, so that any
/// child is reported, and `probe_flags`.
pub fn probe_request() -> (r: (Option<i32>, WaitFlags))
    ensures
        r == (
            None::<i32>,
            (WaitFlags { exited: true, stopped: true, continued: true, nowait: true }),
        ),
{
    (None, probe_flags())
}

/// What a sender answers once `kill` has answered for the signal `sig`:
/// the signal as a status where it went out, else `Signal` with the error
/// number.
pub fn sent(outcome: Result<(), i32>, sig: Signal) -> (r: Result<Status, JobError>)
    ensures
        r == match outcome {
            Ok(_) => Ok::<Status, JobError>(Status::Signaled(sig)),
            Err(e) => Err::<Status, JobError>(JobError::Signal(e)),
        },
{
    match outcome {
        Ok(_) => Ok(Status::Signaled(sig)),
        Err(e) => Err(JobError::Signal(e)),
    }
}

impl Process {
    /// The process with this id, running.
    pub fn from(pid: i32) -> (r: Process)
        ensures
            r == (Process { pid, suspended: false }),
    {
        Process { pid, suspended: false }
    }

    /// The process whose id the text spells, running; `None` where the text
    /// spells no 32-bit integer.
    pub fn from_str(s: &str) -> (r: Option<Process>)
        ensures
            r == match spelled_int(s@) {
                Some(n) => if i32::MIN <= n <= i32::MAX {
                    Some(Process { pid: n as i32, suspended: false })
                } else {
                    None
                },
                None => None,
            },
    {
        match parse_i32(s) {
            Some(pid) => Some(Process { pid, suspended: false }),
            None => None,
        }
    }

    /// The process in words: `pid: `, the process id, and in brackets
    /// whether it is suspended.
    pub open spec fn text(self) -> Seq<char> {
        "pid: "@ + signed_decimal(self.pid as int) + " (suspended: "@ + if self.suspended {
            "true"@
        } else {
            "false"@
        } + ")"@
    }

    /// The process in words.
    pub fn to_string(&self) -> (r: String)
        ensures
            r@ == self.text(),
    {
        let mut out = String::from_str("pid: ");
        out.append(format_i32(self.pid).as_str());
        out.append(" (suspended: ");
        if self.suspended {
            out.append("true");
        } else {
            out.append("false");
        }
        out.append(")");
        assert(out@ =~= self.text());
        out
    }

    /// The process id.
    pub fn pid(&self) -> (r: i32)
        ensures
            r == self.pid,
    {
        self.pid
    }

    /// Whether job control has the process suspended.
    pub fn suspended(&self) -> (r: bool)
        ensures
            r == self.suspended,
    {
        self.suspended
    }

    /// What `wait` hands to `waitid`: this process, and `wait_flags`.
    pub fn wait_request(&self) -> (r: (Option<i32>, WaitFlags))
        ensures
            r == (
                Some(self.pid),
                (WaitFlags { exited: true, stopped: true, continued: false, nowait: false }),
            ),
    {
        (Some(self.pid), wait_flags())
    }

    /// What `interrupt` hands to `kill`: this process and SIGINT.
    pub fn int_request(&self) -> (r: (i32, Signal))
        ensures
            r == (self.pid, Signal::Int),
    {
        (self.pid, Signal::Int)
    }

    /// What `suspend` hands to `kill`: this process and SIGSTOP.
    pub fn stop_request(&self) -> (r: (i32, Signal))
        ensures
            r == (self.pid, Signal::Stop),
    {
        (self.pid, Signal::Stop)
    }

    /// What `restart` hands to `kill`: this process and SIGCONT.
    pub fn cont_request(&self) -> (r: (i32, Signal))
        ensures
            r == (self.pid, Signal::Cont),
    {
        (self.pid, Signal::Cont)
    }

    /// Sends SIGINT to the process: hands `int_request` to `kill` and
    /// answers as `sent` says.
    ///
    /// Fails with `BadPid` where the id is not positive, that is, would
    /// address a group of processes; with `Signal` where `kill` failed.
    pub fn interrupt(self) -> (r: Result<Status, JobError>)
        ensures
            self.pid <= 0 ==> r == Err::<Status, JobError>(JobError::BadPid),
            self.pid > 0 ==> (r == Ok::<Status, JobError>(Status::Signaled(Signal::Int))
                || r matches Err(JobError::Signal(_))),
    {
        if self.pid <= 0 {
            return Err(JobError::BadPid);
        }
        let (pid, sig) = self.int_request();
        sent(send_signal(pid, sig), sig)
    }

    /// Suspends a running process: marks it suspended, hands `stop_request`
    /// to `kill` and answers as `sent` says.
    ///
    /// Fails with `AlreadySuspended`, the process untouched, where it is
    /// suspended already. The mark is set before the signal goes out and
    /// stays where sending fails.
    pub fn suspend(&mut self) -> (r: Result<Status, JobError>)
        ensures
            final(self).pid == old(self).pid,
            old(self).suspended ==> r == Err::<Status, JobError>(JobError::AlreadySuspended)
                && *final(self) == *old(self),
            !old(self).suspended ==> final(self).suspended,
            !old(self).suspended && old(self).pid <= 0 ==> r == Err::<Status, JobError>(
                JobError::BadPid,
            ),
            !old(self).suspended && old(self).pid > 0 ==> (r == Ok::<Status, JobError>(
                Status::Signaled(Signal::Stop),
            ) || r matches Err(JobError::Signal(_))),
    {
        if self.suspended {
            return Err(JobError::AlreadySuspended);
        }
        self.suspended = true;
        if self.pid <= 0 {
            return Err(JobError::BadPid);
        }
        let (pid, sig) = self.stop_request();
        sent(send_signal(pid, sig), sig)
    }

    /// Lets a suspended process go on: clears the mark, hands
    /// `cont_request` to `kill` and answers as `sent` says.
    ///
    /// Fails with `NotSuspended`, the process untouched, where it is not
    /// suspended. The mark is cleared before the signal goes out and stays
    /// cleared where sending fails.
    pub fn restart(&mut self) -> (r: Result<Status, JobError>)
        ensures
            final(self).pid == old(self).pid,
            !old(self).suspended ==> r == Err::<Status, JobError>(JobError::NotSuspended)
                && *final(self) == *old(self),
            old(self).suspended ==> !final(self).suspended,
            old(self).suspended && old(self).pid <= 0 ==> r == Err::<Status, JobError>(
                JobError::BadPid,
            ),
            old(self).suspended && old(self).pid > 0 ==> (r == Ok::<Status, JobError>(
                Status::Signaled(Signal::Cont),
            ) || r matches Err(JobError::Signal(_))),
    {
        if !self.suspended {
            return Err(JobError::NotSuspended);
        }
        self.suspended = false;
        if self.pid <= 0 {
            return Err(JobError::BadPid);
        }
        let (pid, sig) = self.cont_request();
        sent(send_signal(pid, sig), sig)
    }

    /// Blocks until the process ends or is stopped, and says which. A
    /// stopped process is not reaped: it can be waited for again.
    ///
    /// Hands `wait_request` to `waitid`, and answers a report as `waited`
    /// says and a failure as `wait_failed` says. So
    /// whatever the system does, the result is a status, or one of the
    /// errors `Wait` and `Unexpected`.
    pub fn wait(&self) -> (r: Result<Status, JobError>)
        ensures
            r matches Err(e) ==> e is Wait || e is Unexpected,
    {
        let (target, flags) = self.wait_request();
        match wait_id(target, flags) {
            Err(e) => Err(wait_failed(e, unknown_report())),
            Ok(ws) => waited(decode_status(ws)),
        }
    }
}

/// Asks the system for a child that ended, stopped or went on, and leaves
/// the child waitable, so that a later `wait` on it still sees the change.
///
/// Hands `probe_request` to `waitid`, and answers a report as `interpret`
/// says and a failure as `probe_failed` says.
pub fn sigchld() -> (r: Result<Option<(i32, Status)>, JobError>)
    ensures
        r matches Err(e) ==> e is Unexpected,
{
    let (target, flags) = probe_request();
    match wait_id(target, flags) {
        Err(e) => probe_failed(e, unknown_report()),
        Ok(ws) => interpret(decode_status(ws)),
    }
}

} // verus!
