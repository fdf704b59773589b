//! The system calls that job control rests on, each behind one thin
//! function. What these functions state is taken on trust from the `nix`
//! crate; everything built on them is proved.

use super::status::Signal;
use vstd::prelude::*;

verus! {

/// `nix::sys::wait::WaitStatus`, which the library carries from `waitid`
/// to `decode_status` without looking into it.
#[verifier::external_type_specification]
#[verifier::external_body]
pub struct ExWaitStatus(nix::sys::wait::WaitStatus);

/// Which changes of a child `waitid` is to report, and whether the report
/// leaves the change in place for a later call.
#[derive(Clone, Copy, Debug, PartialEq, Eq, Structural)]
pub struct WaitFlags {
    /// Report children that ended.
    pub exited: bool,
    /// Report children that a signal stopped.
    pub stopped: bool,
    /// Report stopped children that went on.
    pub continued: bool,
    /// Leave the child waitable.
    pub nowait: bool,
}

/// What `waitid` reported: a process id, and a code or a signal's number
/// where there is one.
#[derive(Clone, Copy, Debug, PartialEq, Eq, Structural)]
pub enum ChildEvent {
    Exited(i32, i32),
    Signaled(i32, i32),
    Stopped(i32, i32),
    Continued(i32),
    Traced(i32),
    StillAlive,
}

/// `nix::sys::wait::waitid`, on one child (`Some`) or on any (`None`), with
/// the flags that `flags` switches on. Blocks until there is something to
/// report. The error is `waitid`'s error number. Nothing is claimed of the
/// result: it depends on what the children do.
#[verifier::external_body]
pub(crate) fn wait_id(target: Option<i32>, flags: WaitFlags) -> (r: Result<
    nix::sys::wait::WaitStatus,
    i32,
>) {
    let mut f = nix::sys::wait::WaitPidFlag::empty();
    f.set(nix::sys::wait::WaitPidFlag::WEXITED, flags.exited);
    f.set(nix::sys::wait::WaitPidFlag::WSTOPPED, flags.stopped);
    f.set(nix::sys::wait::WaitPidFlag::WCONTINUED, flags.continued);
    f.set(nix::sys::wait::WaitPidFlag::WNOWAIT, flags.nowait);
    let id = match target {
        Some(p) => nix::sys::wait::Id::Pid(nix::unistd::Pid::from_raw(p)),
        None => nix::sys::wait::Id::All,
    };
    nix::sys::wait::waitid(id, f).map_err(|e| e as i32)
}

/// A `nix::sys::wait::WaitStatus` as a plain value, variant for variant; the
/// two `ptrace` variants together. Signals come out as their numbers.
#[verifier::external_body]
pub(crate) fn decode_status(ws: nix::sys::wait::WaitStatus) -> (r: ChildEvent) {
    match ws {
        nix::sys::wait::WaitStatus::Exited(p, c) => ChildEvent::Exited(p.as_raw(), c),
        nix::sys::wait::WaitStatus::Signaled(p, s, _) => ChildEvent::Signaled(p.as_raw(), s as i32),
        nix::sys::wait::WaitStatus::Stopped(p, s) => ChildEvent::Stopped(p.as_raw(), s as i32),
        nix::sys::wait::WaitStatus::Continued(p) => ChildEvent::Continued(p.as_raw()),
        nix::sys::wait::WaitStatus::StillAlive => ChildEvent::StillAlive,
        nix::sys::wait::WaitStatus::PtraceEvent(p, _, _)
        | nix::sys::wait::WaitStatus::PtraceSyscall(p) => ChildEvent::Traced(p.as_raw()),
    }
}

/// `nix::sys::signal::Signal::try_from` on a signal's number, then the
/// library's name for the signal: one of the six that job control tells
/// apart, else `Other` with the number as it was given.
#[verifier::external_body]
pub(crate) fn signal_of(n: i32) -> (r: Signal)
    ensures
        r matches Signal::Other(m) ==> m == n,
{
    match nix::sys::signal::Signal::try_from(n) {
        Ok(nix::sys::signal::Signal::SIGINT) => Signal::Int,
        Ok(nix::sys::signal::Signal::SIGCONT) => Signal::Cont,
        Ok(nix::sys::signal::Signal::SIGSTOP) => Signal::Stop,
        Ok(nix::sys::signal::Signal::SIGTSTP) => Signal::Tstp,
        Ok(nix::sys::signal::Signal::SIGTTIN) => Signal::Ttin,
        Ok(nix::sys::signal::Signal::SIGTTOU) => Signal::Ttou,
        _ => Signal::Other(n),
    }
}

/// `nix::sys::signal::Signal::as_str` on the signal with this number: its
/// name in the system's headers; `None` where `Signal::try_from` knows no
/// signal of this number. Nothing is claimed of the text, nor of which
/// numbers have one: both differ from system to system.
#[verifier::external_body]
pub(crate) fn signal_text(n: i32) -> (r: Option<String>) {
    match nix::sys::signal::Signal::try_from(n) {
        Ok(s) => Some(s.as_str().to_string()),
        Err(_) => None,
    }
}

/// `nix::errno::Errno::EINVAL` as a number. With flags that the system
/// accepts, `nix::sys::wait::waitid` fails with it only where the system's
/// report names a signal, or a cause, that nix has no name for. Nothing is
/// claimed of the number: it differs from system to system.
#[verifier::external_body]
pub(crate) fn unknown_report() -> (r: i32) {
    nix::errno::Errno::EINVAL as i32
}

/// `nix::sys::signal::kill`: sends one of SIGINT, SIGSTOP and SIGCONT to the
/// process `pid`. The error is `kill`'s error number. Nothing is claimed of
/// the result: it depends on whether the process exists and may be
/// signalled.
#[verifier::external_body]
pub(crate) fn send_signal(pid: i32, sig: Signal) -> (r: Result<(), i32>)
    requires
        pid > 0,
        sig is Int || sig is Stop || sig is Cont,
{
    let s = match sig {
        Signal::Int => nix::sys::signal::Signal::SIGINT,
        Signal::Stop => nix::sys::signal::Signal::SIGSTOP,
        _ => nix::sys::signal::Signal::SIGCONT,
    };
    nix::sys::signal::kill(nix::unistd::Pid::from_raw(pid), s).map_err(|e| e as i32)
}

} // verus!
