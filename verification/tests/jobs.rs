use jobshell::job::process::{
    interpret, probe_failed, probe_flags, probe_request, sent, wait_failed, wait_flags, waited,
};
use jobshell::job::sys::{ChildEvent, WaitFlags};
use jobshell::job::{JobError, Jobs, Notice, Process, Signal, Status, Waited};

#[test]
fn new_table_is_empty() {
    let jobs = Jobs::new();
    assert_eq!(jobs.fg_pid(), None);
    assert_eq!(jobs.occupancy(0), 0);
    assert_eq!(jobs.from_pid(1), None);
}

#[test]
fn foreground_slot_takes_one_process() {
    let mut jobs = Jobs::new();
    assert_eq!(jobs.new_fg(100), Ok(()));
    assert_eq!(jobs.new_fg(200), Err(JobError::ForegroundBusy));
    assert_eq!(jobs.fg_pid(), Some(100));
    assert_eq!(jobs.occupancy(0), 1);
    assert_eq!(jobs.get(0), Some(Process { pid: 100, suspended: false }));
}

#[test]
fn background_ids_are_the_smallest_free() {
    let mut jobs = Jobs::new();
    assert_eq!(jobs.new_bg(11), Ok((1, 11)));
    assert_eq!(jobs.new_bg(12), Ok((2, 12)));
    assert_eq!(jobs.new_bg(13), Ok((3, 13)));
    assert_eq!(jobs.child_changed(12, Status::Exited(0)), Some(Notice::Exited(2, 12, 0)));
    assert_eq!(jobs.new_bg(14), Ok((2, 14)));
    assert_eq!(jobs.new_bg(15), Ok((4, 15)));
    assert_eq!(jobs.fg_pid(), None);
}

#[test]
fn stopped_foreground_moves_to_background() {
    let mut jobs = Jobs::new();
    jobs.new_bg(7).unwrap();
    jobs.new_fg(42).unwrap();
    let waited = jobs.settle_fg(Status::Signaled(Signal::Tstp));
    assert_eq!(
        waited,
        Ok(Waited {
            status: Some(Status::Signaled(Signal::Tstp)),
            notice: Some(Notice::Suspended(2, 42)),
        })
    );
    assert_eq!(jobs.fg_pid(), None);
    assert_eq!(jobs.get(2), Some(Process { pid: 42, suspended: true }));
    assert_eq!(Notice::Suspended(2, 42).message(), "\nSuspended: %2 (42)");
}

#[test]
fn interrupted_foreground_leaves_with_a_failure() {
    let mut jobs = Jobs::new();
    jobs.new_fg(9).unwrap();
    assert_eq!(jobs.settle_fg(Status::Signaled(Signal::Int)), Err(JobError::Interrupted));
    assert_eq!(jobs.fg_pid(), None);
    assert_eq!(
        jobs.settle_fg(Status::Exited(0)),
        Ok(Waited { status: None, notice: None })
    );
}

#[test]
fn ended_foreground_leaves_with_its_status() {
    let mut jobs = Jobs::new();
    jobs.new_fg(9).unwrap();
    assert_eq!(
        jobs.settle_fg(Status::Exited(2)),
        Ok(Waited { status: Some(Status::Exited(2)), notice: None })
    );
    assert_eq!(jobs.fg_pid(), None);
    jobs.new_fg(10).unwrap();
    assert_eq!(
        jobs.settle_fg(Status::Signaled(Signal::Other(9))),
        Ok(Waited { status: Some(Status::Signaled(Signal::Other(9))), notice: None })
    );
    assert_eq!(jobs.occupancy(0), 0);
}

#[test]
fn news_of_children_changes_background_jobs_only() {
    let mut jobs = Jobs::new();
    jobs.new_fg(1).unwrap();
    jobs.new_bg(2).unwrap();
    jobs.new_bg(3).unwrap();
    assert_eq!(jobs.child_changed(1, Status::Exited(0)), None);
    assert_eq!(jobs.fg_pid(), Some(1));
    assert_eq!(jobs.child_changed(77, Status::Exited(0)), None);
    assert_eq!(
        jobs.child_changed(2, Status::Signaled(Signal::Stop)),
        Some(Notice::Stopped(1, 2))
    );
    assert_eq!(jobs.get(1), Some(Process { pid: 2, suspended: true }));
    assert_eq!(
        jobs.child_changed(2, Status::Signaled(Signal::Cont)),
        Some(Notice::Continued(1, 2))
    );
    assert_eq!(jobs.get(1), Some(Process { pid: 2, suspended: false }));
    assert_eq!(
        jobs.child_changed(3, Status::Signaled(Signal::Int)),
        Some(Notice::Terminated(2, 3, Signal::Int))
    );
    assert_eq!(jobs.get(2), None);
    assert_eq!(jobs.child_changed(2, Status::Exited(5)), Some(Notice::Exited(1, 2, 5)));
    assert_eq!(jobs.get(1), None);
    assert!(jobs.contains(0));
}

#[test]
fn from_pid_gives_the_smallest_id() {
    let mut jobs = Jobs::new();
    jobs.new_bg(5).unwrap();
    jobs.new_bg(6).unwrap();
    jobs.new_bg(5).unwrap();
    assert_eq!(jobs.from_pid(5), Some(1));
    assert_eq!(jobs.from_pid(6), Some(2));
    assert_eq!(jobs.from_pid(7), None);
    assert_eq!(jobs.get_pid(&3), Ok(5));
    assert_eq!(jobs.get_pid(&4), Err(JobError::NotFound));
    jobs.new_fg(6).unwrap();
    assert_eq!(jobs.from_pid(6), Some(0));
}

#[test]
fn moving_to_the_foreground() {
    let mut jobs = Jobs::new();
    jobs.new_bg(5).unwrap();
    assert_eq!(jobs.move_to_fg(0), Ok(()));
    assert_eq!(jobs.move_to_fg(2), Err(JobError::NotFound));
    assert_eq!(jobs.move_to_fg(1), Ok(()));
    assert_eq!(jobs.get(0), Some(Process { pid: 5, suspended: false }));
    assert_eq!(jobs.get(1), None);
    jobs.new_bg(6).unwrap();
    assert_eq!(jobs.move_to_fg(1), Err(JobError::ForegroundBusy));
    assert_eq!(jobs.get(1), Some(Process { pid: 6, suspended: false }));
}

#[test]
fn suspended_job_is_told_to_go_on() {
    let me = nix::unistd::getpid().as_raw();
    let mut jobs = Jobs::new();
    jobs.new_fg(me).unwrap();
    jobs.settle_fg(Status::Signaled(Signal::Stop)).unwrap();
    assert_eq!(jobs.get(1), Some(Process { pid: me, suspended: true }));
    assert_eq!(jobs.move_to_fg(1), Ok(()));
    assert_eq!(jobs.get(0), Some(Process { pid: me, suspended: false }));
    let mut p = Process { pid: me, suspended: true };
    assert_eq!(p.restart(), Ok(Status::Signaled(Signal::Cont)));
    assert!(!p.suspended());
    assert_eq!(p.restart(), Err(JobError::NotSuspended));
}

#[test]
fn signals_to_no_process_fail() {
    let nobody = i32::MAX;
    let no_such = nix::errno::Errno::ESRCH as i32;
    assert_eq!(Process::from(nobody).interrupt(), Err(JobError::Signal(no_such)));
    assert_eq!(Process::from(0).interrupt(), Err(JobError::BadPid));
    assert_eq!(Process::from(-1).interrupt(), Err(JobError::BadPid));
    let mut p = Process::from(nobody);
    assert_eq!(p.pid(), nobody);
    assert_eq!(p.suspend(), Err(JobError::Signal(no_such)));
    assert!(p.suspended());
    assert_eq!(p.suspend(), Err(JobError::AlreadySuspended));
    let mut jobs = Jobs::new();
    jobs.new_fg(nobody).unwrap();
    assert_eq!(jobs.sigtstp(), Err(JobError::Signal(no_such)));
    assert_eq!(jobs.fg_pid(), None);
    assert_eq!(jobs.sigtstp(), Ok(()));
    jobs.new_fg(nobody).unwrap();
    assert_eq!(jobs.sigint(), Err(JobError::Signal(no_such)));
    assert_eq!(jobs.fg_pid(), None);
    assert_eq!(jobs.sigint(), Ok(None));
    jobs.new_bg(nobody).unwrap();
    assert_eq!(jobs.interrupt(1), Err(JobError::Signal(no_such)));
    assert_eq!(jobs.interrupt(1), Ok(None));
    assert_eq!(jobs.suspend(4), Ok(()));
}

#[test]
fn waiting_for_no_child_fails() {
    let no_child = nix::errno::Errno::ECHILD as i32;
    assert_eq!(Process::from(i32::MAX).wait(), Err(JobError::Wait(no_child)));
    let mut jobs = Jobs::new();
    jobs.new_fg(i32::MAX).unwrap();
    assert_eq!(jobs.wait_fg(), Err(JobError::Wait(no_child)));
    assert_eq!(jobs.fg_pid(), Some(i32::MAX));
    assert_eq!(Jobs::new().wait_fg(), Ok(Waited { status: None, notice: None }));
}

#[test]
fn reports_of_the_system_become_statuses() {
    let number = |s: nix::sys::signal::Signal| s as i32;
    let stop = number(nix::sys::signal::Signal::SIGSTOP);
    let tstp = number(nix::sys::signal::Signal::SIGTSTP);
    let int = number(nix::sys::signal::Signal::SIGINT);
    let kill = number(nix::sys::signal::Signal::SIGKILL);
    let ttin = number(nix::sys::signal::Signal::SIGTTIN);
    let ttou = number(nix::sys::signal::Signal::SIGTTOU);
    let cont = number(nix::sys::signal::Signal::SIGCONT);
    assert_eq!(interpret(ChildEvent::Exited(4, 2)), Ok(Some((4, Status::Exited(2)))));
    assert_eq!(
        interpret(ChildEvent::Stopped(4, stop)),
        Ok(Some((4, Status::Signaled(Signal::Stop))))
    );
    assert_eq!(
        interpret(ChildEvent::Stopped(4, tstp)),
        Ok(Some((4, Status::Signaled(Signal::Tstp))))
    );
    assert_eq!(
        interpret(ChildEvent::Stopped(4, ttin)),
        Ok(Some((4, Status::Signaled(Signal::Ttin))))
    );
    assert_eq!(
        interpret(ChildEvent::Stopped(4, ttou)),
        Ok(Some((4, Status::Signaled(Signal::Ttou))))
    );
    assert_eq!(
        interpret(ChildEvent::Signaled(4, cont)),
        Ok(Some((4, Status::Signaled(Signal::Cont))))
    );
    assert_eq!(
        interpret(ChildEvent::Signaled(4, int)),
        Ok(Some((4, Status::Signaled(Signal::Int))))
    );
    assert_eq!(
        interpret(ChildEvent::Signaled(4, kill)),
        Ok(Some((4, Status::Signaled(Signal::Other(kill)))))
    );
    assert_eq!(
        interpret(ChildEvent::Continued(4)),
        Ok(Some((4, Status::Signaled(Signal::Cont))))
    );
    assert_eq!(interpret(ChildEvent::StillAlive), Ok(None));
    assert_eq!(interpret(ChildEvent::Traced(4)), Err(JobError::Unexpected));
}

#[test]
fn statuses_tell_what_happened() {
    assert!(Status::Signaled(Signal::Stop).stopped());
    assert!(Status::Signaled(Signal::Tstp).stopped());
    assert!(Status::Signaled(Signal::Ttin).stopped());
    assert!(Status::Signaled(Signal::Ttou).stopped());
    assert!(!Status::Signaled(Signal::Int).stopped());
    assert!(!Status::Exited(19).stopped());
    assert!(Status::Signaled(Signal::Int).interrupted());
    assert!(!Status::Signaled(Signal::Cont).interrupted());
    assert!(Status::Signaled(Signal::Cont).continued());
    assert!(!Status::Exited(0).continued());
    assert_eq!(Status::Exited(-2).to_string(), "exited: -2");
    assert_eq!(Status::Signaled(Signal::Int).to_string(), "signaled: SIGINT");
    let kill = nix::sys::signal::Signal::SIGKILL as i32;
    assert_eq!(Status::Signaled(Signal::Other(kill)).to_string(), "signaled: SIGKILL");
    assert_eq!(Signal::Tstp.name(), "SIGTSTP");
}

#[test]
fn notices_are_worded_for_the_user() {
    assert_eq!(Notice::Continued(3, 44).message(), "\n[Background process %3 (44) continued]");
    assert_eq!(Notice::Stopped(3, 44).message(), "\n[Background process %3 (44) stopped]");
    assert_eq!(
        Notice::Terminated(1, 2, Signal::Int).message(),
        "\n[Background process %1 (2) terminated with signal \"SIGINT\"]"
    );
    assert_eq!(
        Notice::Exited(1, 2, 0).message(),
        "\n[Background process %1 (2) exited with code \"0\"]"
    );
    assert_eq!(Notice::Interrupt.message(), "\nInterrupt");
    assert_eq!(Notice::Started(1, 77).message(), "Job %1 (77) has started.");
    assert_eq!(JobError::ForegroundBusy.message(), "The foreground process is already exist.");
    assert_eq!(JobError::Signal(3).message(), "Failed to signal the process: error 3");
}

#[test]
fn sigchld_without_children_changes_nothing() {
    assert_eq!(jobshell::job::process::sigchld(), Ok(None));
    let mut jobs = Jobs::new();
    jobs.new_bg(3).unwrap();
    assert_eq!(jobs.sigchld(), Ok(None));
    assert_eq!(jobs.get_pid(&1), Ok(3));
}

#[test]
fn process_is_read_and_written_as_text() {
    assert_eq!(Process::from_str("42"), Some(Process { pid: 42, suspended: false }));
    assert_eq!(Process::from_str("-1"), Some(Process { pid: -1, suspended: false }));
    assert_eq!(Process::from_str("4x"), None);
    assert_eq!(Process::from_str("99999999999"), None);
    assert_eq!(Process::from(7).to_string(), "pid: 7 (suspended: false)");
    assert_eq!(
        Process { pid: 8, suspended: true }.to_string(),
        "pid: 8 (suspended: true)"
    );
}

#[test]
fn wait_consumes_and_the_probe_does_not() {
    assert_eq!(
        wait_flags(),
        WaitFlags { exited: true, stopped: true, continued: false, nowait: false }
    );
    assert_eq!(
        probe_flags(),
        WaitFlags { exited: true, stopped: true, continued: true, nowait: true }
    );
}

#[test]
fn a_wait_gives_the_status_alone() {
    let tstp = nix::sys::signal::Signal::SIGTSTP as i32;
    let kill = nix::sys::signal::Signal::SIGKILL as i32;
    assert_eq!(waited(ChildEvent::Exited(4, 7)), Ok(Status::Exited(7)));
    assert_eq!(waited(ChildEvent::Stopped(4, tstp)), Ok(Status::Signaled(Signal::Tstp)));
    assert_eq!(waited(ChildEvent::Signaled(4, kill)), Ok(Status::Signaled(Signal::Other(kill))));
    assert_eq!(waited(ChildEvent::Continued(4)), Ok(Status::Signaled(Signal::Cont)));
    assert_eq!(waited(ChildEvent::StillAlive), Err(JobError::Unexpected));
    assert_eq!(waited(ChildEvent::Traced(4)), Err(JobError::Unexpected));
}

#[test]
fn a_failed_wait_is_told_from_an_unknown_report() {
    assert_eq!(wait_failed(10, 22), JobError::Wait(10));
    assert_eq!(wait_failed(22, 22), JobError::Unexpected);
    assert_eq!(probe_failed(10, 22), Ok(None));
    assert_eq!(probe_failed(22, 22), Err(JobError::Unexpected));
}

#[test]
fn senders_hand_their_own_signal_to_the_process() {
    let p = Process { pid: 31, suspended: false };
    assert_eq!(p.int_request(), (31, Signal::Int));
    assert_eq!(p.stop_request(), (31, Signal::Stop));
    assert_eq!(p.cont_request(), (31, Signal::Cont));
    assert_eq!(sent(Ok(()), Signal::Stop), Ok(Status::Signaled(Signal::Stop)));
    assert_eq!(sent(Err(3), Signal::Stop), Err(JobError::Signal(3)));
}

#[test]
fn a_number_without_a_signal_is_named_by_its_digits() {
    assert_eq!(Signal::Other(0).name(), "0");
    assert_eq!(Signal::Other(-7).name(), "-7");
    assert_eq!(Status::Signaled(Signal::Other(0)).to_string(), "signaled: 0");
}

#[test]
fn stopped_foreground_takes_the_smallest_free_id_and_the_rest_stays() {
    let mut jobs = Jobs::new();
    jobs.new_bg(11).unwrap();
    jobs.new_bg(12).unwrap();
    jobs.new_bg(13).unwrap();
    assert_eq!(jobs.child_changed(12, Status::Exited(0)), Some(Notice::Exited(2, 12, 0)));
    jobs.new_fg(i32::MAX - 1).unwrap();
    assert_eq!(
        jobs.settle_fg(Status::Signaled(Signal::Ttin)),
        Ok(Waited {
            status: Some(Status::Signaled(Signal::Ttin)),
            notice: Some(Notice::Suspended(2, i32::MAX - 1)),
        })
    );
    assert_eq!(jobs.get(0), None);
    assert_eq!(jobs.get(1), Some(Process { pid: 11, suspended: false }));
    assert_eq!(jobs.get(2), Some(Process { pid: i32::MAX - 1, suspended: true }));
    assert_eq!(jobs.get(3), Some(Process { pid: 13, suspended: false }));
    assert_eq!(jobs.from_pid(13), Some(3));
    assert_eq!(jobs.from_pid(14), None);
}

#[test]
fn the_smallest_id_of_a_process_is_found() {
    let mut jobs = Jobs::new();
    jobs.new_bg(5).unwrap();
    jobs.new_bg(6).unwrap();
    jobs.new_bg(5).unwrap();
    assert_eq!(jobs.from_pid(5), Some(1));
    assert_eq!(jobs.child_changed(5, Status::Exited(0)), Some(Notice::Exited(1, 5, 0)));
    assert_eq!(jobs.from_pid(5), Some(3));
    assert_eq!(jobs.from_pid(6), Some(2));
    assert_eq!(jobs.occupancy(1), 0);
    assert_eq!(jobs.occupancy(3), 1);
}

#[test]
fn a_refused_move_leaves_the_table_as_it_was() {
    let mut jobs = Jobs::new();
    jobs.new_bg(5).unwrap();
    let before = jobs.clone();
    assert_eq!(jobs.move_to_fg(9), Err(JobError::NotFound));
    assert_eq!(jobs, before);
    jobs.new_fg(6).unwrap();
    let before = jobs.clone();
    assert_eq!(jobs.move_to_fg(1), Err(JobError::ForegroundBusy));
    assert_eq!(jobs, before);
    assert_eq!(jobs.new_fg(7), Err(JobError::ForegroundBusy));
    assert_eq!(jobs, before);
}

#[test]
fn a_wait_names_its_process_and_the_probe_names_none() {
    assert_eq!(
        Process::from(77).wait_request(),
        (Some(77), WaitFlags { exited: true, stopped: true, continued: false, nowait: false })
    );
    assert_eq!(
        probe_request(),
        (None, WaitFlags { exited: true, stopped: true, continued: true, nowait: true })
    );
}

#[test]
fn a_process_id_that_names_a_group_is_refused_by_the_table() {
    let mut jobs = Jobs::new();
    jobs.new_bg(0).unwrap();
    jobs.new_bg(-4).unwrap();
    jobs.new_bg(-5).unwrap();
    jobs.new_bg(-6).unwrap();
    assert_eq!(jobs.interrupt(1), Err(JobError::BadPid));
    assert_eq!(jobs.get(1), None);
    assert_eq!(jobs.suspend(2), Err(JobError::BadPid));
    assert_eq!(jobs.get(2), None);
    assert_eq!(
        jobs.child_changed(-5, Status::Signaled(Signal::Stop)),
        Some(Notice::Stopped(3, -5))
    );
    assert_eq!(jobs.move_to_fg(3), Err(JobError::BadPid));
    assert_eq!(jobs.get(3), None);
    assert_eq!(jobs.get(0), None);
    assert_eq!(jobs.move_to_fg(4), Ok(()));
    assert_eq!(jobs.get(0), Some(Process { pid: -6, suspended: false }));
    assert_eq!(jobs.sigtstp(), Err(JobError::BadPid));
    assert_eq!(jobs.get(0), None);
    jobs.new_fg(-7).unwrap();
    assert_eq!(jobs.sigint(), Err(JobError::BadPid));
    assert_eq!(jobs.get(0), None);
}

#[test]
fn a_signal_outside_the_six_is_named_as_the_system_names_it() {
    let kill = nix::sys::signal::Signal::SIGKILL as i32;
    let other = Signal::Other(kill);
    assert_eq!(other.name_from(Some(String::from("SIGKILL"))), "SIGKILL");
    assert_eq!(other.name_from(None), format!("{}", kill));
    assert_eq!(Signal::Stop.name_from(Some(String::from("x"))), "SIGSTOP");
    assert_eq!(other.name(), "SIGKILL");
    assert_eq!(
        Notice::Terminated(1, 2, other).message(),
        "\n[Background process %1 (2) terminated with signal \"SIGKILL\"]"
    );
    assert_eq!(
        Notice::Terminated(1, 2, Signal::Other(0)).message(),
        "\n[Background process %1 (2) terminated with signal \"0\"]"
    );
}
