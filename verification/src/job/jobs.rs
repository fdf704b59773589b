//! The job table: job ids mapped to processes, slot 0 for the foreground.

use super::process::{sigchld, Process};
use super::status::{JobError, Signal, Status};
use crate::text::{decimal, format_i32, format_usize, signed_decimal};
use std::collections::HashMap;
use vstd::prelude::*;
use vstd::set_lib::{lemma_len_subset, lemma_subset_equality};
use vstd::std_specs::hash::group_hash_axioms;
use vstd::string::StringExecFns;

verus! {

broadcast use group_hash_axioms;

/// Something that happened to a job and that the user is told.
#[derive(Clone, Copy, Debug, PartialEq, Eq, Structural)]
pub enum Notice {
    /// The foreground process was stopped and became this background job.
    Suspended(usize, i32),
    /// A background job went on.
    Continued(usize, i32),
    /// A background job was stopped.
    Stopped(usize, i32),
    /// A signal ended a background job.
    Terminated(usize, i32, Signal),
    /// A background job exited, with this code.
    Exited(usize, i32, i32),
    /// The foreground process was sent SIGINT.
    Interrupt,
    /// A background job was started.
    Started(usize, i32),
}

/// `%`, the job id, a blank, and the process id in brackets.
pub open spec fn job_label(id: usize, pid: i32) -> Seq<char> {
    "%"@ + decimal(id as nat) + " ("@ + signed_decimal(pid as int) + ")"@
}

fn label(id: usize, pid: i32, out: &mut String)
    ensures
        final(out)@ == old(out)@ + job_label(id, pid),
{
    out.append("%");
    out.append(format_usize(id).as_str());
    out.append(" (");
    out.append(format_i32(pid).as_str());
    out.append(")");
    assert(out@ =~= old(out)@ + job_label(id, pid));
}

impl Notice {
    /// The line that tells the user. The name of a signal is as
    /// `Signal::name_with` gives it for `spelled`.
    pub open spec fn text(self, spelled: Option<Seq<char>>) -> Seq<char> {
        match self {
            Notice::Suspended(id, pid) => "\nSuspended: "@ + job_label(id, pid),
            Notice::Continued(id, pid) => "\n[Background process "@ + job_label(id, pid)
                + " continued]"@,
            Notice::Stopped(id, pid) => "\n[Background process "@ + job_label(id, pid)
                + " stopped]"@,
            Notice::Terminated(id, pid, s) => "\n[Background process "@ + job_label(id, pid)
                + " terminated with signal \""@ + s.name_with(spelled) + "\"]"@,
            Notice::Exited(id, pid, c) => "\n[Background process "@ + job_label(id, pid)
                + " exited with code \""@ + signed_decimal(c as int) + "\"]"@,
            Notice::Interrupt => "\nInterrupt"@,
            Notice::Started(id, pid) => "Job "@ + job_label(id, pid) + " has started."@,
        }
    }

    /// The line that tells the user. `Started` goes to standard output, the
    /// others to standard error. What the system calls a signal outside
    /// the six is left open; the words around the name are not.
    pub fn message(&self) -> (r: String)
        ensures
            exists|spelled: Option<Seq<char>>| r@ == self.text(spelled),
    {
        let r = self.worded();
        assert(exists|spelled: Option<Seq<char>>| r@ == self.text(spelled)) by {
            if !(self is Terminated) {
                assert(r@ == self.text(None));
            }
        }
        r
    }

    fn worded(&self) -> (r: String)
        ensures
            self is Terminated ==> exists|spelled: Option<Seq<char>>| r@ == self.text(spelled),
            !(self is Terminated) ==> r@ == self.text(None),
    {
        match self {
            Notice::Suspended(id, pid) => {
                let mut out = String::from_str("\nSuspended: ");
                label(*id, *pid, &mut out);
                out
            },
            Notice::Continued(id, pid) => {
                let mut out = String::from_str("\n[Background process ");
                label(*id, *pid, &mut out);
                out.append(" continued]");
                out
            },
            Notice::Stopped(id, pid) => {
                let mut out = String::from_str("\n[Background process ");
                label(*id, *pid, &mut out);
                out.append(" stopped]");
                out
            },
            Notice::Terminated(id, pid, s) => {
                let mut out = String::from_str("\n[Background process ");
                label(*id, *pid, &mut out);
                out.append(" terminated with signal \"");
                let name = s.name();
                let ghost spelled = choose|spelled: Option<Seq<char>>|
                    name@ == s.name_with(spelled);
                out.append(name.as_str());
                out.append("\"]");
                assert(out@ == self.text(spelled));
                out
            },
            Notice::Exited(id, pid, c) => {
                let mut out = String::from_str("\n[Background process ");
                label(*id, *pid, &mut out);
                out.append(" exited with code \"");
                out.append(format_i32(*c).as_str());
                out.append("\"]");
                out
            },
            Notice::Interrupt => String::from_str("\nInterrupt"),
            Notice::Started(id, pid) => {
                let mut out = String::from_str("Job ");
                label(*id, *pid, &mut out);
                out.append(" has started.");
                out
            },
        }
    }
}

/// What waiting for the foreground process gave: its status, if there was
/// one to wait for, and what to tell the user.
#[derive(Clone, Copy, Debug, PartialEq, Eq, Structural)]
pub struct Waited {
    pub status: Option<Status>,
    pub notice: Option<Notice>,
}

/// The table of jobs. Slot 0 is the foreground; the ids from 1 on are
/// background jobs.
#[derive(Clone, Debug, PartialEq, Eq)]
pub struct Jobs {
    table: HashMap<usize, Process>,
}

/// The mapping from job ids, as numbers, that a hash table stands for.
pub open spec fn table_of(m: Map<usize, Process>) -> Map<nat, Process> {
    Map::new(
        |id: nat| id <= usize::MAX && m.contains_key(id as usize),
        |id: nat| m[id as usize],
    )
}

/// Whether `id` is the smallest id from 1 on that `table` does not hold.
pub open spec fn smallest_free(table: Map<nat, Process>, id: nat) -> bool {
    &&& id >= 1
    &&& !table.contains_key(id)
    &&& forall|k: nat| 1 <= k < id ==> table.contains_key(k)
}

/// Whether `id` is the smallest id of `table` whose process has the id
/// `pid`.
pub open spec fn smallest_with_pid(table: Map<nat, Process>, pid: i32, id: nat) -> bool {
    &&& table.contains_key(id)
    &&& table[id].pid == pid
    &&& forall|k: nat| k < id && table.contains_key(k) ==> table[k].pid != pid
}

/// The ids of `s` below `k`.
spec fn below(s: Set<usize>, k: int) -> Set<usize> {
    s.filter(|j: usize| j < k)
}

/// A finite set that holds every id below `n` has at least `n` members.
proof fn lemma_holds_many(s: Set<usize>, n: nat)
    requires
        s.finite(),
        n <= usize::MAX + 1,
        forall|k: usize| k < n ==> s.contains(k),
    ensures
        s.len() >= n,
    decreases n,
{
    if n > 0 {
        let top = (n - 1) as usize;
        assert(s.contains(top));
        lemma_holds_many(s.remove(top), (n - 1) as nat);
    }
}

/// Going one id further: the ids below `k + 1` are those below `k`, and
/// `k` itself where the set holds it.
proof fn lemma_below_next(s: Set<usize>, k: usize)
    requires
        s.finite(),
    ensures
        below(s, k as int).finite(),
        below(s, k as int).len() <= s.len(),
        below(s, k + 1).len() == below(s, k as int).len() + if s.contains(k) {
            1nat
        } else {
            0nat
        },
{
    lemma_len_subset(below(s, k as int), s);
    if s.contains(k) {
        assert(below(s, k + 1) =~= below(s, k as int).insert(k));
    } else {
        assert(below(s, k + 1) =~= below(s, k as int));
    }
}

impl View for Jobs {
    type V = Map<nat, Process>;

    closed spec fn view(&self) -> Map<nat, Process> {
        table_of(self.table@)
    }
}

impl Jobs {
    /// How many processes the table holds under `id`.
    pub open spec fn occupants(&self, id: nat) -> nat {
        if self@.contains_key(id) {
            1
        } else {
            0
        }
    }

    /// The table without a job.
    pub fn new() -> (r: Jobs)
        ensures
            r@ == Map::<nat, Process>::empty(),
    {
        let r = Jobs { table: HashMap::new() };
        assert(r@ =~= Map::<nat, Process>::empty());
        r
    }

    /// Whether the table holds a job under `id`.
    pub fn contains(&self, id: usize) -> (r: bool)
        ensures
            r == self@.contains_key(id as nat),
    {
        self.table.contains_key(&id)
    }

    /// The process of the job `id`, if there is one.
    pub fn get(&self, id: usize) -> (r: Option<Process>)
        ensures
            r == if self@.contains_key(id as nat) {
                Some(self@[id as nat])
            } else {
                None
            },
    {
        match self.table.get(&id) {
            Some(p) => Some(*p),
            None => None,
        }
    }

    /// Puts `p` under `id`, in place of what was there.
    fn put(&mut self, id: usize, p: Process)
        ensures
            final(self)@ == old(self)@.insert(id as nat, p),
    {
        self.table.insert(id, p);
        assert(self@ =~= old(self)@.insert(id as nat, p));
    }

    /// Takes the job `id` out of the table, if it is there.
    fn pull(&mut self, id: usize) -> (r: Option<Process>)
        ensures
            final(self)@ == old(self)@.remove(id as nat),
            r == if old(self)@.contains_key(id as nat) {
                Some(old(self)@[id as nat])
            } else {
                None
            },
    {
        let r = self.table.remove(&id);
        assert(self@ =~= old(self)@.remove(id as nat));
        r
    }

    /// The smallest id from 1 on that no job has; `None` where every id is
    /// taken.
    fn get_available_id(&self) -> (r: Option<usize>)
        ensures
            r matches Some(id) ==> smallest_free(self@, id as nat),
            r is None ==> forall|k: nat| 1 <= k <= usize::MAX ==> self@.contains_key(k),
    {
        let mut want: usize = 1;
        while self.table.contains_key(&want)
            invariant
                want >= 1,
                forall|k: nat| 1 <= k < want ==> self@.contains_key(k),
            decreases usize::MAX - want,
        {
            if want == usize::MAX {
                return None;
            }
            want = want + 1;
        }
        Some(want)
    }

    /// The smallest id from 1 on that no job has, in a table whose
    /// foreground slot is taken. Such a table has one: with a job under
    /// every id it would hold more jobs than can be counted.
    fn free_id(&self) -> (r: usize)
        requires
            self@.contains_key(0),
        ensures
            smallest_free(self@, r as nat),
    {
        match self.get_available_id() {
            Some(id) => id,
            None => {
                proof {
                    assert forall|k: usize| k < usize::MAX + 1 implies self.table@.contains_key(
                        k,
                    ) by {
                        assert(self@.contains_key(k as nat));
                    }
                    lemma_holds_many(self.table@.dom(), (usize::MAX + 1) as nat);
                    assert(self.table@.dom().len() == self.table.len());
                }
                unreached()
            },
        }
    }

    /// The process id in the foreground slot, if the slot is taken.
    pub fn fg_pid(&self) -> (r: Option<i32>)
        ensures
            r == if self@.contains_key(0) {
                Some(self@[0].pid)
            } else {
                None
            },
    {
        match self.get(0) {
            Some(p) => Some(p.pid),
            None => None,
        }
    }

    /// Installs the process `pid` in the foreground slot.
    ///
    /// Fails with `ForegroundBusy`, the table untouched, where the slot is
    /// taken.
    pub fn new_fg(&mut self, pid: i32) -> (r: Result<(), JobError>)
        ensures
            old(self)@.contains_key(0) ==> r == Err::<(), JobError>(JobError::ForegroundBusy)
                && final(self)@ == old(self)@,
            !old(self)@.contains_key(0) ==> r == Ok::<(), JobError>(()) && final(self)@
                == old(self)@.insert(0, Process { pid, suspended: false }),
    {
        if self.contains(0) {
            return Err(JobError::ForegroundBusy);
        }
        self.put(0, Process::from(pid));
        Ok(())
    }

    /// Makes the process `pid` a background job, under the smallest id from
    /// 1 on that is free, and gives the id and `pid` back.
    ///
    /// Fails with `TableFull`, the table untouched, only where every id is
    /// taken.
    pub fn new_bg(&mut self, pid: i32) -> (r: Result<(usize, i32), JobError>)
        ensures
            r matches Ok((id, p)) ==> p == pid && smallest_free(old(self)@, id as nat)
                && final(self)@ == old(self)@.insert(
                id as nat,
                Process { pid, suspended: false },
            ),
            r matches Err(e) ==> e == JobError::TableFull && final(self)@ == old(self)@,
            r is Err <==> forall|k: nat| 1 <= k <= usize::MAX ==> old(self)@.contains_key(k),
    {
        match self.get_available_id() {
            Some(id) => {
                self.put(id, Process::from(pid));
                Ok((id, pid))
            },
            None => Err(JobError::TableFull),
        }
    }

    /// The smallest id of a job that runs the process `pid`: the ids are
    /// gone through from 0 on, until a job runs the process or every job
    /// has been looked at.
    pub fn from_pid(&self, pid: i32) -> (r: Option<usize>)
        ensures
            r matches Some(id) ==> smallest_with_pid(self@, pid, id as nat),
            r is None ==> forall|k: nat| self@.contains_key(k) ==> self@[k].pid != pid,
    {
        let n = self.table.len();
        let mut seen: usize = 0;
        let mut k: usize = 0;
        assert(below(self.table@.dom(), 0) =~= Set::<usize>::empty());
        loop
            invariant
                n == self.table@.dom().len(),
                seen == below(self.table@.dom(), k as int).len(),
                forall|j: nat| j < k && self@.contains_key(j) ==> self@[j].pid != pid,
            decreases usize::MAX - k,
        {
            proof {
                lemma_below_next(self.table@.dom(), k);
            }
            if seen == n {
                proof {
                    lemma_subset_equality(below(self.table@.dom(), k as int), self.table@.dom());
                    assert forall|j: nat| self@.contains_key(j) implies self@[j].pid != pid by {
                        assert(below(self.table@.dom(), k as int).contains(j as usize));
                    }
                }
                return None;
            }
            match self.table.get(&k) {
                Some(p) => {
                    if p.pid == pid {
                        return Some(k);
                    }
                    seen = seen + 1;
                },
                None => {},
            }
            if k == usize::MAX {
                return None;
            }
            k = k + 1;
        }
    }

    /// The process id of the job `id`.
    ///
    /// Fails with `NotFound` where there is no such job.
    pub fn get_pid(&self, id: &usize) -> (r: Result<i32, JobError>)
        ensures
            r == if self@.contains_key(*id as nat) {
                Ok::<i32, JobError>(self@[*id as nat].pid)
            } else {
                Err::<i32, JobError>(JobError::NotFound)
            },
    {
        match self.get(*id) {
            Some(p) => Ok(p.pid),
            None => Err(JobError::NotFound),
        }
    }

    /// A stopped foreground process moves to the background id `id`, the
    /// smallest that is free, marked suspended, and the user is told.
    pub open spec fn moved_back(
        before: Map<nat, Process>,
        status: Status,
        after: Map<nat, Process>,
        r: Result<Waited, JobError>,
        id: usize,
    ) -> bool {
        &&& smallest_free(before, id as nat)
        &&& after == before.remove(0).insert(
            id as nat,
            Process { pid: before[0].pid, suspended: true },
        )
        &&& r == Ok::<Waited, JobError>(
            Waited { status: Some(status), notice: Some(Notice::Suspended(id, before[0].pid)) },
        )
    }

    /// What `settle_fg` makes of the table `before` and a status of the
    /// foreground process: the table after it, and its result.
    ///
    /// With the slot empty nothing happens. A stopped process moves to the
    /// background; an interrupted one leaves the table and the failure
    /// `Interrupted` comes up; in any other case the process leaves the
    /// table.
    pub open spec fn settled(
        before: Map<nat, Process>,
        status: Status,
        after: Map<nat, Process>,
        r: Result<Waited, JobError>,
    ) -> bool {
        if !before.contains_key(0) {
            after == before && r == Ok::<Waited, JobError>(Waited { status: None, notice: None })
        } else if status.spec_stopped() {
            exists|id: usize| Jobs::moved_back(before, status, after, r, id)
        } else if status.spec_interrupted() {
            after == before.remove(0) && r == Err::<Waited, JobError>(JobError::Interrupted)
        } else {
            after == before.remove(0) && r == Ok::<Waited, JobError>(
                Waited { status: Some(status), notice: None },
            )
        }
    }

    /// Brings the table in line with `status`, which `wait` gave for the
    /// foreground process.
    pub fn settle_fg(&mut self, status: Status) -> (r: Result<Waited, JobError>)
        ensures
            Jobs::settled(old(self)@, status, final(self)@, r),
    {
        let fg = match self.get(0) {
            None => {
                return Ok(Waited { status: None, notice: None });
            },
            Some(p) => p,
        };
        if status.stopped() {
            let id = self.free_id();
            self.pull(0);
            self.put(id, Process { pid: fg.pid, suspended: true });
            let r = Ok(
                Waited { status: Some(status), notice: Some(Notice::Suspended(id, fg.pid)) },
            );
            assert(Jobs::moved_back(old(self)@, status, self@, r, id));
            r
        } else if status.interrupted() {
            self.pull(0);
            Err(JobError::Interrupted)
        } else {
            self.pull(0);
            Ok(Waited { status: Some(status), notice: None })
        }
    }

    /// Waits for the foreground process, if there is one, and brings the
    /// table in line with what became of it.
    ///
    /// Where waiting itself fails the table stays as it is.
    pub fn wait_fg(&mut self) -> (r: Result<Waited, JobError>)
        ensures
            !old(self)@.contains_key(0) ==> final(self)@ == old(self)@ && r == Ok::<
                Waited,
                JobError,
            >(Waited { status: None, notice: None }),
            old(self)@.contains_key(0) ==> {
                ||| (r matches Err(e) && (e is Wait || e is Unexpected) && final(self)@
                    == old(self)@)
                ||| exists|status: Status| Jobs::settled(old(self)@, status, final(self)@, r)
            },
    {
        let fg = match self.get(0) {
            None => {
                return Ok(Waited { status: None, notice: None });
            },
            Some(p) => p,
        };
        match fg.wait() {
            Err(e) => Err(e),
            Ok(status) => {
                let r = self.settle_fg(status);
                assert(Jobs::settled(old(self)@, status, self@, r));
                r
            },
        }
    }

    /// What `child_changed` makes of the job `id`, which runs the process
    /// `pid`: one that went on is marked running, one that stopped is marked
    /// suspended, one that ended leaves the table.
    pub open spec fn changed_at(
        before: Map<nat, Process>,
        pid: i32,
        status: Status,
        after: Map<nat, Process>,
        r: Option<Notice>,
        id: usize,
    ) -> bool {
        &&& smallest_with_pid(before, pid, id as nat)
        &&& if status.spec_continued() {
            after == before.insert(id as nat, Process { pid, suspended: false }) && r == Some(
                Notice::Continued(id, pid),
            )
        } else if status.spec_stopped() {
            after == before.insert(id as nat, Process { pid, suspended: true }) && r == Some(
                Notice::Stopped(id, pid),
            )
        } else {
            after == before.remove(id as nat) && r == Some(
                match status {
                    Status::Signaled(s) => Notice::Terminated(id, pid, s),
                    Status::Exited(c) => Notice::Exited(id, pid, c),
                },
            )
        }
    }

    /// What `child_changed` makes of the table `before` and the news that
    /// the process `pid` has the status `status`: the table after it, and
    /// what to tell the user.
    ///
    /// News of the foreground process is left to `wait_fg`, and so is news
    /// of a process that no job runs. Else the news is applied to the job
    /// with the smallest id that runs the process.
    pub open spec fn changed(
        before: Map<nat, Process>,
        pid: i32,
        status: Status,
        after: Map<nat, Process>,
        r: Option<Notice>,
    ) -> bool {
        if before.contains_key(0) && before[0].pid == pid {
            after == before && r is None
        } else if forall|k: nat| before.contains_key(k) ==> before[k].pid != pid {
            after == before && r is None
        } else {
            exists|id: usize| Jobs::changed_at(before, pid, status, after, r, id)
        }
    }

    /// Brings the table in line with the news that the process `pid` has the
    /// status `status`.
    pub fn child_changed(&mut self, pid: i32, status: Status) -> (r: Option<Notice>)
        ensures
            Jobs::changed(old(self)@, pid, status, final(self)@, r),
    {
        match self.get(0) {
            Some(p) => {
                if p.pid == pid {
                    return None;
                }
            },
            None => {},
        }
        let id = match self.from_pid(pid) {
            Some(id) => id,
            None => {
                return None;
            },
        };
        assert(smallest_with_pid(old(self)@, pid, id as nat));
        assert(!(forall|k: nat| old(self)@.contains_key(k) ==> old(self)@[k].pid != pid));
        let r = if status.continued() {
            self.put(id, Process { pid, suspended: false });
            Some(Notice::Continued(id, pid))
        } else if status.stopped() {
            self.put(id, Process { pid, suspended: true });
            Some(Notice::Stopped(id, pid))
        } else {
            self.pull(id);
            match status {
                Status::Signaled(s) => Some(Notice::Terminated(id, pid, s)),
                Status::Exited(c) => Some(Notice::Exited(id, pid, c)),
            }
        };
        assert(Jobs::changed_at(old(self)@, pid, status, self@, r, id));
        r
    }

    /// Serves SIGCHLD: asks the system which child changed, without reaping
    /// it, and brings the table in line.
    pub fn sigchld(&mut self) -> (r: Result<Option<Notice>, JobError>)
        ensures
            r matches Err(e) ==> e is Unexpected && final(self)@ == old(self)@,
            r matches Ok(n) ==> (n is None && final(self)@ == old(self)@) || exists|
                pid: i32,
                status: Status,
            | Jobs::changed(old(self)@, pid, status, final(self)@, n),
    {
        match sigchld() {
            Err(e) => Err(e),
            Ok(None) => Ok(None),
            Ok(Some((pid, status))) => {
                let n = self.child_changed(pid, status);
                assert(Jobs::changed(old(self)@, pid, status, self@, n));
                Ok(n)
            },
        }
    }

    /// Takes the job `id` out of the table and sends its process SIGINT.
    ///
    /// With no such job nothing happens. The job leaves the table whether
    /// or not the signal could be sent. A process id that is not positive
    /// is refused with `BadPid`; any other process is sent the signal, and
    /// where that fails the failure of `kill` comes up.
    pub fn interrupt(&mut self, id: usize) -> (r: Result<Option<Status>, JobError>)
        ensures
            final(self)@ == old(self)@.remove(id as nat),
            !old(self)@.contains_key(id as nat) ==> r == Ok::<Option<Status>, JobError>(None),
            old(self)@.contains_key(id as nat) && old(self)@[id as nat].pid <= 0 ==> r == Err::<
                Option<Status>,
                JobError,
            >(JobError::BadPid),
            old(self)@.contains_key(id as nat) && old(self)@[id as nat].pid > 0 ==> {
                ||| r == Ok::<Option<Status>, JobError>(Some(Status::Signaled(Signal::Int)))
                ||| r matches Err(JobError::Signal(_))
            },
    {
        match self.pull(id) {
            Some(p) => match p.interrupt() {
                Ok(s) => Ok(Some(s)),
                Err(e) => Err(e),
            },
            None => Ok(None),
        }
    }

    /// Suspends the job `id`: marks it suspended and sends its process
    /// SIGSTOP.
    ///
    /// With no such job nothing happens. Where the job is suspended already,
    /// its process id is not positive (`BadPid`), or the signal could not
    /// be sent, the job leaves the table.
    pub fn suspend(&mut self, id: usize) -> (r: Result<(), JobError>)
        ensures
            !old(self)@.contains_key(id as nat) ==> r == Ok::<(), JobError>(()) && final(self)@
                == old(self)@,
            old(self)@.contains_key(id as nat) && old(self)@[id as nat].suspended ==> r == Err::<
                (),
                JobError,
            >(JobError::AlreadySuspended) && final(self)@ == old(self)@.remove(id as nat),
            old(self)@.contains_key(id as nat) && !old(self)@[id as nat].suspended
                && old(self)@[id as nat].pid <= 0 ==> r == Err::<(), JobError>(JobError::BadPid)
                && final(self)@ == old(self)@.remove(id as nat),
            old(self)@.contains_key(id as nat) && !old(self)@[id as nat].suspended
                && old(self)@[id as nat].pid > 0 ==> {
                ||| r == Ok::<(), JobError>(()) && final(self)@ == old(self)@.insert(
                    id as nat,
                    Process { pid: old(self)@[id as nat].pid, suspended: true },
                )
                ||| r matches Err(JobError::Signal(_)) && final(self)@ == old(self)@.remove(
                    id as nat,
                )
            },
    {
        match self.pull(id) {
            None => Ok(()),
            Some(p) => {
                let mut p = p;
                match p.suspend() {
                    Err(e) => Err(e),
                    Ok(_) => {
                        self.put(id, p);
                        assert(old(self)@.remove(id as nat).insert(id as nat, p)
                            =~= old(self)@.insert(id as nat, p));
                        Ok(())
                    },
                }
            },
        }
    }

    /// Serves SIGINT: sends it on to the foreground process, which leaves
    /// the table, and has the user told.
    pub fn sigint(&mut self) -> (r: Result<Option<Notice>, JobError>)
        ensures
            final(self)@ == old(self)@.remove(0),
            !old(self)@.contains_key(0) ==> r == Ok::<Option<Notice>, JobError>(None),
            old(self)@.contains_key(0) && old(self)@[0].pid <= 0 ==> r == Err::<
                Option<Notice>,
                JobError,
            >(JobError::BadPid),
            old(self)@.contains_key(0) && old(self)@[0].pid > 0 ==> {
                ||| r == Ok::<Option<Notice>, JobError>(Some(Notice::Interrupt))
                ||| r matches Err(JobError::Signal(_))
            },
    {
        match self.interrupt(0) {
            Ok(Some(_)) => Ok(Some(Notice::Interrupt)),
            Ok(None) => Ok(None),
            Err(e) => Err(e),
        }
    }

    /// Serves SIGTSTP: suspends the foreground process, as `suspend` does
    /// with slot 0.
    pub fn sigtstp(&mut self) -> (r: Result<(), JobError>)
        ensures
            !old(self)@.contains_key(0) ==> r == Ok::<(), JobError>(()) && final(self)@
                == old(self)@,
            old(self)@.contains_key(0) && old(self)@[0].suspended ==> r == Err::<(), JobError>(
                JobError::AlreadySuspended,
            ) && final(self)@ == old(self)@.remove(0),
            old(self)@.contains_key(0) && !old(self)@[0].suspended && old(self)@[0].pid <= 0
                ==> r == Err::<(), JobError>(JobError::BadPid) && final(self)@
                == old(self)@.remove(0),
            old(self)@.contains_key(0) && !old(self)@[0].suspended && old(self)@[0].pid > 0 ==> {
                ||| r == Ok::<(), JobError>(()) && final(self)@ == old(self)@.insert(
                    0,
                    Process { pid: old(self)@[0].pid, suspended: true },
                )
                ||| r matches Err(JobError::Signal(_)) && final(self)@ == old(self)@.remove(0)
            },
    {
        self.suspend(0)
    }

    /// What `move_to_fg` makes of the table `before` and the id `id`: the
    /// table after it, and its result.
    ///
    /// Asked for slot 0 itself, it does nothing. It fails with
    /// `ForegroundBusy` where the slot is taken and with `NotFound` where
    /// there is no such job, the table untouched. A job that is not
    /// suspended leaves its id and takes slot 0. A suspended job is told to
    /// go on first: where its process id is not positive it is refused with
    /// `BadPid`, and where `kill` fails that failure comes up, the job gone
    /// from the table in both cases; else it takes slot 0, running.
    pub open spec fn brought(
        before: Map<nat, Process>,
        id: usize,
        after: Map<nat, Process>,
        r: Result<(), JobError>,
    ) -> bool {
        if id == 0 {
            r == Ok::<(), JobError>(()) && after == before
        } else if before.contains_key(0) {
            r == Err::<(), JobError>(JobError::ForegroundBusy) && after == before
        } else if !before.contains_key(id as nat) {
            r == Err::<(), JobError>(JobError::NotFound) && after == before
        } else if !before[id as nat].suspended {
            r == Ok::<(), JobError>(()) && after == before.remove(id as nat).insert(
                0,
                Process { pid: before[id as nat].pid, suspended: false },
            )
        } else if before[id as nat].pid <= 0 {
            r == Err::<(), JobError>(JobError::BadPid) && after == before.remove(id as nat)
        } else {
            ||| r == Ok::<(), JobError>(()) && after == before.remove(id as nat).insert(
                0,
                Process { pid: before[id as nat].pid, suspended: false },
            )
            ||| r matches Err(JobError::Signal(_)) && after == before.remove(id as nat)
        }
    }

    /// Brings the job `id` to the foreground, and lets it go on if it was
    /// suspended.
    pub fn move_to_fg(&mut self, id: usize) -> (r: Result<(), JobError>)
        ensures
            Jobs::brought(old(self)@, id, final(self)@, r),
    {
        if id == 0 {
            return Ok(());
        }
        if self.contains(0) {
            return Err(JobError::ForegroundBusy);
        }
        let mut p = match self.pull(id) {
            Some(p) => p,
            None => {
                assert(self@ =~= old(self)@);
                return Err(JobError::NotFound);
            },
        };
        if p.suspended() {
            match p.restart() {
                Ok(_) => {},
                Err(e) => {
                    return Err(e);
                },
            }
        }
        self.put(0, p);
        Ok(())
    }

    /// A foreground process that is stopped is not lost. Whatever the table
    /// held, the process then stands under the smallest id from 1 on that
    /// was free, marked suspended, with its process id; the foreground slot
    /// is empty; every other job is as it was; and the result names the
    /// status and that id.
    pub proof fn law_stopped_foreground_is_kept(
        before: Map<nat, Process>,
        status: Status,
        after: Map<nat, Process>,
        r: Result<Waited, JobError>,
        id: nat,
    )
        requires
            before.contains_key(0),
            status.spec_stopped(),
            Jobs::settled(before, status, after, r),
            smallest_free(before, id),
        ensures
            id <= usize::MAX,
            r == Ok::<Waited, JobError>(
                Waited {
                    status: Some(status),
                    notice: Some(Notice::Suspended(id as usize, before[0].pid)),
                },
            ),
            !after.contains_key(0),
            after.contains_key(id),
            after[id] == (Process { pid: before[0].pid, suspended: true }),
            forall|k: nat|
                k != 0 && k != id ==> after.contains_key(k) == before.contains_key(k)
                    && (after.contains_key(k) ==> after[k] == before[k]),
    {
        let w = choose|w: usize| Jobs::moved_back(before, status, after, r, w);
        assert(w as nat == id) by {
            if (w as nat) < id {
                assert(before.contains_key(w as nat));
            } else if id < w as nat {
                assert(before.contains_key(id));
            }
        }
    }

    /// A job that a stop sent from the foreground to the background comes
    /// back: bringing it to the foreground, where that succeeds, puts the
    /// same process in slot 0, running, and frees its id.
    pub proof fn law_stopped_job_returns(
        before: Map<nat, Process>,
        status: Status,
        middle: Map<nat, Process>,
        r: Result<Waited, JobError>,
        id: usize,
        after: Map<nat, Process>,
    )
        requires
            before.contains_key(0),
            status.spec_stopped(),
            Jobs::settled(before, status, middle, r),
            smallest_free(before, id as nat),
            Jobs::brought(middle, id, after, Ok(())),
        ensures
            after.contains_key(0),
            after[0] == (Process { pid: before[0].pid, suspended: false }),
            !after.contains_key(id as nat),
            forall|k: nat|
                k != 0 && k != id ==> after.contains_key(k) == before.contains_key(k)
                    && (after.contains_key(k) ==> after[k] == before[k]),
    {
        Jobs::law_stopped_foreground_is_kept(before, status, middle, r, id as nat);
    }

    /// Counts the processes that stand under `id`. There is never more
    /// than one: in particular the foreground slot holds at most one
    /// process, whatever was done to the table.
    pub fn occupancy(&self, id: usize) -> (r: usize)
        ensures
            r == self.occupants(id as nat),
            r <= 1,
            r == 1 <==> self@.contains_key(id as nat),
    {
        if self.contains(id) {
            1
        } else {
            0
        }
    }
}

} // verus!
