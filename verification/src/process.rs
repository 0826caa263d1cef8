//! The process controller: enumerates OS processes, matches them by exact
//! name, and requests their termination.
//!
//! Process enumeration and termination go through the [`ProcessControl`]
//! capability: the platform-backed [`SystemProcessTable`] queries the live
//! OS process table, and the fully substitutable [`SimulatedProcessTable`]
//! serves a fixed table for tests. Every capability records the
//! termination requests it issued in a specification-level sequence, which
//! is what the restart contracts count.
//!
//! Termination is fire-and-forget: a request is best-effort, nothing waits
//! for or verifies process death, and this module never spawns anything —
//! an external supervisor is expected to relaunch the daemon.

use vstd::prelude::*;
use vstd::string::StringExecFns;

verus! {

/// A read-only view of one OS process: its identifier and its name.
/// Sourced from a live snapshot taken at restart time and discarded after
/// use.
#[derive(Debug)]
pub struct ProcessRecord {
    /// The platform process identifier.
    pub pid: u32,
    /// The process name, matched by exact equality.
    pub name: String,
}

/// What one restart attempt did: how many processes of the target name the
/// snapshot held, and for how many of them the termination request was
/// delivered.
#[derive(Debug, Clone, Copy, PartialEq, Eq, Structural)]
pub struct RestartOutcome {
    /// How many processes in the snapshot had exactly the target name.
    pub matched_count: usize,
    /// For how many matches the termination request was delivered.
    /// Delivery failures are caught per process and never abort the rest.
    pub killed_count: usize,
}

/// The identifiers of the records of `snapshot` whose name is exactly
/// `target`, in snapshot order.
pub open spec fn matching_pids(snapshot: Seq<ProcessRecord>, target: Seq<char>) -> Seq<u32>
    decreases snapshot.len(),
{
    if snapshot.len() == 0 {
        Seq::empty()
    } else {
        let rest = matching_pids(snapshot.drop_last(), target);
        if snapshot.last().name@ == target {
            rest.push(snapshot.last().pid)
        } else {
            rest
        }
    }
}

/// A capability over the OS process table: take a snapshot, request a
/// termination.
///
/// `requests` is the sequence of termination requests issued so far;
/// `terminate` appends exactly one entry and `list_processes` appends
/// none, so a caller can state exactly how many requests an operation
/// issued.
pub trait ProcessControl {
    /// Every termination request issued through this capability, oldest
    /// first.
    spec fn requests(&self) -> Seq<u32>;

    /// A full snapshot of the current process table, taken at call time.
    fn list_processes(&mut self) -> (snapshot: Vec<ProcessRecord>)
        ensures
            final(self).requests() == old(self).requests(),
    ;

    /// Requests termination of the process with identifier `pid`. `true`
    /// means the request was delivered, not that the process exited.
    fn terminate(&mut self, pid: u32) -> (delivered: bool)
        ensures
            final(self).requests() == old(self).requests().push(pid),
    ;
}

/// Issues one termination request per record of `snapshot` whose name is
/// exactly `target_name`, in snapshot order, and reports the counts. Zero
/// matches is not an error: the attempt is a no-op then.
pub fn restart_in_snapshot<C: ProcessControl>(
    control: &mut C,
    snapshot: &Vec<ProcessRecord>,
    target_name: &str,
) -> (outcome: RestartOutcome)
    ensures
        final(control).requests() == old(control).requests() + matching_pids(
            snapshot@,
            target_name@,
        ),
        outcome.matched_count == matching_pids(snapshot@, target_name@).len(),
        outcome.killed_count <= outcome.matched_count,
{
    let target: String = String::from_str(target_name);
    let mut matched: usize = 0;
    let mut killed: usize = 0;
    let mut i: usize = 0;
    while i < snapshot.len()
        invariant
            i <= snapshot.len(),
            target@ == target_name@,
            control.requests() == old(control).requests() + matching_pids(
                snapshot@.take(i as int),
                target_name@,
            ),
            matched == matching_pids(snapshot@.take(i as int), target_name@).len(),
            killed <= matched <= i,
        decreases snapshot.len() - i,
    {
        let ghost prefix = snapshot@.take(i as int);
        let ghost grown = snapshot@.take(i + 1);
        proof {
            assert(grown.drop_last() =~= prefix);
            assert(grown.last() == snapshot@[i as int]);
        }
        let record = &snapshot[i];
        if record.name == target {
            let delivered = control.terminate(record.pid);
            if delivered {
                killed = killed + 1;
            }
            matched = matched + 1;
            proof {
                assert(control.requests() =~= old(control).requests() + matching_pids(
                    grown,
                    target_name@,
                ));
            }
        }
        i = i + 1;
    }
    proof {
        assert(snapshot@.take(snapshot@.len() as int) =~= snapshot@);
    }
    RestartOutcome { matched_count: matched, killed_count: killed }
}

/// Takes a full snapshot of the current process table through `control`
/// and issues one termination request per process named exactly
/// `process_name`. Exactly `matched_count` requests are issued, whatever
/// the snapshot held.
pub fn restart_process<C: ProcessControl>(control: &mut C, process_name: &str) -> (outcome:
    RestartOutcome)
    ensures
        final(control).requests().len() == old(control).requests().len()
            + outcome.matched_count,
        old(control).requests().is_prefix_of(final(control).requests()),
        outcome.killed_count <= outcome.matched_count,
{
    let snapshot = control.list_processes();
    restart_in_snapshot(control, &snapshot, process_name)
}

/// A process capability over a fixed table: every `list_processes` call
/// serves the same configured snapshot, and `terminate` records the
/// request instead of touching any OS process. This is the substitutable
/// test double for [`crate::system::SystemProcessTable`].
pub struct SimulatedProcessTable {
    table: Vec<ProcessRecord>,
    kill_requests: Vec<u32>,
    undeliverable: Vec<u32>,
}

impl SimulatedProcessTable {
    /// A capability whose process table is exactly `table`, with no
    /// termination request issued yet.
    pub fn new(table: Vec<ProcessRecord>) -> (control: SimulatedProcessTable)
        ensures
            control.requests() == Seq::<u32>::empty(),
    {
        SimulatedProcessTable { table, kill_requests: Vec::new(), undeliverable: Vec::new() }
    }

    /// Makes termination requests for `pid` fail from now on — simulating
    /// a process that cannot be killed. The request is still recorded:
    /// only its delivery fails.
    pub fn fail_termination_of(&mut self, pid: u32)
        ensures
            final(self).requests() == old(self).requests(),
    {
        self.undeliverable.push(pid);
    }

    /// The termination requests recorded so far, oldest first.
    pub fn kill_requests(&self) -> (requests: &Vec<u32>)
        ensures
            requests@ == self.requests(),
    {
        &self.kill_requests
    }
}

impl ProcessControl for SimulatedProcessTable {
    closed spec fn requests(&self) -> Seq<u32> {
        self.kill_requests@
    }

    fn list_processes(&mut self) -> (snapshot: Vec<ProcessRecord>) {
        let mut snapshot: Vec<ProcessRecord> = Vec::new();
        let mut i: usize = 0;
        while i < self.table.len()
            invariant
                i <= self.table@.len(),
                snapshot@.len() == i as int,
                forall|j: int| 0 <= j < i ==> snapshot@[j] == self.table@[j],
            decreases self.table@.len() - i,
        {
            let record = &self.table[i];
            snapshot.push(ProcessRecord { pid: record.pid, name: record.name.clone() });
            i = i + 1;
        }
        snapshot
    }

    fn terminate(&mut self, pid: u32) -> (delivered: bool) {
        self.kill_requests.push(pid);
        let mut delivered = true;
        let mut i: usize = 0;
        while i < self.undeliverable.len()
            invariant
                self.kill_requests@ == old(self).kill_requests@.push(pid),
            decreases self.undeliverable@.len() - i,
        {
            if self.undeliverable[i] == pid {
                delivered = false;
            }
            i = i + 1;
        }
        delivered
    }
}

} // verus!
