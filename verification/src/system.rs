//! The platform-backed process capability, resting on the `sysinfo` crate.
//!
//! A [`SystemProcessTable`] takes a full snapshot of the live OS process
//! table on every `list_processes` call — never a cached one — and sends a
//! termination signal on `terminate`. Only the three calls into `sysinfo`
//! are trusted; the bookkeeping around them is verified.

use vstd::prelude::*;
use crate::process::{ProcessControl, ProcessRecord};

verus! {

#[verifier::external_type_specification]
#[verifier::external_body]
pub struct ExSystem(sysinfo::System);

/// Relies on `sysinfo::System::new_all`: a snapshot of the whole current
/// process table, loaded at call time.
#[verifier::external_body]
fn snapshot_system() -> sysinfo::System {
    sysinfo::System::new_all()
}

/// Relies on `sysinfo::System::processes`, `sysinfo::Process::name` and
/// `sysinfo::Pid::as_u32`: one record per process of the snapshot, with
/// its identifier and its name decoded permissively. Nothing is promised
/// of the records: the table is whatever the machine held.
#[verifier::external_body]
fn system_records(sys: &sysinfo::System) -> (records: Vec<ProcessRecord>) {
    let mut records = Vec::new();
    for (pid, process) in sys.processes() {
        records.push(
            ProcessRecord { pid: pid.as_u32(), name: process.name().to_string_lossy().into_owned() },
        );
    }
    records
}

/// Relies on `sysinfo::System::process` and `sysinfo::Process::kill`:
/// looks the identifier up in the snapshot and sends it a termination
/// signal. `true` means the signal was sent, not that the process exited;
/// an identifier no longer in the table yields `false`. Nothing is
/// promised of the result: delivery is up to the OS.
#[verifier::external_body]
fn system_kill(sys: &sysinfo::System, pid: u32) -> (delivered: bool) {
    match sys.process(sysinfo::Pid::from_u32(pid)) {
        Some(process) => process.kill(),
        None => false,
    }
}

/// The live OS process table, as a [`ProcessControl`] capability.
pub struct SystemProcessTable {
    sys: sysinfo::System,
    requests_log: Ghost<Seq<u32>>,
}

impl SystemProcessTable {
    /// A capability over the live process table, with no termination
    /// request issued yet.
    pub fn new() -> (control: SystemProcessTable)
        ensures
            control.requests() == Seq::<u32>::empty(),
    {
        SystemProcessTable { sys: snapshot_system(), requests_log: Ghost(Seq::empty()) }
    }
}

impl ProcessControl for SystemProcessTable {
    closed spec fn requests(&self) -> Seq<u32> {
        self.requests_log@
    }

    fn list_processes(&mut self) -> (snapshot: Vec<ProcessRecord>) {
        self.sys = snapshot_system();
        system_records(&self.sys)
    }

    fn terminate(&mut self, pid: u32) -> (delivered: bool) {
        self.requests_log = Ghost(self.requests_log@.push(pid));
        system_kill(&self.sys, pid)
    }
}

} // verus!
