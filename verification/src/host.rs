//! The operating system's process table, as `sysinfo` reports it. Everything
//! here is a trusted boundary: each item states what it assumes of `sysinfo`.
use vstd::prelude::*;
use sysinfo::{Pid, Process, ProcessStatus, ProcessesToUpdate, Signal, System};

pub use crate::call_log::{CallLog, OsCall};

verus! {

/// The scheduling state of a process, one variant per state that `sysinfo`
/// distinguishes.
#[derive(Debug, Clone, Copy, PartialEq, Eq, Structural)]
pub enum ProcessState {
    Idle,
    Run,
    Sleep,
    Stop,
    Zombie,
    Tracing,
    Dead,
    Wakekill,
    Waking,
    Parked,
    LockBlocked,
    UninterruptibleDiskSleep,
    Unknown(u32),
}

/// One process of the table, as plain values.
#[derive(Debug)]
pub struct ProcessInfo {
    pub pid: u32,
    /// The process name (invalid UTF-8 replaced by U+FFFD).
    pub name: String,
    /// Resident memory in bytes.
    pub memory: u64,
    pub state: ProcessState,
}

/// The abstract value of a [`ProcessInfo`].
pub struct ProcessView {
    pub pid: u32,
    pub name: Seq<char>,
    pub memory: u64,
    pub state: ProcessState,
}

impl View for ProcessInfo {
    type V = ProcessView;

    open spec fn view(&self) -> ProcessView {
        ProcessView { pid: self.pid, name: self.name@, memory: self.memory, state: self.state }
    }
}

/// The signals that the library sends.
#[derive(Debug, Clone, Copy, PartialEq, Eq, Structural)]
pub enum ProcessSignal {
    /// `SIGSTOP`: pause the process.
    Stop,
    /// `SIGCONT`: resume a paused process.
    Continue,
    /// `SIGKILL`: terminate the process.
    Kill,
}

/// `after` is `before` with one more call: `signal` to process `pid`, when
/// `table` holds that PID, and `delivered` says whether the platform took the
/// signal; when `table` does not hold the PID, no call was made and nothing
/// was delivered.
pub open spec fn signalled_once(
    before: Seq<OsCall>,
    after: Seq<OsCall>,
    table: Map<u32, ProcessView>,
    pid: u32,
    signal: ProcessSignal,
    delivered: bool,
) -> bool {
    if table.contains_key(pid) {
        &&& after.len() == before.len() + 1
        &&& after.drop_last() == before
        &&& after.last() matches OsCall::Signal { pid: to, signal: sent, answer }
        &&& to == pid
        &&& sent == signal
        &&& delivered == (answer is Some)
    } else {
        after == before && !delivered
    }
}

#[verifier::external_type_specification]
#[verifier::external_body]
pub struct ExSystem(System);

#[verifier::external_type_specification]
#[verifier::external_body]
pub struct ExProcess(Process);

#[verifier::external_type_specification]
#[verifier::external_body]
pub struct ExProcessStatus(ProcessStatus);

/// The processes that a `sysinfo::System` holds, keyed by PID: what its
/// `processes()` map contains, each process taken as plain values.
pub uninterp spec fn process_table(system: System) -> Map<u32, ProcessView>;

/// The PID of a `sysinfo::Process`: what `Process::pid` returns, as `u32`.
pub uninterp spec fn process_pid(process: Process) -> u32;

/// Calls `sysinfo::System::new`, which builds a system with nothing loaded:
/// its process map starts empty.
#[verifier::external_body]
fn new_system() -> (fresh: System)
    ensures
        process_table(fresh) =~= Map::empty(),
{
    System::new()
}

/// Calls `sysinfo::System::refresh_processes` once, on all processes,
/// removing dead ones, and records that call. What the table holds afterwards
/// depends on the machine: nothing is stated of it.
#[verifier::external_body]
fn refresh_all_processes(system: &mut System, log: &mut CallLog)
    ensures
        final(log).calls() == old(log).calls().push(OsCall::RefreshAll),
{
    system.refresh_processes(ProcessesToUpdate::All, true);
}

/// Converts a `sysinfo::ProcessStatus` into the library's state, variant by variant.
#[verifier::external_body]
fn state_of(status: ProcessStatus) -> ProcessState {
    match status {
        ProcessStatus::Idle => ProcessState::Idle,
        ProcessStatus::Run => ProcessState::Run,
        ProcessStatus::Sleep => ProcessState::Sleep,
        ProcessStatus::Stop => ProcessState::Stop,
        ProcessStatus::Zombie => ProcessState::Zombie,
        ProcessStatus::Tracing => ProcessState::Tracing,
        ProcessStatus::Dead => ProcessState::Dead,
        ProcessStatus::Wakekill => ProcessState::Wakekill,
        ProcessStatus::Waking => ProcessState::Waking,
        ProcessStatus::Parked => ProcessState::Parked,
        ProcessStatus::LockBlocked => ProcessState::LockBlocked,
        ProcessStatus::UninterruptibleDiskSleep => ProcessState::UninterruptibleDiskSleep,
        ProcessStatus::Unknown(code) => ProcessState::Unknown(code),
    }
}

/// Walks `sysinfo::System::processes` and hands out each process as plain
/// values. The map is keyed by each process's own PID, so every process of
/// the table comes out exactly once; the order is that of the hash map's walk
/// and is left unstated.
#[verifier::external_body]
fn process_snapshot(system: &System) -> (procs: Vec<ProcessInfo>)
    ensures
        forall|i: int|
            0 <= i < procs.len() ==> #[trigger] process_table(*system).contains_key(procs[i].pid)
                && process_table(*system)[procs[i].pid] == procs[i]@,
        forall|i: int, j: int|
            0 <= i < j < procs.len() ==> #[trigger] procs[i].pid != #[trigger] procs[j].pid,
        forall|pid: u32|
            #[trigger] process_table(*system).contains_key(pid) ==> exists|i: int|
                0 <= i < procs.len() && #[trigger] procs[i].pid == pid,
{
    system.processes().values().map(|p| ProcessInfo {
        pid: p.pid().as_u32(),
        name: p.name().to_string_lossy().into_owned(),
        memory: p.memory(),
        state: state_of(p.status()),
    }).collect()
}

/// Calls `sysinfo::System::process`, a lookup in the process map by PID: it
/// finds a process exactly when the table holds that PID, and the map is
/// keyed by each process's own PID.
#[verifier::external_body]
fn find_process(system: &System, pid: u32) -> (found: Option<&Process>)
    ensures
        found is Some <==> process_table(*system).contains_key(pid),
        found matches Some(process) ==> process_pid(*process) == pid,
{
    system.process(Pid::from_u32(pid))
}

/// Calls `sysinfo::Process::kill_with` once, handing it `signal` for
/// `process`, and records that call with its answer. `None` means the
/// platform does not support the signal; `Some(sent)` says whether the OS
/// accepted it. Both depend on the machine, so which answer comes back is not
/// stated.
#[verifier::external_body]
fn send_signal(process: &Process, signal: ProcessSignal, log: &mut CallLog) -> (answer: Option<
    bool,
>)
    ensures
        final(log).calls() == old(log).calls().push(
            OsCall::Signal { pid: process_pid(*process), signal, answer },
        ),
{
    let os_signal = match signal {
        ProcessSignal::Stop => Signal::Stop,
        ProcessSignal::Continue => Signal::Continue,
        ProcessSignal::Kill => Signal::Kill,
    };
    process.kill_with(os_signal)
}

/// The OS's process table as `sysinfo` reports it, with the log of the calls
/// that acted on it. The log grows only through this type's methods, by the
/// calls they make.
pub struct ProcessTable {
    system: System,
    log: CallLog,
}

impl ProcessTable {
    /// The processes that the last refresh found, keyed by PID.
    pub closed spec fn processes(&self) -> Map<u32, ProcessView> {
        process_table(self.system)
    }

    /// The refreshes and signals made so far, oldest first.
    pub closed spec fn calls(&self) -> Seq<OsCall> {
        self.log.calls()
    }

    /// An empty table, with no call made yet.
    pub fn new() -> (table: Self)
        ensures
            table.processes() =~= Map::empty(),
            table.calls() == Seq::<OsCall>::empty(),
    {
        ProcessTable { system: new_system(), log: CallLog::new() }
    }

    /// Re-reads all processes from the OS, removing dead ones.
    pub fn refresh(&mut self)
        ensures
            final(self).calls() == old(self).calls().push(OsCall::RefreshAll),
    {
        refresh_all_processes(&mut self.system, &mut self.log);
    }

    /// Every process of the table, as plain values, each once (in no
    /// particular order).
    pub fn snapshot(&self) -> (procs: Vec<ProcessInfo>)
        ensures
            forall|i: int|
                0 <= i < procs.len() ==> #[trigger] self.processes().contains_key(procs[i].pid)
                    && self.processes()[procs[i].pid] == procs[i]@,
            forall|i: int, j: int|
                0 <= i < j < procs.len() ==> #[trigger] procs[i].pid != #[trigger] procs[j].pid,
            forall|pid: u32|
                #[trigger] self.processes().contains_key(pid) ==> exists|i: int|
                    0 <= i < procs.len() && #[trigger] procs[i].pid == pid,
    {
        process_snapshot(&self.system)
    }

    /// Sends `signal` once to process `pid` when the table holds it, and
    /// nothing otherwise. It reports `true` when the platform took the signal
    /// (whether or not the OS accepted it).
    pub fn signal(&mut self, pid: u32, signal: ProcessSignal) -> (delivered: bool)
        ensures
            final(self).processes() == old(self).processes(),
            signalled_once(
                old(self).calls(),
                final(self).calls(),
                old(self).processes(),
                pid,
                signal,
                delivered,
            ),
    {
        match find_process(&self.system, pid) {
            Some(process) => {
                let answer = send_signal(process, signal, &mut self.log);
                assert(self.calls().drop_last() =~= old(self).calls());
                answer.is_some()
            },
            None => false,
        }
    }
}

} // verus!
