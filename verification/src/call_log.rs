//! The record of the calls into `sysinfo` that act on the OS: refreshes of
//! the process table and signals. Its contents are private to this module, so
//! no code elsewhere can add to it or remove from it.
use vstd::prelude::*;

use crate::host::ProcessSignal;

verus! {

/// A call into `sysinfo` that acts on the OS or on the process table.
pub enum OsCall {
    /// `System::refresh_processes` on all processes, removing dead ones.
    RefreshAll,
    /// `Process::kill_with`: `signal` to process `pid`, with the answer
    /// (`None`: the platform does not support the signal; `Some(accepted)`:
    /// whether the OS accepted it).
    Signal { pid: u32, signal: ProcessSignal, answer: Option<bool> },
}

/// The calls made so far, oldest first. It starts empty, and only the
/// wrappers that make the calls extend it, each by the one call it makes.
pub struct CallLog {
    calls: Ghost<Seq<OsCall>>,
}

impl CallLog {
    /// An empty log.
    pub fn new() -> (log: Self)
        ensures
            log.calls() == Seq::<OsCall>::empty(),
    {
        CallLog { calls: Ghost(Seq::empty()) }
    }

    /// The calls recorded so far, oldest first.
    pub closed spec fn calls(&self) -> Seq<OsCall> {
        self.calls@
    }
}

} // verus!
