//! The process manager: keeps the safe list, ranks processes by the memory
//! they hold, builds feature vectors, and sends signals.
use vstd::prelude::*;
use vstd::set_lib::{lemma_int_range, lemma_len_subset, set_int_range};

use crate::host::{
    signalled_once, OsCall, ProcessInfo, ProcessSignal, ProcessState, ProcessTable, ProcessView,
};
use crate::inference::{
    decide, CpuLoad, DecisionResult, InferenceEngine, MemoryLoad, ProcessFeatureVector,
};

verus! {

/// Processes that are never offered for suspension or termination: core
/// macOS components and the guardian itself.
pub open spec fn protected_names() -> Seq<Seq<char>> {
    seq![
        "kernel_task"@,
        "launchd"@,
        "WindowServer"@,
        "SystemUIServer"@,
        "Dock"@,
        "Finder"@,
        "loginwindow"@,
        "sysmond"@,
        "SentinelRS"@,
    ]
}

/// Is `name` on the safe list?
pub open spec fn is_protected(name: Seq<char>) -> bool {
    protected_names().contains(name)
}

/// PIDs below this are core operating-system PIDs. The list of top offenders
/// leaves out this PID as well.
pub const SYSTEM_PID_LIMIT: u32 = 100;

/// Memory (in bytes) above which a process whose name mentions "data" is
/// suspected of leaking: 50 MiB.
pub const LEAK_MEMORY_THRESHOLD: u64 = 52428800;

/// A core operating-system PID: one below [`SYSTEM_PID_LIMIT`].
pub open spec fn is_system_pid(pid: u32) -> bool {
    pid < SYSTEM_PID_LIMIT
}

/// Does `name` contain "data"?
pub open spec fn mentions_data(name: Seq<char>) -> bool {
    exists|i: int|
        0 <= i && i + 4 <= name.len() && #[trigger] name[i] == 'd' && name[i + 1] == 'a' && name[i
            + 2] == 't' && name[i + 3] == 'a'
}

/// Does `name` contain "data"?
pub fn name_mentions_data(name: &String) -> (found: bool)
    ensures
        found == mentions_data(name@),
{
    let s = name.as_str();
    let len = s.unicode_len();
    if len < 4 {
        return false;
    }
    let mut i: usize = 0;
    while i <= len - 4
        invariant
            4 <= len,
            s@ == name@,
            len == name@.len(),
            forall|j: int|
                0 <= j < i ==> !(#[trigger] name@[j] == 'd' && name@[j + 1] == 'a' && name@[j + 2]
                    == 't' && name@[j + 3] == 'a'),
        decreases len - i,
    {
        if s.get_char(i) == 'd' && s.get_char(i + 1) == 'a' && s.get_char(i + 2) == 't'
            && s.get_char(i + 3) == 'a' {
            return true;
        }
        i += 1;
    }
    false
}

/// An action chosen from the menu on one process: (PID, name).
#[derive(Debug)]
pub enum MenuAction {
    /// Suspend the process with `SIGSTOP`.
    Freeze(u32, String),
    /// Terminate the process with `SIGKILL`.
    Kill(u32, String),
}

impl MenuAction {
    /// The PID that the action targets.
    pub open spec fn pid(&self) -> u32 {
        match self {
            MenuAction::Freeze(pid, _) => *pid,
            MenuAction::Kill(pid, _) => *pid,
        }
    }

    /// The signal that the action sends.
    pub open spec fn signal(&self) -> ProcessSignal {
        match self {
            MenuAction::Freeze(..) => ProcessSignal::Stop,
            MenuAction::Kill(..) => ProcessSignal::Kill,
        }
    }
}

/// Which processes a ranking considers.
#[derive(Debug, Clone, Copy, PartialEq, Eq, Structural)]
pub enum ConsumerFilter {
    /// Processes that may be suspended or killed: not on the safe list, not a
    /// PID up to 100, and neither stopped nor a zombie.
    TopOffenders,
    /// Stopped processes that still hold memory.
    Suspended,
}

/// Does `filter` consider process `p`?
pub open spec fn admits(filter: ConsumerFilter, p: ProcessView) -> bool {
    match filter {
        ConsumerFilter::TopOffenders => !is_protected(p.name) && p.pid > SYSTEM_PID_LIMIT && p.state
            != ProcessState::Stop && p.state != ProcessState::Zombie,
        ConsumerFilter::Suspended => p.state == ProcessState::Stop && p.memory > 0,
    }
}

/// Does the ranking list the process with this PID?
pub open spec fn listed(ranked: Seq<(u32, String, u64)>, pid: u32) -> bool {
    exists|k: int| 0 <= k < ranked.len() && #[trigger] ranked[k].0 == pid
}

/// `ranked` lists, heaviest first, distinct processes of `pool` that `filter`
/// admits, each as (PID, name, memory in bytes). It holds `limit` entries
/// (every admitted process when there are fewer, or when there is no limit),
/// and no admitted process that it leaves out holds more memory than any it
/// lists. Only the order among processes of equal memory is left open.
pub open spec fn is_memory_ranking(
    pool: Map<u32, ProcessView>,
    filter: ConsumerFilter,
    limit: Option<usize>,
    ranked: Seq<(u32, String, u64)>,
) -> bool {
    &&& forall|k: int|
        #![trigger ranked[k]]
        0 <= k < ranked.len() ==> pool.contains_key(ranked[k].0) && admits(filter, pool[ranked[k].0])
            && pool[ranked[k].0].pid == ranked[k].0 && ranked[k].1@ == pool[ranked[k].0].name
            && ranked[k].2 == pool[ranked[k].0].memory
    &&& forall|k: int, l: int|
        0 <= k < l < ranked.len() ==> #[trigger] ranked[k].0 != #[trigger] ranked[l].0
    &&& forall|k: int, l: int|
        0 <= k <= l < ranked.len() ==> #[trigger] ranked[k].2 >= #[trigger] ranked[l].2
    &&& (limit matches Some(n) ==> ranked.len() <= n)
    &&& (limit matches Some(n) && ranked.len() == n) || (forall|pid: u32|
        #[trigger] pool.contains_key(pid) && admits(filter, pool[pid]) ==> listed(ranked, pid))
    &&& forall|pid: u32, k: int|
        #![trigger pool[pid], ranked[k]]
        pool.contains_key(pid) && admits(filter, pool[pid]) && !listed(ranked, pid) && 0 <= k
            < ranked.len() ==> pool[pid].memory <= ranked[k].2
}

/// No two entries of `procs` share a PID.
pub open spec fn distinct_pids(procs: Seq<ProcessInfo>) -> bool {
    forall|i: int, j: int| 0 <= i < j < procs.len() ==> #[trigger] procs[i].pid != #[trigger] procs[j].pid
}

/// The process table that a list of processes describes, keyed by PID.
pub open spec fn pool_of(procs: Seq<ProcessInfo>) -> Map<u32, ProcessView> {
    Map::new(
        |pid: u32| exists|i: int| 0 <= i < procs.len() && #[trigger] procs[i].pid == pid,
        |pid: u32| procs[choose|i: int| 0 <= i < procs.len() && #[trigger] procs[i].pid == pid]@,
    )
}

/// `procs` lists exactly the processes of `table`, each once.
pub open spec fn lists_table(procs: Seq<ProcessInfo>, table: Map<u32, ProcessView>) -> bool {
    &&& forall|i: int|
        0 <= i < procs.len() ==> #[trigger] table.contains_key(procs[i].pid) && table[procs[i].pid]
            == procs[i]@
    &&& distinct_pids(procs)
    &&& forall|pid: u32|
        #[trigger] table.contains_key(pid) ==> exists|i: int|
            0 <= i < procs.len() && #[trigger] procs[i].pid == pid
}

proof fn lemma_lists_own_pool(procs: Seq<ProcessInfo>)
    requires
        distinct_pids(procs),
    ensures
        lists_table(procs, pool_of(procs)),
{
    let pool = pool_of(procs);
    assert forall|i: int| 0 <= i < procs.len() implies #[trigger] pool.contains_key(procs[i].pid)
        && pool[procs[i].pid] == procs[i]@ by {
        let pid = procs[i].pid;
        assert(pool.contains_key(pid));
        let j = choose|j: int| 0 <= j < procs.len() && #[trigger] procs[j].pid == pid;
        assert(i == j);
    }
}

proof fn lemma_pool_is_table(procs: Seq<ProcessInfo>, table: Map<u32, ProcessView>)
    requires
        lists_table(procs, table),
    ensures
        pool_of(procs) == table,
{
    let pool = pool_of(procs);
    assert forall|pid: u32| #[trigger] pool.contains_key(pid) <==> table.contains_key(pid) by {
        if pool.contains_key(pid) {
            let i = choose|i: int| 0 <= i < procs.len() && #[trigger] procs[i].pid == pid;
            assert(table.contains_key(procs[i].pid));
        }
    }
    assert forall|pid: u32| #[trigger] pool.contains_key(pid) implies pool[pid] == table[pid] by {
        let i = choose|i: int| 0 <= i < procs.len() && #[trigger] procs[i].pid == pid;
        assert(table.contains_key(procs[i].pid));
    }
    assert(pool =~= table);
}

/// A table that a list describes has finitely many entries.
proof fn lemma_listed_table_finite(procs: Seq<ProcessInfo>, table: Map<u32, ProcessView>)
    requires
        lists_table(procs, table),
    ensures
        table.dom().finite(),
{
    let pids = Seq::new(procs.len(), |i: int| procs[i].pid);
    assert forall|pid: u32| #[trigger] table.dom().contains(pid) implies pids.to_set().contains(pid) by {
        let i = choose|i: int| 0 <= i < procs.len() && #[trigger] procs[i].pid == pid;
        assert(pids[i] == pid);
    }
    pids.to_set().lemma_len_filter(|pid: u32| table.dom().contains(pid));
    assert(table.dom() =~= pids.to_set().filter(|pid: u32| table.dom().contains(pid)));
}

/// A list of distinct indices below `n` has at most `n` entries.
proof fn lemma_distinct_indices_bounded(chosen: Seq<int>, n: int)
    requires
        0 <= n,
        chosen.no_duplicates(),
        forall|k: int| 0 <= k < chosen.len() ==> 0 <= #[trigger] chosen[k] < n,
    ensures
        chosen.len() <= n,
{
    chosen.unique_seq_to_set();
    lemma_int_range(0, n);
    assert(chosen.to_set().subset_of(set_int_range(0, n)));
    lemma_len_subset(chosen.to_set(), set_int_range(0, n));
}

/// Manages the system's processes: the safe list, the ranking of memory
/// consumers, feature extraction, decisions, and signals.
pub struct ProcessManager {
    /// The OS's process table and the log of calls that acted on it.
    table: ProcessTable,
    /// The safe list, each name once; a list, so that a lookup compares names
    /// by their characters.
    whitelist: Vec<String>,
    decision_engine: InferenceEngine,
}

impl ProcessManager {
    /// The manager's safe list holds exactly [`protected_names`].
    pub closed spec fn wf(&self) -> bool {
        &&& self.whitelist.len() == protected_names().len()
        &&& forall|i: int|
            0 <= i < self.whitelist.len() ==> #[trigger] self.whitelist[i]@ == protected_names()[i]
    }

    /// The processes that the manager's last refresh found, keyed by PID.
    pub closed spec fn processes(&self) -> Map<u32, ProcessView> {
        self.table.processes()
    }

    /// Whether the decision engine runs with model weights.
    pub closed spec fn model_loaded(&self) -> bool {
        self.decision_engine.model_loaded()
    }

    /// The refreshes and signals made so far, oldest first.
    pub closed spec fn os_calls(&self) -> Seq<OsCall> {
        self.table.calls()
    }

    /// Creates a manager with an empty process table and a decision engine;
    /// `model_present` says whether model weights were found at
    /// [`crate::inference::MODEL_PATH`].
    pub fn new(model_present: bool) -> (pm: Self)
        ensures
            pm.wf(),
            pm.model_loaded() == model_present,
            pm.processes() =~= Map::empty(),
            pm.os_calls() == Seq::<OsCall>::empty(),
    {
        let mut whitelist: Vec<String> = Vec::new();
        whitelist.push(String::from_str("kernel_task"));
        whitelist.push(String::from_str("launchd"));
        whitelist.push(String::from_str("WindowServer"));
        whitelist.push(String::from_str("SystemUIServer"));
        whitelist.push(String::from_str("Dock"));
        whitelist.push(String::from_str("Finder"));
        whitelist.push(String::from_str("loginwindow"));
        whitelist.push(String::from_str("sysmond"));
        whitelist.push(String::from_str("SentinelRS"));
        let decision_engine = InferenceEngine::load(model_present);
        ProcessManager {
            table: ProcessTable::new(),
            whitelist,
            decision_engine,
        }
    }

    /// Refreshes the process list and its memory figures from the OS: all
    /// processes, removing those found dead.
    pub fn refresh(&mut self)
        requires
            old(self).wf(),
        ensures
            final(self).wf(),
            final(self).model_loaded() == old(self).model_loaded(),
            final(self).os_calls() == old(self).os_calls().push(OsCall::RefreshAll),
    {
        self.table.refresh();
    }

    /// Is `name` on the safe list?
    pub fn is_whitelisted(&self, name: &String) -> (found: bool)
        requires
            self.wf(),
        ensures
            found == is_protected(name@),
    {
        let mut i: usize = 0;
        while i < self.whitelist.len()
            invariant
                self.wf(),
                i <= self.whitelist.len(),
                forall|j: int| 0 <= j < i ==> protected_names()[j] != name@,
            decreases self.whitelist.len() - i,
        {
            if self.whitelist[i] == *name {
                assert(protected_names()[i as int] == name@);
                return true;
            }
            i += 1;
        }
        assert forall|j: int| 0 <= j < protected_names().len() implies protected_names()[j]
            != name@ by {}
        false
    }

    fn admits_process(&self, filter: ConsumerFilter, p: &ProcessInfo) -> (ok: bool)
        requires
            self.wf(),
        ensures
            ok == admits(filter, p@),
    {
        match filter {
            ConsumerFilter::TopOffenders => {
                let stopped = match p.state {
                    ProcessState::Stop | ProcessState::Zombie => true,
                    _ => false,
                };
                !self.is_whitelisted(&p.name) && p.pid > SYSTEM_PID_LIMIT && !stopped
            },
            ConsumerFilter::Suspended => {
                let stopped = match p.state {
                    ProcessState::Stop => true,
                    _ => false,
                };
                stopped && p.memory > 0
            },
        }
    }

    /// Ranks the processes of `procs` that `filter` admits by the memory they
    /// hold, heaviest first, keeping at most `limit` of them.
    pub fn rank_consumers(&self, procs: &Vec<ProcessInfo>, filter: ConsumerFilter, limit: Option<
        usize,
    >) -> (ranked: Vec<(u32, String, u64)>)
        requires
            self.wf(),
            distinct_pids(procs@),
        ensures
            is_memory_ranking(pool_of(procs@), filter, limit, ranked@),
    {
        proof {
            lemma_lists_own_pool(procs@);
        }
        let ghost pool = pool_of(procs@);
        let n = procs.len();
        let mut taken: Vec<bool> = Vec::new();
        while taken.len() < n
            invariant
                taken.len() <= n,
                forall|i: int| 0 <= i < taken.len() ==> !#[trigger] taken[i],
            decreases n - taken.len(),
        {
            taken.push(false);
        }
        let mut ranked: Vec<(u32, String, u64)> = Vec::new();
        let ghost mut chosen: Seq<int> = Seq::empty();
        loop
            invariant
                self.wf(),
                n == procs.len(),
                lists_table(procs@, pool),
                taken.len() == n,
                chosen.len() == ranked.len(),
                chosen.no_duplicates(),
                forall|k: int|
                    0 <= k < chosen.len() ==> 0 <= #[trigger] chosen[k] < n && taken[chosen[k]]
                        && admits(filter, procs[chosen[k]]@) && ranked[k].0 == procs[chosen[k]].pid
                        && ranked[k].1@ == procs[chosen[k]].name@ && ranked[k].2
                        == procs[chosen[k]].memory,
                forall|i: int| 0 <= i < n && #[trigger] taken[i] ==> chosen.contains(i),
                forall|k: int, l: int|
                    0 <= k <= l < ranked.len() ==> #[trigger] ranked[k].2 >= #[trigger] ranked[l].2,
                forall|i: int, k: int|
                    #![trigger procs[i], ranked[k]]
                    0 <= i < n && !taken[i] && admits(filter, procs[i]@) && 0 <= k < ranked.len()
                        ==> procs[i].memory <= ranked[k].2,
                limit matches Some(m) ==> ranked.len() <= m,
                ranked.len() <= n,
            ensures
                taken.len() == n,
                chosen.len() == ranked.len(),
                chosen.no_duplicates(),
                forall|k: int|
                    0 <= k < chosen.len() ==> 0 <= #[trigger] chosen[k] < n && taken[chosen[k]]
                        && admits(filter, procs[chosen[k]]@) && ranked[k].0 == procs[chosen[k]].pid
                        && ranked[k].1@ == procs[chosen[k]].name@ && ranked[k].2
                        == procs[chosen[k]].memory,
                forall|i: int| 0 <= i < n && #[trigger] taken[i] ==> chosen.contains(i),
                forall|k: int, l: int|
                    0 <= k <= l < ranked.len() ==> #[trigger] ranked[k].2 >= #[trigger] ranked[l].2,
                forall|i: int, k: int|
                    #![trigger procs[i], ranked[k]]
                    0 <= i < n && !taken[i] && admits(filter, procs[i]@) && 0 <= k < ranked.len()
                        ==> procs[i].memory <= ranked[k].2,
                limit matches Some(m) ==> ranked.len() <= m,
                (limit matches Some(m) && ranked.len() == m) || forall|i: int|
                    0 <= i < n && admits(filter, procs[i]@) ==> #[trigger] taken[i],
            decreases n - ranked.len(),
        {
            if let Some(m) = limit {
                if ranked.len() >= m {
                    break;
                }
            }
            let mut best: Option<usize> = None;
            let mut i: usize = 0;
            while i < n
                invariant
                    self.wf(),
                    n == procs.len(),
                    taken.len() == n,
                    i <= n,
                    best matches Some(b) ==> b < i && !taken[b as int] && admits(
                        filter,
                        procs[b as int]@,
                    ),
                    forall|j: int|
                        #![trigger procs[j]]
                        0 <= j < i && !taken[j] && admits(filter, procs[j]@) ==> (best matches Some(b)
                            && procs[j].memory <= procs[b as int].memory),
                decreases n - i,
            {
                if !taken[i] && self.admits_process(filter, &procs[i]) {
                    let better = match best {
                        None => true,
                        Some(b) => procs[i].memory > procs[b].memory,
                    };
                    if better {
                        best = Some(i);
                    }
                }
                i += 1;
            }
            match best {
                None => {
                    break;
                },
                Some(b) => {
                    let entry = (procs[b].pid, procs[b].name.clone(), procs[b].memory);
                    proof {
                        assert(!chosen.contains(b as int));
                        lemma_distinct_indices_bounded(chosen.push(b as int), n as int);
                        assert forall|k: int| 0 <= k < ranked.len() implies ranked[k].2
                            >= procs[b as int].memory by {
                            assert(procs[b as int].memory <= ranked[k].2);
                        }
                    }
                    ranked.push(entry);
                    taken.set(b, true);
                    proof {
                        let ghost before = chosen;
                        chosen = chosen.push(b as int);
                        assert forall|i: int| 0 <= i < n && #[trigger] taken[i] implies chosen.contains(
                            i,
                        ) by {
                            if i == b {
                                assert(chosen[chosen.len() - 1] == i);
                            } else {
                                let k = choose|k: int| 0 <= k < before.len() && before[k] == i;
                                assert(chosen[k] == i);
                            }
                        }
                    }
                },
            }
        }
        proof {
            self.lemma_ranking(procs@, pool, filter, limit, ranked@, taken@, chosen);
        }
        ranked
    }

    /// Every process of the table, as plain values, each once (in no
    /// particular order).
    pub fn process_list(&self) -> (procs: Vec<ProcessInfo>)
        ensures
            lists_table(procs@, self.processes()),
            self.processes().dom().finite(),
    {
        let procs = self.table.snapshot();
        assert(distinct_pids(procs@));
        proof {
            lemma_listed_table_finite(procs@, self.processes());
        }
        procs
    }

    /// The processes that may be suspended or killed, heaviest first, at most
    /// `count` of them: safe-listed names, PIDs up to 100, stopped
    /// processes and zombies are left out.
    pub fn get_top_consumers(&self, count: usize) -> (top: Vec<(u32, String, u64)>)
        requires
            self.wf(),
        ensures
            is_memory_ranking(self.processes(), ConsumerFilter::TopOffenders, Some(count), top@),
            self.processes().dom().finite(),
    {
        let procs = self.table.snapshot();
        proof {
            lemma_pool_is_table(procs@, self.processes());
            lemma_listed_table_finite(procs@, self.processes());
        }
        self.rank_consumers(&procs, ConsumerFilter::TopOffenders, Some(count))
    }

    /// The stopped (SIGSTOP'd) processes that still hold memory, heaviest first.
    pub fn get_suspended_consumers(&self) -> (suspended: Vec<(u32, String, u64)>)
        requires
            self.wf(),
        ensures
            is_memory_ranking(self.processes(), ConsumerFilter::Suspended, None, suspended@),
            self.processes().dom().finite(),
    {
        let procs = self.table.snapshot();
        proof {
            lemma_pool_is_table(procs@, self.processes());
            lemma_listed_table_finite(procs@, self.processes());
        }
        self.rank_consumers(&procs, ConsumerFilter::Suspended, None)
    }

    /// Builds the feature vector of process `p` for the decision engine.
    /// `memory_load` and `cpu_load` are the process's memory share and CPU
    /// utilisation, already placed against the decision thresholds.
    pub fn extract_features(
        &self,
        p: &ProcessInfo,
        memory_load: MemoryLoad,
        cpu_load: CpuLoad,
    ) -> (features: ProcessFeatureVector)
        requires
            self.wf(),
        ensures
            features.memory_load == memory_load,
            features.cpu_load == cpu_load,
            features.is_whitelisted == is_protected(p.name@),
            features.is_system_pid == is_system_pid(p.pid),
            features.is_suspended == (p.state == ProcessState::Stop),
            features.has_leak_potential == (mentions_data(p.name@) && p.memory
                > LEAK_MEMORY_THRESHOLD),
    {
        let is_suspended = match p.state {
            ProcessState::Stop => true,
            _ => false,
        };
        ProcessFeatureVector {
            memory_load,
            cpu_load,
            is_whitelisted: self.is_whitelisted(&p.name),
            is_system_pid: p.pid < SYSTEM_PID_LIMIT,
            is_suspended,
            has_leak_potential: name_mentions_data(&p.name) && p.memory > LEAK_MEMORY_THRESHOLD,
        }
    }

    /// Asks the decision engine for the best action on a process.
    pub fn run_inference(&self, features: &ProcessFeatureVector) -> (result: DecisionResult)
        ensures
            (result.outcome, result.confidence_pct) == decide(self.model_loaded(), *features),
            result.suggested_action@ == crate::inference::action_label(result.outcome),
    {
        self.decision_engine.run_inference(features)
    }

    /// Sends `signal` once to process `pid` when the table holds it, and no
    /// signal otherwise.
    fn signal_process(&mut self, pid: u32, signal: ProcessSignal) -> (delivered: bool)
        requires
            old(self).wf(),
        ensures
            final(self).wf(),
            final(self).model_loaded() == old(self).model_loaded(),
            final(self).processes() == old(self).processes(),
            signalled_once(
                old(self).os_calls(),
                final(self).os_calls(),
                old(self).processes(),
                pid,
                signal,
                delivered,
            ),
    {
        self.table.signal(pid, signal)
    }

    /// Sends `SIGSTOP` to process `pid`, pausing it, when the table holds it,
    /// and no signal otherwise; reports whether the platform took the signal.
    pub fn freeze_process(&mut self, pid: u32) -> (delivered: bool)
        requires
            old(self).wf(),
        ensures
            final(self).wf(),
            final(self).model_loaded() == old(self).model_loaded(),
            final(self).processes() == old(self).processes(),
            signalled_once(
                old(self).os_calls(),
                final(self).os_calls(),
                old(self).processes(),
                pid,
                ProcessSignal::Stop,
                delivered,
            ),
    {
        self.signal_process(pid, ProcessSignal::Stop)
    }

    /// Sends `SIGCONT` to process `pid`, resuming it, when the table holds it,
    /// and no signal otherwise; reports whether the platform took the signal.
    pub fn resume_process(&mut self, pid: u32) -> (delivered: bool)
        requires
            old(self).wf(),
        ensures
            final(self).wf(),
            final(self).model_loaded() == old(self).model_loaded(),
            final(self).processes() == old(self).processes(),
            signalled_once(
                old(self).os_calls(),
                final(self).os_calls(),
                old(self).processes(),
                pid,
                ProcessSignal::Continue,
                delivered,
            ),
    {
        self.signal_process(pid, ProcessSignal::Continue)
    }

    /// Sends `SIGKILL` to process `pid`, terminating it, when the table holds
    /// it, and no signal otherwise; reports whether the platform took the signal.
    pub fn kill_process(&mut self, pid: u32) -> (delivered: bool)
        requires
            old(self).wf(),
        ensures
            final(self).wf(),
            final(self).model_loaded() == old(self).model_loaded(),
            final(self).processes() == old(self).processes(),
            signalled_once(
                old(self).os_calls(),
                final(self).os_calls(),
                old(self).processes(),
                pid,
                ProcessSignal::Kill,
                delivered,
            ),
    {
        self.signal_process(pid, ProcessSignal::Kill)
    }

    /// Carries out an action chosen from the menu: refreshes the process list
    /// first, so that the signal never goes out on a stale list, then freezes
    /// or kills the process if the refreshed list still holds it.
    pub fn perform(&mut self, action: &MenuAction) -> (delivered: bool)
        requires
            old(self).wf(),
        ensures
            final(self).wf(),
            final(self).model_loaded() == old(self).model_loaded(),
            signalled_once(
                old(self).os_calls().push(OsCall::RefreshAll),
                final(self).os_calls(),
                final(self).processes(),
                action.pid(),
                action.signal(),
                delivered,
            ),
    {
        self.refresh();
        match action {
            MenuAction::Freeze(pid, _) => self.freeze_process(*pid),
            MenuAction::Kill(pid, _) => self.kill_process(*pid),
        }
    }

    proof fn lemma_ranking(
        &self,
        procs: Seq<ProcessInfo>,
        pool: Map<u32, ProcessView>,
        filter: ConsumerFilter,
        limit: Option<usize>,
        ranked: Seq<(u32, String, u64)>,
        taken: Seq<bool>,
        chosen: Seq<int>,
    )
        requires
            lists_table(procs, pool),
            taken.len() == procs.len(),
            chosen.len() == ranked.len(),
            chosen.no_duplicates(),
            forall|k: int|
                0 <= k < chosen.len() ==> 0 <= #[trigger] chosen[k] < procs.len() && taken[chosen[k]]
                    && admits(filter, procs[chosen[k]]@) && ranked[k].0 == procs[chosen[k]].pid
                    && ranked[k].1@ == procs[chosen[k]].name@ && ranked[k].2
                    == procs[chosen[k]].memory,
            forall|i: int| 0 <= i < procs.len() && #[trigger] taken[i] ==> chosen.contains(i),
            forall|k: int, l: int|
                0 <= k <= l < ranked.len() ==> #[trigger] ranked[k].2 >= #[trigger] ranked[l].2,
            forall|i: int, k: int|
                #![trigger procs[i], ranked[k]]
                0 <= i < procs.len() && !taken[i] && admits(filter, procs[i]@) && 0 <= k
                    < ranked.len() ==> procs[i].memory <= ranked[k].2,
            limit matches Some(m) ==> ranked.len() <= m,
            (limit matches Some(m) && ranked.len() == m) || forall|i: int|
                0 <= i < procs.len() && admits(filter, procs[i]@) ==> #[trigger] taken[i],
        ensures
            is_memory_ranking(pool, filter, limit, ranked),
    {
        // entries come from the pool
        assert forall|k: int| #![trigger ranked[k]] 0 <= k < ranked.len() implies pool.contains_key(
            ranked[k].0,
        ) && admits(filter, pool[ranked[k].0]) && pool[ranked[k].0].pid == ranked[k].0
            && ranked[k].1@ == pool[ranked[k].0].name && ranked[k].2 == pool[ranked[k].0].memory by {
            let i = chosen[k];
            assert(pool.contains_key(procs[i].pid));
        }
        // distinct PIDs
        assert forall|k: int, l: int| 0 <= k < l < ranked.len() implies #[trigger] ranked[k].0
            != #[trigger] ranked[l].0 by {
            let i = chosen[k];
            let j = chosen[l];
            assert(i != j);
            if i < j {
                assert(procs[i].pid != procs[j].pid);
            } else {
                assert(procs[j].pid != procs[i].pid);
            }
        }
        // an admitted process left out is untaken
        assert forall|pid: u32|
            #[trigger] pool.contains_key(pid) && admits(filter, pool[pid]) && !listed(ranked, pid)
                implies exists|i: int|
            0 <= i < procs.len() && procs[i].pid == pid && !taken[i] && admits(filter, procs[i]@) by {
            let i = choose|i: int| 0 <= i < procs.len() && #[trigger] procs[i].pid == pid;
            if taken[i] {
                let k = choose|k: int| 0 <= k < chosen.len() && chosen[k] == i;
                assert(ranked[k].0 == pid);
            }
        }
        // completeness unless the limit was reached
        if !(limit matches Some(m) && ranked.len() == m) {
            assert forall|pid: u32| #[trigger] pool.contains_key(pid) && admits(filter, pool[pid])
                implies listed(ranked, pid) by {
                if !listed(ranked, pid) {
                    let i = choose|i: int|
                        0 <= i < procs.len() && procs[i].pid == pid && !taken[i] && admits(
                            filter,
                            procs[i]@,
                        );
                    assert(taken[i]);
                }
            }
        }
        // nothing left out is heavier
        assert forall|pid: u32, k: int|
            #![trigger pool[pid], ranked[k]]
            pool.contains_key(pid) && admits(filter, pool[pid]) && !listed(ranked, pid) && 0 <= k
                < ranked.len() implies pool[pid].memory <= ranked[k].2 by {
            let i = choose|i: int|
                0 <= i < procs.len() && procs[i].pid == pid && !taken[i] && admits(filter, procs[i]@);
            assert(procs[i].memory <= ranked[k].2);
        }
    }
}

} // verus!
