//! Properties of the library as a whole, each proved from the specifications
//! that the functions' own contracts use.
use vstd::prelude::*;
use vstd::set_lib::lemma_len_subset;

use crate::host::{OsCall, ProcessSignal, ProcessState, ProcessView, signalled_once};
use crate::inference::{CpuLoad, MemoryLoad, decide, DecisionOutcome, ProcessFeatureVector};
use crate::menu::pids_of;
use crate::memory::{
    poll_interval_of, pressure_of, used_of, PressureLevel, FAST_POLL_MS, LEVEL_WHEN_UNKNOWN,
};
use crate::process::{
    admits, is_memory_ranking, is_protected, is_system_pid, listed, ConsumerFilter, MenuAction,
};
use crate::watchdog::{recent, run_window, sample_of, slide, trend_of, Trend, WINDOW_LEN};

verus! {

/// No process is at once a candidate for suspension or termination and a
/// suspended consumer: the two menus never list the same process.
pub proof fn law_filters_disjoint(p: ProcessView)
    ensures
        !(admits(ConsumerFilter::TopOffenders, p) && admits(ConsumerFilter::Suspended, p)),
{
}

/// A ranking of top offenders never lists a safe-listed process or a system
/// PID up to 100, nor a stopped or zombie process.
pub proof fn law_offenders_spare_protected(
    pool: Map<u32, ProcessView>,
    limit: Option<usize>,
    ranked: Seq<(u32, String, u64)>,
)
    requires
        is_memory_ranking(pool, ConsumerFilter::TopOffenders, limit, ranked),
    ensures
        forall|k: int|
            #![trigger ranked[k]]
            0 <= k < ranked.len() ==> !is_protected(ranked[k].1@) && ranked[k].0 > 100,
{
    assert forall|k: int| #![trigger ranked[k]] 0 <= k < ranked.len() implies !is_protected(
        ranked[k].1@,
    ) && ranked[k].0 > 100 by {
        assert(admits(ConsumerFilter::TopOffenders, pool[ranked[k].0]));
    }
}

/// The first entry of a ranking holds at least as much memory as any process
/// that the ranking's filter admits.
pub proof fn law_ranking_head_is_heaviest(
    pool: Map<u32, ProcessView>,
    filter: ConsumerFilter,
    limit: Option<usize>,
    ranked: Seq<(u32, String, u64)>,
)
    requires
        is_memory_ranking(pool, filter, limit, ranked),
        ranked.len() > 0,
    ensures
        forall|pid: u32|
            #[trigger] pool.contains_key(pid) && admits(filter, pool[pid]) ==> pool[pid].memory
                <= ranked[0].2,
{
    assert forall|pid: u32| #[trigger] pool.contains_key(pid) && admits(filter, pool[pid]) implies pool[pid].memory
        <= ranked[0].2 by {
        if listed(ranked, pid) {
            let k = choose|k: int| 0 <= k < ranked.len() && #[trigger] ranked[k].0 == pid;
            assert(ranked[0].2 >= ranked[k].2);
        } else {
            assert(pool[pid].memory <= ranked[0].2);
        }
    }
}

/// A ranking comes back empty only when its limit is 0 or the filter admits
/// no process at all.
pub proof fn law_empty_ranking_means_none_admitted(
    pool: Map<u32, ProcessView>,
    filter: ConsumerFilter,
    limit: Option<usize>,
    ranked: Seq<(u32, String, u64)>,
)
    requires
        is_memory_ranking(pool, filter, limit, ranked),
        ranked.len() == 0,
        limit != Some(0usize),
    ensures
        forall|pid: u32| #[trigger] pool.contains_key(pid) ==> !admits(filter, pool[pid]),
{
    assert forall|pid: u32| #[trigger] pool.contains_key(pid) implies !admits(filter, pool[pid]) by {
        if admits(filter, pool[pid]) {
            assert(listed(ranked, pid));
        }
    }
}

/// The PIDs of the processes of `pool` that `filter` admits.
pub open spec fn admitted_pids(pool: Map<u32, ProcessView>, filter: ConsumerFilter) -> Set<u32> {
    pool.dom().filter(|pid: u32| admits(filter, pool[pid]))
}

/// A ranking holds exactly as many entries as its limit, or as many as there
/// are admitted processes when there are fewer or when there is no limit.
pub proof fn law_ranking_length(
    pool: Map<u32, ProcessView>,
    filter: ConsumerFilter,
    limit: Option<usize>,
    ranked: Seq<(u32, String, u64)>,
)
    requires
        is_memory_ranking(pool, filter, limit, ranked),
        pool.dom().finite(),
    ensures
        ranked.len() == (match limit {
            Some(n) => if n < admitted_pids(pool, filter).len() {
                n as nat
            } else {
                admitted_pids(pool, filter).len()
            },
            None => admitted_pids(pool, filter).len(),
        }),
{
    let admitted = admitted_pids(pool, filter);
    pool.dom().lemma_len_filter(|pid: u32| admits(filter, pool[pid]));
    let pids = Seq::new(ranked.len(), |k: int| ranked[k].0);
    assert forall|k: int, l: int| 0 <= k < pids.len() && 0 <= l < pids.len() && k != l implies pids[k]
        != pids[l] by {
        if k < l {
            assert(ranked[k].0 != ranked[l].0);
        } else {
            assert(ranked[l].0 != ranked[k].0);
        }
    }
    assert(pids.no_duplicates());
    pids.unique_seq_to_set();
    let shown = pids.to_set();
    assert forall|pid: u32| #[trigger] shown.contains(pid) implies admitted.contains(pid) by {
        let k = choose|k: int| 0 <= k < pids.len() && pids[k] == pid;
        assert(ranked[k].0 == pid);
    }
    lemma_len_subset(shown, admitted);
    if !(limit matches Some(n) && ranked.len() == n) {
        assert forall|pid: u32| #[trigger] admitted.contains(pid) implies shown.contains(pid) by {
            assert(pool.contains_key(pid) && admits(filter, pool[pid]));
            assert(listed(ranked, pid));
            let k = choose|k: int| 0 <= k < ranked.len() && #[trigger] ranked[k].0 == pid;
            assert(pids[k] == pid);
        }
        lemma_len_subset(admitted, shown);
    }
}

/// PIDs of the first `n` entries of a ranking.
spec fn head_pids(ranked: Seq<(u32, String, u64)>, n: int) -> Seq<u32> {
    Seq::new(n as nat, |k: int| ranked[k].0)
}

/// Position `k` of one ranking holds no more memory than position `k` of any
/// other ranking of the same processes.
proof fn lemma_position_not_heavier(
    pool: Map<u32, ProcessView>,
    filter: ConsumerFilter,
    first_limit: Option<usize>,
    second_limit: Option<usize>,
    first: Seq<(u32, String, u64)>,
    second: Seq<(u32, String, u64)>,
    k: int,
)
    requires
        is_memory_ranking(pool, filter, first_limit, first),
        is_memory_ranking(pool, filter, second_limit, second),
        0 <= k < first.len(),
        k < second.len(),
    ensures
        first[k].2 <= second[k].2,
{
    if first[k].2 > second[k].2 {
        let heavy = head_pids(first, k + 1);
        let before = head_pids(second, k);
        assert forall|a: int, b: int| 0 <= a < heavy.len() && 0 <= b < heavy.len() && a != b implies heavy[a]
            != heavy[b] by {
            if a < b {
                assert(first[a].0 != first[b].0);
            } else {
                assert(first[b].0 != first[a].0);
            }
        }
        assert(heavy.no_duplicates());
        heavy.unique_seq_to_set();
        before.lemma_cardinality_of_set();
        assert forall|pid: u32| #[trigger] heavy.to_set().contains(pid) implies before.to_set().contains(
            pid,
        ) by {
            let j = choose|j: int| 0 <= j < heavy.len() && heavy[j] == pid;
            assert(first[j].0 == pid);
            assert(first[j].2 >= first[k].2);
            assert(pool.contains_key(pid) && admits(filter, pool[pid]));
            if listed(second, pid) {
                let l = choose|l: int| 0 <= l < second.len() && #[trigger] second[l].0 == pid;
                if l >= k {
                    assert(second[k].2 >= second[l].2);
                }
                assert(before[l] == pid);
            } else {
                assert(pool[pid].memory <= second[k].2);
            }
        }
        lemma_len_subset(heavy.to_set(), before.to_set());
    }
}

/// A ranking is determined except for the order among processes of equal
/// memory: any two rankings of the same processes, filter and limit have the
/// same length and show the same memory figure at every position.
pub proof fn law_ranking_unique_up_to_ties(
    pool: Map<u32, ProcessView>,
    filter: ConsumerFilter,
    limit: Option<usize>,
    first: Seq<(u32, String, u64)>,
    second: Seq<(u32, String, u64)>,
)
    requires
        is_memory_ranking(pool, filter, limit, first),
        is_memory_ranking(pool, filter, limit, second),
        pool.dom().finite(),
    ensures
        first.len() == second.len(),
        forall|k: int| 0 <= k < first.len() ==> #[trigger] first[k].2 == second[k].2,
{
    law_ranking_length(pool, filter, limit, first);
    law_ranking_length(pool, filter, limit, second);
    assert forall|k: int| 0 <= k < first.len() implies #[trigger] first[k].2 == second[k].2 by {
        lemma_position_not_heavier(pool, filter, limit, limit, first, second, k);
        lemma_position_not_heavier(pool, filter, limit, limit, second, first, k);
    }
}

/// Asking for fewer entries gives the head of the longer answer, up to the
/// order among processes of equal memory: the shorter ranking holds as many
/// entries as its count allows, and shows the same memory figure at every
/// position as the longer one.
pub proof fn law_smaller_count_is_head_up_to_ties(
    pool: Map<u32, ProcessView>,
    filter: ConsumerFilter,
    fewer: usize,
    more: usize,
    short: Seq<(u32, String, u64)>,
    long: Seq<(u32, String, u64)>,
)
    requires
        fewer <= more,
        is_memory_ranking(pool, filter, Some(fewer), short),
        is_memory_ranking(pool, filter, Some(more), long),
        pool.dom().finite(),
    ensures
        short.len() == (if (fewer as nat) < long.len() {
            fewer as nat
        } else {
            long.len()
        }),
        forall|k: int| 0 <= k < short.len() ==> #[trigger] short[k].2 == long[k].2,
{
    law_ranking_length(pool, filter, Some(fewer), short);
    law_ranking_length(pool, filter, Some(more), long);
    assert forall|k: int| 0 <= k < short.len() implies #[trigger] short[k].2 == long[k].2 by {
        lemma_position_not_heavier(pool, filter, Some(fewer), Some(more), short, long, k);
        lemma_position_not_heavier(pool, filter, Some(more), Some(fewer), long, short, k);
    }
}

/// The trend window keeps the most recent samples: after a new sample it
/// holds at most [`WINDOW_LEN`] of them, the new one last, and it is the
/// tail of the samples seen so far.
pub proof fn law_window_keeps_recent(window: Seq<u32>, sample: u32)
    requires
        window.len() <= WINDOW_LEN,
    ensures
        slide(window, sample).len() == (if window.len() < WINDOW_LEN {
            window.len() + 1
        } else {
            WINDOW_LEN as nat
        }),
        slide(window, sample).last() == sample,
        slide(window, sample) == window.push(sample).subrange(
            window.len() + 1 - slide(window, sample).len(),
            window.len() + 1int,
        ),
{
    let grown = window.push(sample);
    if grown.len() > WINDOW_LEN {
        assert(grown.drop_first() =~= grown.subrange(1, window.len() + 1int));
    } else {
        assert(grown =~= grown.subrange(0, window.len() + 1int));
    }
}

/// Over a whole run of readings fed one by one into a new watchdog, the
/// window holds the samples of the last [`WINDOW_LEN`] readings, oldest first,
/// so the trend compares the newest of them with the oldest.
pub proof fn law_trend_over_run(readings: Seq<Option<u32>>)
    ensures
        run_window(readings.map_values(|r: Option<u32>| sample_of(r))) == recent(
            readings.map_values(|r: Option<u32>| sample_of(r)),
        ),
        trend_of(run_window(readings.map_values(|r: Option<u32>| sample_of(r)))) == trend_of(
            recent(readings.map_values(|r: Option<u32>| sample_of(r))),
        ),
{
    lemma_run_window_is_recent(readings.map_values(|r: Option<u32>| sample_of(r)));
}

proof fn lemma_run_window_is_recent(samples: Seq<u32>)
    ensures
        run_window(samples) == recent(samples),
    decreases samples.len(),
{
    if samples.len() > 0 {
        let prefix = samples.drop_last();
        lemma_run_window_is_recent(prefix);
        let w = recent(prefix);
        law_window_keeps_recent(w, samples.last());
        if prefix.len() > WINDOW_LEN {
            assert(w.push(samples.last()) =~= samples.subrange(
                prefix.len() - WINDOW_LEN,
                samples.len() as int,
            ));
            assert(slide(w, samples.last()) =~= recent(samples));
        } else {
            assert(w.push(samples.last()) =~= samples);
            assert(slide(w, samples.last()) =~= recent(samples));
        }
    } else {
        assert(run_window(samples) =~= recent(samples));
    }
}

/// A window whose samples all agree shows a stable trend.
pub proof fn law_steady_load_is_stable(window: Seq<u32>)
    requires
        forall|i: int| 0 <= i < window.len() ==> #[trigger] window[i] == window[0],
    ensures
        trend_of(window) == Trend::Stable,
{
    if window.len() >= 3 {
        assert(window.last() == window[0]);
    }
}

/// The watchdog polls fast exactly when memory is not in the normal band, and
/// memory counts as critical exactly when less than 10% is free.
pub proof fn law_polling_follows_pressure(level: u32)
    ensures
        (poll_interval_of(level) == FAST_POLL_MS) <==> (pressure_of(level)
            != PressureLevel::Normal),
        (pressure_of(level) == PressureLevel::Critical) <==> level < 10,
{
}

/// Load in use and free level add up to 100 for levels up to 100; a failed
/// kernel query counts as nothing in use.
pub proof fn law_used_complements_level(level: u32)
    ensures
        level <= 100 ==> used_of(level) + level == 100,
        level > 100 ==> used_of(level) == 0,
        used_of(LEVEL_WHEN_UNKNOWN) == 0,
{
}

/// Every decision carries a confidence of at most 100 hundredths, and the
/// engine falls back to heuristics exactly when no model is loaded.
pub proof fn law_decision_bounds(model_loaded: bool, f: ProcessFeatureVector)
    ensures
        decide(model_loaded, f).1 <= 100,
        (decide(model_loaded, f).0 == DecisionOutcome::HeuristicFallback) <==> !model_loaded,
        !model_loaded ==> decide(model_loaded, f).1 == 0,
{
}

/// With model weights loaded, the decision table, outcome by outcome, over
/// the feature vector:
/// - freeze with confidence 95 exactly for a leak suspect holding more than
///   0.7 of memory;
/// - otherwise freeze with 88 exactly when memory is critical (above 0.95) or
///   CPU saturated (above 1.0), whatever the other load;
/// - kill (80) exactly for a process above 0.7 (not critical) of memory with
///   busy CPU (0.5 to 1.0) and no leak suspicion;
/// - ignore with 99 exactly for an idle process (memory below 0.2, CPU below 0.1);
/// - freeze with 78 exactly for the remaining processes above 0.5 of memory;
/// - ignore with 100 for everything else.
/// In particular a critical or saturated process is never killed.
pub proof fn law_decision_table(f: ProcessFeatureVector)
    ensures
        (decide(true, f) == (DecisionOutcome::PredictFreeze, 95u32)) <==> (f.has_leak_potential && (
        f.memory_load == MemoryLoad::High || f.memory_load == MemoryLoad::Critical)),
        (decide(true, f) == (DecisionOutcome::PredictFreeze, 88u32)) <==> (!(f.has_leak_potential
            && (f.memory_load == MemoryLoad::High || f.memory_load == MemoryLoad::Critical)) && (
        f.memory_load == MemoryLoad::Critical || f.cpu_load == CpuLoad::Saturated)),
        (decide(true, f).0 == DecisionOutcome::PredictKill) <==> (f.memory_load == MemoryLoad::High
            && f.cpu_load == CpuLoad::Busy && !f.has_leak_potential),
        decide(true, f).0 == DecisionOutcome::PredictKill ==> decide(true, f).1 == 80,
        (decide(true, f) == (DecisionOutcome::PredictIgnore, 99u32)) <==> (f.memory_load
            == MemoryLoad::Idle && f.cpu_load == CpuLoad::Idle),
        (decide(true, f) == (DecisionOutcome::PredictFreeze, 78u32)) <==> ((f.memory_load
            == MemoryLoad::Elevated && f.cpu_load != CpuLoad::Saturated) || (f.memory_load
            == MemoryLoad::High && !f.has_leak_potential && (f.cpu_load == CpuLoad::Idle
            || f.cpu_load == CpuLoad::Moderate))),
        (decide(true, f) == (DecisionOutcome::PredictIgnore, 100u32)) <==> ((f.memory_load
            == MemoryLoad::Idle || f.memory_load == MemoryLoad::Light) && f.cpu_load
            != CpuLoad::Saturated && !(f.memory_load == MemoryLoad::Idle && f.cpu_load
            == CpuLoad::Idle)),
        (f.memory_load == MemoryLoad::Critical || f.cpu_load == CpuLoad::Saturated) ==> decide(
            true,
            f,
        ).0 == DecisionOutcome::PredictFreeze,
{
}

/// A Freeze chosen from the menu suspends: when the refreshed table holds the
/// PID, the one call made after the refresh is a SIGSTOP to that PID, never a
/// SIGKILL.
pub proof fn law_menu_freeze_sends_stop(
    before: Seq<OsCall>,
    after: Seq<OsCall>,
    table: Map<u32, ProcessView>,
    pid: u32,
    name: String,
    delivered: bool,
)
    requires
        table.contains_key(pid),
        signalled_once(
            before.push(OsCall::RefreshAll),
            after,
            table,
            MenuAction::Freeze(pid, name).pid(),
            MenuAction::Freeze(pid, name).signal(),
            delivered,
        ),
    ensures
        after.last() matches OsCall::Signal { pid: to, signal, answer } && to == pid && signal
            == ProcessSignal::Stop,
        after.len() == before.len() + 2,
{
}

/// A Kill chosen from the menu terminates: when the refreshed table holds the
/// PID, the one call made after the refresh is a SIGKILL to that PID.
pub proof fn law_menu_kill_sends_kill(
    before: Seq<OsCall>,
    after: Seq<OsCall>,
    table: Map<u32, ProcessView>,
    pid: u32,
    name: String,
    delivered: bool,
)
    requires
        table.contains_key(pid),
        signalled_once(
            before.push(OsCall::RefreshAll),
            after,
            table,
            MenuAction::Kill(pid, name).pid(),
            MenuAction::Kill(pid, name).signal(),
            delivered,
        ),
    ensures
        after.last() matches OsCall::Signal { pid: to, signal, answer } && to == pid && signal
            == ProcessSignal::Kill,
        after.len() == before.len() + 2,
{
}

/// The safe list is exactly the nine core macOS components and the guardian
/// itself: a name is protected exactly when it is one of them.
pub proof fn law_safe_list_is_exactly(name: Seq<char>)
    ensures
        is_protected(name) <==> (name == "kernel_task"@ || name == "launchd"@ || name
            == "WindowServer"@ || name == "SystemUIServer"@ || name == "Dock"@ || name == "Finder"@
            || name == "loginwindow"@ || name == "sysmond"@ || name == "SentinelRS"@),
{
    reveal_strlit("kernel_task");
    reveal_strlit("launchd");
    reveal_strlit("WindowServer");
    reveal_strlit("SystemUIServer");
    reveal_strlit("Dock");
    reveal_strlit("Finder");
    reveal_strlit("loginwindow");
    reveal_strlit("sysmond");
    reveal_strlit("SentinelRS");
    let names = crate::process::protected_names();
    if is_protected(name) {
        let i = choose|i: int| 0 <= i < names.len() && names[i] == name;
        assert(i == 0 || i == 1 || i == 2 || i == 3 || i == 4 || i == 5 || i == 6 || i == 7 || i
            == 8);
    }
    if name == "kernel_task"@ { assert(names[0] == name); }
    if name == "launchd"@ { assert(names[1] == name); }
    if name == "WindowServer"@ { assert(names[2] == name); }
    if name == "SystemUIServer"@ { assert(names[3] == name); }
    if name == "Dock"@ { assert(names[4] == name); }
    if name == "Finder"@ { assert(names[5] == name); }
    if name == "loginwindow"@ { assert(names[6] == name); }
    if name == "sysmond"@ { assert(names[7] == name); }
    if name == "SentinelRS"@ { assert(names[8] == name); }
}

/// Every running process whose name is none of the nine protected names and
/// whose PID is above 100 may be acted on: the ranking of top offenders
/// considers it.
pub proof fn law_other_processes_are_candidates(p: ProcessView)
    requires
        !(p.name == "kernel_task"@ || p.name == "launchd"@ || p.name == "WindowServer"@ || p.name
            == "SystemUIServer"@ || p.name == "Dock"@ || p.name == "Finder"@ || p.name
            == "loginwindow"@ || p.name == "sysmond"@ || p.name == "SentinelRS"@),
        p.pid > 100,
        p.state != ProcessState::Stop,
        p.state != ProcessState::Zombie,
    ensures
        admits(ConsumerFilter::TopOffenders, p),
{
    law_safe_list_is_exactly(p.name);
}

/// The menu's PIDs keep every consumer, in order: one PID per entry, the
/// entry's own.
pub proof fn law_consumer_pids_keep_every_entry(consumers: Seq<(u32, String, u64)>)
    ensures
        pids_of(consumers).len() == consumers.len(),
        forall|i: int| 0 <= i < consumers.len() ==> #[trigger] pids_of(consumers)[i] == consumers[i].0,
{
}

/// The menu is rebuilt exactly when the new list differs from the one shown:
/// in length, or in the PID at some position.
pub proof fn law_rebuild_when_any_pid_differs(shown: Seq<u32>, consumers: Seq<(u32, String, u64)>)
    ensures
        (shown != pids_of(consumers)) <==> (shown.len() != consumers.len() || exists|i: int|
            0 <= i < consumers.len() && #[trigger] shown[i] != consumers[i].0),
{
    if shown.len() == consumers.len() && !(exists|i: int|
        0 <= i < consumers.len() && #[trigger] shown[i] != consumers[i].0) {
        assert(shown =~= pids_of(consumers));
    }
    if shown.len() == consumers.len() && shown == pids_of(consumers) {
        assert forall|i: int| 0 <= i < consumers.len() implies !(#[trigger] shown[i]
            != consumers[i].0) by {
            assert(pids_of(consumers)[i] == consumers[i].0);
        }
    }
}

/// Every PID below 100, PID 0 included, is a core operating-system PID, and
/// no other PID is.
pub proof fn law_system_pids_are_those_below_100(pid: u32)
    ensures
        is_system_pid(pid) <==> pid < 100,
        is_system_pid(0),
{
}

} // verus!
