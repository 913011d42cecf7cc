use sentinel_rs::host::{ProcessInfo, ProcessState};
use sentinel_rs::inference::{CpuLoad, DecisionOutcome, MemoryLoad};
use sentinel_rs::process::{
    name_mentions_data, ConsumerFilter, MenuAction, ProcessManager,
};

fn proc_info(pid: u32, name: &str, memory: u64, state: ProcessState) -> ProcessInfo {
    ProcessInfo { pid, name: name.to_string(), memory, state }
}

fn sample() -> Vec<ProcessInfo> {
    vec![
        proc_info(501, "Safari", 800, ProcessState::Run),
        proc_info(502, "WindowServer", 5000, ProcessState::Run),
        proc_info(50, "syslogd", 4000, ProcessState::Sleep),
        proc_info(503, "frozen", 3000, ProcessState::Stop),
        proc_info(504, "zombie", 2500, ProcessState::Zombie),
        proc_info(505, "Xcode", 1200, ProcessState::Sleep),
        proc_info(506, "Slack", 900, ProcessState::Idle),
        proc_info(507, "idle-stopped", 0, ProcessState::Stop),
        proc_info(508, "Mail", 1200, ProcessState::Run),
        proc_info(101, "edge", 100, ProcessState::Run),
        proc_info(100, "edge-system", 10_000, ProcessState::Run),
    ]
}

#[test]
fn safe_list_holds_core_components() {
    let pm = ProcessManager::new(false);
    for name in [
        "kernel_task",
        "launchd",
        "WindowServer",
        "SystemUIServer",
        "Dock",
        "Finder",
        "loginwindow",
        "sysmond",
        "SentinelRS",
    ] {
        assert!(pm.is_whitelisted(&name.to_string()), "{}", name);
    }
    assert!(!pm.is_whitelisted(&"Safari".to_string()));
    assert!(!pm.is_whitelisted(&"finder".to_string()));
}

#[test]
fn top_offenders_skip_protected_system_stopped_and_zombies() {
    let pm = ProcessManager::new(false);
    let ranked = pm.rank_consumers(&sample(), ConsumerFilter::TopOffenders, Some(10));
    let pids: Vec<u32> = ranked.iter().map(|e| e.0).collect();
    assert_eq!(ranked.len(), 5);
    assert_eq!(&pids[2..], &[506, 501, 101]);
    // Xcode and Mail tie at 1200: either may come first.
    assert!(pids[..2] == [505, 508] || pids[..2] == [508, 505]);
    assert_eq!(ranked[4], (101, "edge".to_string(), 100));
}

#[test]
fn top_offenders_respect_the_limit() {
    let pm = ProcessManager::new(false);
    let ranked = pm.rank_consumers(&sample(), ConsumerFilter::TopOffenders, Some(3));
    assert_eq!(ranked.len(), 3);
    assert_eq!(ranked[2], (506, "Slack".to_string(), 900));
    assert_eq!(ranked[0].2, 1200);
    assert_eq!(ranked[1].2, 1200);
    let none = pm.rank_consumers(&sample(), ConsumerFilter::TopOffenders, Some(0));
    assert!(none.is_empty());
}

#[test]
fn suspended_consumers_are_stopped_and_hold_memory() {
    let pm = ProcessManager::new(false);
    let ranked = pm.rank_consumers(&sample(), ConsumerFilter::Suspended, None);
    assert_eq!(ranked, vec![(503, "frozen".to_string(), 3000)]);
}

#[test]
fn suspended_consumers_heaviest_first() {
    let pm = ProcessManager::new(false);
    let procs = vec![
        proc_info(700, "a", 10, ProcessState::Stop),
        proc_info(701, "b", 30, ProcessState::Stop),
        proc_info(702, "c", 20, ProcessState::Stop),
        proc_info(703, "kernel_task", 40, ProcessState::Stop),
    ];
    let ranked = pm.rank_consumers(&procs, ConsumerFilter::Suspended, None);
    let pids: Vec<u32> = ranked.iter().map(|e| e.0).collect();
    assert_eq!(pids, vec![703, 701, 702, 700]);
}

#[test]
fn empty_table_ranks_nothing() {
    let pm = ProcessManager::new(false);
    assert!(pm.get_top_consumers(5).is_empty());
    assert!(pm.get_suspended_consumers().is_empty());
}

#[test]
fn unknown_pid_receives_no_signal() {
    let mut pm = ProcessManager::new(false);
    assert!(!pm.freeze_process(4242));
    assert!(!pm.resume_process(4242));
    assert!(!pm.kill_process(4242));
}

#[test]
fn refreshed_table_lists_running_processes() {
    let mut pm = ProcessManager::new(false);
    assert!(pm.process_list().is_empty());
    pm.refresh();
    let all = pm.process_list();
    assert!(!all.is_empty());
    for (i, p) in all.iter().enumerate() {
        for q in &all[i + 1..] {
            assert_ne!(p.pid, q.pid);
        }
    }
    // a running process accepts SIGCONT without harm
    assert!(pm.resume_process(all[0].pid));
    let top = pm.get_top_consumers(usize::MAX);
    for w in top.windows(2) {
        assert!(w[0].2 >= w[1].2);
    }
    for (pid, name, _) in &top {
        assert!(*pid > 100);
        assert!(!pm.is_whitelisted(name));
    }
    let five = pm.get_top_consumers(5);
    assert_eq!(five.len(), top.len().min(5));
    if !top.is_empty() {
        assert_eq!(five[0].2, top[0].2);
    }
}

#[test]
fn menu_action_refreshes_before_signalling() {
    let mut pm = ProcessManager::new(false);
    // the table is empty until the action refreshes it; PID 4_000_000 exceeds Linux's pid_max
    assert!(!pm.perform(&MenuAction::Freeze(4_000_000, "ghost".to_string())));
    assert!(!pm.process_list().is_empty());
}

#[test]
fn data_in_name_is_found() {
    assert!(name_mentions_data(&"data".to_string()));
    assert!(name_mentions_data(&"bigdata-worker".to_string()));
    assert!(name_mentions_data(&"my metadata".to_string()));
    assert!(!name_mentions_data(&"dat".to_string()));
    assert!(!name_mentions_data(&"Data".to_string()));
    assert!(!name_mentions_data(&"d a t a".to_string()));
    assert!(name_mentions_data(&"ñdata".to_string()));
}

#[test]
fn features_flag_the_process() {
    let pm = ProcessManager::new(true);
    let p = proc_info(90, "datad", 60 * 1024 * 1024, ProcessState::Stop);
    let f = pm.extract_features(&p, MemoryLoad::High, CpuLoad::Idle);
    assert_eq!(f.memory_load, MemoryLoad::High);
    assert_eq!(f.cpu_load, CpuLoad::Idle);
    assert!(!f.is_whitelisted);
    assert!(f.is_system_pid);
    assert!(f.is_suspended);
    assert!(f.has_leak_potential);
    let r = pm.run_inference(&f);
    assert_eq!(r.outcome, DecisionOutcome::PredictFreeze);
    assert_eq!(r.confidence_pct, 95);

    let q = proc_info(600, "Finder", 50 * 1024 * 1024, ProcessState::Run);
    let g = pm.extract_features(&q, MemoryLoad::Light, CpuLoad::Moderate);
    assert!(g.is_whitelisted);
    assert!(!g.is_system_pid);
    assert!(!g.is_suspended);
    assert!(!g.has_leak_potential);
    let r = pm.run_inference(&g);
    assert_eq!(r.outcome, DecisionOutcome::PredictIgnore);
    assert_eq!(r.suggested_action, "IGNORE");

    let leak_at_threshold = proc_info(601, "data", 50 * 1024 * 1024, ProcessState::Run);
    let h = pm.extract_features(&leak_at_threshold, MemoryLoad::High, CpuLoad::Idle);
    assert!(!h.has_leak_potential);
}

#[test]
fn manager_without_model_falls_back() {
    let pm = ProcessManager::new(false);
    let p = proc_info(600, "Safari", 1, ProcessState::Run);
    let f = pm.extract_features(&p, MemoryLoad::Critical, CpuLoad::Saturated);
    let r = pm.run_inference(&f);
    assert_eq!(r.outcome, DecisionOutcome::HeuristicFallback);
    assert_eq!(r.suggested_action, "UNKNOWN");
    assert_eq!(r.confidence_pct, 0);
}

#[test]
fn pid_below_one_hundred_is_a_system_pid() {
    let pm = ProcessManager::new(false);
    let at_limit = proc_info(100, "worker", 1, ProcessState::Run);
    assert!(!pm.extract_features(&at_limit, MemoryLoad::Idle, CpuLoad::Idle).is_system_pid);
    let below = proc_info(99, "worker", 1, ProcessState::Run);
    assert!(pm.extract_features(&below, MemoryLoad::Idle, CpuLoad::Idle).is_system_pid);
    // PID 100 is still left out of the top offenders
    let ranked = pm.rank_consumers(&vec![at_limit], ConsumerFilter::TopOffenders, None);
    assert!(ranked.is_empty());
}
