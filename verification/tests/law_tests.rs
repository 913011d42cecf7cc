use sentinel_rs::host::{ProcessInfo, ProcessState};
use sentinel_rs::inference::{
    CpuLoad, DecisionOutcome, InferenceEngine, MemoryLoad, ProcessFeatureVector,
};
use sentinel_rs::memory::{poll_interval_ms, used_percent, PressureLevel};
use sentinel_rs::process::{ConsumerFilter, ProcessManager};
use sentinel_rs::watchdog::{Trend, Watchdog};

fn proc_info(pid: u32, name: &str, memory: u64, state: ProcessState) -> ProcessInfo {
    ProcessInfo { pid, name: name.to_string(), memory, state }
}

fn mixed() -> Vec<ProcessInfo> {
    vec![
        proc_info(900, "alpha", 10, ProcessState::Stop),
        proc_info(901, "beta", 20, ProcessState::Run),
        proc_info(902, "gamma", 30, ProcessState::Stop),
        proc_info(903, "delta", 5, ProcessState::Sleep),
        proc_info(904, "Dock", 99, ProcessState::Run),
    ]
}

#[test]
fn offenders_and_suspended_never_share_a_process() {
    let pm = ProcessManager::new(false);
    let top = pm.rank_consumers(&mixed(), ConsumerFilter::TopOffenders, None);
    let stopped = pm.rank_consumers(&mixed(), ConsumerFilter::Suspended, None);
    assert_eq!(top.iter().map(|e| e.0).collect::<Vec<_>>(), vec![901, 903]);
    assert_eq!(stopped.iter().map(|e| e.0).collect::<Vec<_>>(), vec![902, 900]);
}

#[test]
fn offenders_spare_the_safe_list() {
    let pm = ProcessManager::new(false);
    let top = pm.rank_consumers(&mixed(), ConsumerFilter::TopOffenders, Some(1));
    assert_eq!(top, vec![(901, "beta".to_string(), 20)]);
}

#[test]
fn ranking_head_is_the_heaviest_admitted() {
    let pm = ProcessManager::new(false);
    let procs = vec![
        proc_info(300, "a", 7, ProcessState::Run),
        proc_info(301, "b", 70, ProcessState::Run),
        proc_info(302, "c", 700, ProcessState::Run),
        proc_info(303, "d", 70, ProcessState::Run),
    ];
    let top = pm.rank_consumers(&procs, ConsumerFilter::TopOffenders, Some(1));
    assert_eq!(top, vec![(302, "c".to_string(), 700)]);
}

#[test]
fn empty_ranking_only_when_nothing_admitted() {
    let pm = ProcessManager::new(false);
    let procs = vec![
        proc_info(1, "launchd", 7, ProcessState::Run),
        proc_info(400, "Finder", 70, ProcessState::Run),
        proc_info(401, "stuck", 700, ProcessState::Zombie),
    ];
    assert!(pm.rank_consumers(&procs, ConsumerFilter::TopOffenders, Some(5)).is_empty());
    assert!(pm.rank_consumers(&procs, ConsumerFilter::Suspended, None).is_empty());
}

#[test]
fn steady_load_is_stable() {
    let mut dog = Watchdog::new();
    for _ in 0..30 {
        assert_eq!(dog.observe(Some(42)).trend, Trend::Stable);
    }
    assert_eq!(dog.recent_loads(), vec![58; 20]);
}

#[test]
fn polling_follows_pressure() {
    for level in 0..=120u32 {
        let fast = poll_interval_ms(level) == 500;
        assert_eq!(fast, PressureLevel::of_level(level) != PressureLevel::Normal);
        assert_eq!(PressureLevel::of_level(level) == PressureLevel::Critical, level < 10);
    }
}

#[test]
fn used_and_free_add_to_one_hundred() {
    for level in 0..=100u32 {
        assert_eq!(used_percent(level) + level, 100);
    }
    assert_eq!(used_percent(101), 0);
}

#[test]
fn decisions_are_bounded() {
    let memory = [
        MemoryLoad::Idle,
        MemoryLoad::Light,
        MemoryLoad::Elevated,
        MemoryLoad::High,
        MemoryLoad::Critical,
    ];
    let cpu = [CpuLoad::Idle, CpuLoad::Moderate, CpuLoad::Busy, CpuLoad::Saturated];
    for loaded in [false, true] {
        let engine = InferenceEngine::load(loaded);
        for m in memory {
            for c in cpu {
                for leak in [false, true] {
                    let f = ProcessFeatureVector {
                        memory_load: m,
                        cpu_load: c,
                        is_whitelisted: false,
                        is_system_pid: false,
                        is_suspended: false,
                        has_leak_potential: leak,
                    };
                    let r = engine.run_inference(&f);
                    assert!(r.confidence_pct <= 100);
                    assert_eq!(r.outcome == DecisionOutcome::HeuristicFallback, !loaded);
                }
            }
        }
    }
}

#[test]
fn ranking_length_is_limit_or_all_admitted() {
    let pm = ProcessManager::new(false);
    let procs: Vec<ProcessInfo> = (0..8u32)
        .map(|i| proc_info(200 + i, "worker", (i as u64) * 10, ProcessState::Run))
        .collect();
    assert_eq!(pm.rank_consumers(&procs, ConsumerFilter::TopOffenders, Some(5)).len(), 5);
    assert_eq!(pm.rank_consumers(&procs, ConsumerFilter::TopOffenders, Some(20)).len(), 8);
    assert_eq!(pm.rank_consumers(&procs, ConsumerFilter::TopOffenders, None).len(), 8);
}

#[test]
fn rankings_agree_up_to_ties() {
    let pm = ProcessManager::new(false);
    let forward = vec![
        proc_info(210, "a", 50, ProcessState::Run),
        proc_info(211, "b", 70, ProcessState::Run),
        proc_info(212, "c", 50, ProcessState::Run),
        proc_info(213, "d", 10, ProcessState::Run),
    ];
    let backward: Vec<ProcessInfo> = forward
        .iter()
        .rev()
        .map(|p| proc_info(p.pid, &p.name, p.memory, p.state))
        .collect();
    let r1 = pm.rank_consumers(&forward, ConsumerFilter::TopOffenders, Some(2));
    let r2 = pm.rank_consumers(&backward, ConsumerFilter::TopOffenders, Some(2));
    let m1: Vec<u64> = r1.iter().map(|e| e.2).collect();
    let m2: Vec<u64> = r2.iter().map(|e| e.2).collect();
    assert_eq!(m1, vec![70, 50]);
    assert_eq!(m1, m2);
}

#[test]
fn fewer_entries_are_the_head_up_to_ties() {
    let pm = ProcessManager::new(false);
    let procs = vec![
        proc_info(220, "a", 40, ProcessState::Run),
        proc_info(221, "b", 90, ProcessState::Run),
        proc_info(222, "c", 60, ProcessState::Run),
        proc_info(223, "d", 60, ProcessState::Run),
        proc_info(224, "e", 5, ProcessState::Run),
    ];
    let long = pm.rank_consumers(&procs, ConsumerFilter::TopOffenders, Some(5));
    for fewer in 0..=5usize {
        let short = pm.rank_consumers(&procs, ConsumerFilter::TopOffenders, Some(fewer));
        assert_eq!(short.len(), fewer);
        for k in 0..fewer {
            assert_eq!(short[k].2, long[k].2);
        }
    }
    assert_eq!(long.iter().map(|e| e.2).collect::<Vec<_>>(), vec![90, 60, 60, 40, 5]);
}

#[test]
fn trend_over_a_run_compares_the_last_twenty_samples() {
    let readings: Vec<Option<u32>> = (0..40u32)
        .map(|i| if i % 7 == 3 { None } else { Some((i * 13) % 101) })
        .collect();
    let mut dog = Watchdog::new();
    let mut samples: Vec<u32> = Vec::new();
    for r in &readings {
        let status = dog.observe(*r);
        samples.push(used_percent(r.unwrap_or(100)));
        let start = samples.len().saturating_sub(20);
        let recent = &samples[start..];
        assert_eq!(dog.recent_loads(), recent.to_vec());
        let expected = if recent.len() >= 3 {
            let (oldest, newest) = (recent[0], recent[recent.len() - 1]);
            if newest > oldest + 3 {
                Trend::Rising
            } else if newest < oldest.saturating_sub(3) {
                Trend::Falling
            } else {
                Trend::Stable
            }
        } else {
            Trend::Stable
        };
        assert_eq!(status.trend, expected);
    }
}
