//! The watchdog's decisions: the sliding window of memory-load samples and the
//! trend it shows, and one patrol of the process table (rank the heaviest
//! processes and, when memory is critical, freeze the heaviest of them).
//! Reading the kernel's level, notifying the user and sleeping are left to the
//! caller, which runs the loop.
use std::collections::VecDeque;
use vstd::prelude::*;
use vstd::std_specs::vecdeque::VecDequeAdditionalSpecFns;

use crate::memory::{used_of, used_percent, BYTES_PER_MB, CRITICAL_LEVEL, LEVEL_WHEN_UNKNOWN};
use crate::laws::{law_offenders_spare_protected, law_ranking_head_is_heaviest};
use crate::host::{signalled_once, OsCall, ProcessSignal};
use crate::process::{admits, is_memory_ranking, is_protected, ConsumerFilter, ProcessManager};

verus! {

/// How many load samples the trend window keeps.
pub const WINDOW_LEN: usize = 20;

/// How many processes a patrol ranks.
pub const TOP_CONSUMER_COUNT: usize = 5;

/// A change of more than this many percentage points over the window counts
/// as a trend.
pub const TREND_MARGIN: u32 = 3;

/// The direction in which memory load moves over the window.
#[derive(Debug, Clone, Copy, PartialEq, Eq, Structural)]
pub enum Trend {
    Rising,
    Falling,
    Stable,
}

/// The arrow shown for each trend.
pub open spec fn arrow_of(trend: Trend) -> Seq<char> {
    match trend {
        Trend::Rising => "↗"@,
        Trend::Falling => "↘"@,
        Trend::Stable => "→"@,
    }
}

impl Trend {
    /// The arrow shown in the menu bar.
    pub fn arrow(&self) -> (mark: &'static str)
        ensures
            mark@ == arrow_of(*self),
    {
        match self {
            Trend::Rising => "↗",
            Trend::Falling => "↘",
            Trend::Stable => "→",
        }
    }
}

/// `a - b`, or 0 when `b` exceeds `a`.
pub open spec fn minus_floor(a: u32, b: u32) -> u32 {
    if a >= b {
        (a - b) as u32
    } else {
        0
    }
}

/// The trend of a window of load samples, oldest first: rising when the
/// newest exceeds the oldest by more than the margin, falling when it is more
/// than the margin below it, stable otherwise or while fewer than 3 samples
/// are in.
pub open spec fn trend_of(window: Seq<u32>) -> Trend {
    if window.len() >= 3 {
        let oldest = window[0];
        let newest = window.last();
        if newest > oldest + TREND_MARGIN {
            Trend::Rising
        } else if newest < minus_floor(oldest, TREND_MARGIN) {
            Trend::Falling
        } else {
            Trend::Stable
        }
    } else {
        Trend::Stable
    }
}

/// The window after a new sample: the sample goes in at the end, and the
/// oldest leaves once more than [`WINDOW_LEN`] are in.
pub open spec fn slide(window: Seq<u32>, sample: u32) -> Seq<u32> {
    let grown = window.push(sample);
    if grown.len() > WINDOW_LEN {
        grown.drop_first()
    } else {
        grown
    }
}

/// The load sample that a reading records: percent in use, a failed query
/// counting as fully free.
pub open spec fn sample_of(reading: Option<u32>) -> u32 {
    used_of(
        match reading {
            Some(level) => level,
            None => LEVEL_WHEN_UNKNOWN,
        },
    )
}

/// The window after `samples` went in one by one, starting from an empty
/// window.
pub open spec fn run_window(samples: Seq<u32>) -> Seq<u32>
    decreases samples.len(),
{
    if samples.len() == 0 {
        Seq::empty()
    } else {
        slide(run_window(samples.drop_last()), samples.last())
    }
}

/// The last [`WINDOW_LEN`] samples (all of them when there are fewer).
pub open spec fn recent(samples: Seq<u32>) -> Seq<u32> {
    if samples.len() > WINDOW_LEN {
        samples.subrange(samples.len() - WINDOW_LEN, samples.len() as int)
    } else {
        samples
    }
}

/// What one observation reports: the free-memory level and the trend.
#[derive(Debug, Clone, Copy)]
pub struct StatusUpdate {
    pub level: u32,
    pub trend: Trend,
}

/// The watchdog's state: the recent memory-load samples (percent in use),
/// oldest first.
pub struct Watchdog {
    history: VecDeque<u32>,
}

impl Watchdog {
    #[verifier::type_invariant]
    spec fn inv(self) -> bool {
        &&& self.history.len() <= WINDOW_LEN
        &&& forall|i: int| 0 <= i < self.history.len() ==> #[trigger] self.history@[i] <= 100
    }

    /// The load samples in the window, oldest first.
    pub closed spec fn window(&self) -> Seq<u32> {
        self.history@
    }

    /// A watchdog with an empty window.
    pub fn new() -> (dog: Self)
        ensures
            dog.window() == Seq::<u32>::empty(),
    {
        Watchdog { history: VecDeque::new() }
    }

    /// The load samples in the window, oldest first.
    pub fn recent_loads(&self) -> (samples: Vec<u32>)
        ensures
            samples@ == self.window(),
    {
        let mut samples: Vec<u32> = Vec::new();
        let mut i: usize = 0;
        while i < self.history.len()
            invariant
                i <= self.history.len(),
                samples@ == self.history@.take(i as int),
            decreases self.history.len() - i,
        {
            samples.push(self.history[i]);
            i += 1;
            assert(samples@ =~= self.history@.take(i as int));
        }
        assert(samples@ =~= self.history@);
        samples
    }

    /// Records one reading of the kernel's free-memory level (`None` when the
    /// query failed, which counts as fully free) and reports the level and
    /// the trend over the window.
    pub fn observe(&mut self, reading: Option<u32>) -> (status: StatusUpdate)
        ensures
            status.level == (match reading {
                Some(level) => level,
                None => LEVEL_WHEN_UNKNOWN,
            }),
            final(self).window() == slide(old(self).window(), used_of(status.level)),
            final(self).window() == slide(old(self).window(), sample_of(reading)),
            status.trend == trend_of(final(self).window()),
            final(self).window().len() <= WINDOW_LEN,
            forall|i: int|
                0 <= i < final(self).window().len() ==> #[trigger] final(self).window()[i] <= 100,
    {
        proof {
            use_type_invariant(&*self);
        }
        let level = match reading {
            Some(level) => level,
            None => LEVEL_WHEN_UNKNOWN,
        };
        let used = used_percent(level);
        let mut window: VecDeque<u32> = VecDeque::new();
        std::mem::swap(&mut window, &mut self.history);
        window.push_back(used);
        if window.len() > WINDOW_LEN {
            window.pop_front();
        }
        proof {
            let grown = old(self).history@.push(used);
            assert(window@ =~= slide(old(self).history@, used));
            assert forall|j: int| 0 <= j < window@.len() implies #[trigger] window@[j] <= 100 by {
                if grown.len() > WINDOW_LEN {
                    assert(window@[j] == grown[j + 1]);
                } else {
                    assert(window@[j] == grown[j]);
                }
            }
        }
        self.history = window;
        let len = self.history.len();
        let trend = if len >= 3 {
            let oldest = self.history[0];
            let newest = self.history[len - 1];
            if newest > oldest + TREND_MARGIN {
                Trend::Rising
            } else if newest < oldest.saturating_sub(TREND_MARGIN) {
                Trend::Falling
            } else {
                Trend::Stable
            }
        } else {
            Trend::Stable
        };
        StatusUpdate { level, trend }
    }
}

/// The panic protocol's report: the process that was frozen.
#[derive(Debug)]
pub struct PanicReport {
    pub pid: u32,
    pub name: String,
    pub memory_mb: u64,
}

/// What one patrol of the process table found and did.
pub struct PatrolReport {
    /// The heaviest processes that may be acted on, heaviest first.
    pub top: Vec<(u32, String, u64)>,
    /// The process frozen by the panic protocol, if it fired and the signal went out.
    pub panic: Option<PanicReport>,
}

/// One patrol at free-memory level `level`: refreshes the process table,
/// ranks the [`TOP_CONSUMER_COUNT`] heaviest processes that may be acted on,
/// and, when memory is critical (less than 10% free), freezes the heaviest of
/// them.
pub fn patrol(pm: &mut ProcessManager, level: u32) -> (report: PatrolReport)
    requires
        old(pm).wf(),
    ensures
        final(pm).wf(),
        final(pm).model_loaded() == old(pm).model_loaded(),
        is_memory_ranking(
            final(pm).processes(),
            ConsumerFilter::TopOffenders,
            Some(TOP_CONSUMER_COUNT),
            report.top@,
        ),
        if level < CRITICAL_LEVEL && report.top.len() > 0 {
            signalled_once(
                old(pm).os_calls().push(OsCall::RefreshAll),
                final(pm).os_calls(),
                final(pm).processes(),
                report.top[0].0,
                ProcessSignal::Stop,
                report.panic is Some,
            )
        } else {
            final(pm).os_calls() == old(pm).os_calls().push(OsCall::RefreshAll) && report.panic is None
        },
        level >= CRITICAL_LEVEL ==> report.panic is None,
        report.panic matches Some(frozen) ==> {
            &&& report.top.len() > 0
            &&& frozen.pid == report.top[0].0
            &&& frozen.name@ == report.top[0].1@
            &&& frozen.memory_mb == report.top[0].2 / BYTES_PER_MB
            &&& final(pm).processes().contains_key(frozen.pid)
            &&& !is_protected(frozen.name@)
            &&& frozen.pid > 100
            &&& forall|pid: u32|
                #[trigger] final(pm).processes().contains_key(pid) && admits(
                    ConsumerFilter::TopOffenders,
                    final(pm).processes()[pid],
                ) ==> final(pm).processes()[pid].memory <= report.top[0].2
        },
{
    pm.refresh();
    let top = pm.get_top_consumers(TOP_CONSUMER_COUNT);
    let mut panic: Option<PanicReport> = None;
    if level < CRITICAL_LEVEL && top.len() > 0 {
        let pid = top[0].0;
        proof {
            law_offenders_spare_protected(pm.processes(), Some(TOP_CONSUMER_COUNT), top@);
            law_ranking_head_is_heaviest(
                pm.processes(),
                ConsumerFilter::TopOffenders,
                Some(TOP_CONSUMER_COUNT),
                top@,
            );
        }
        if pm.freeze_process(pid) {
            panic = Some(
                PanicReport { pid, name: top[0].1.clone(), memory_mb: top[0].2 / BYTES_PER_MB },
            );
        }
    }
    PatrolReport { top, panic }
}

} // verus!
