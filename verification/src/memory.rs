//! Memory pressure: the kernel's free-memory level (0 = critical, 100 = plenty
//! free), how it reads as a load percentage and a pressure band, and how often
//! the watchdog polls.
use vstd::prelude::*;

verus! {

/// The level assumed when the kernel cannot be asked: fully free.
pub const LEVEL_WHEN_UNKNOWN: u32 = 100;

/// Free-memory levels below this are critical (more than 90% in use).
pub const CRITICAL_LEVEL: u32 = 10;

/// Free-memory levels below this are under pressure (more than 80% in use).
pub const WARNING_LEVEL: u32 = 20;

/// Polling period under memory pressure, in milliseconds.
pub const FAST_POLL_MS: u64 = 500;

/// Polling period otherwise, in milliseconds.
pub const NORMAL_POLL_MS: u64 = 2000;

/// Bytes in a megabyte (MiB).
pub const BYTES_PER_MB: u64 = 1048576;

/// The memory level that a `kern.memorystatus_level` query yields: the value
/// read (taken as unsigned) when the query succeeded (status 0), nothing
/// otherwise.
pub fn memory_level_from_sysctl(status: i32, raw: i32) -> (level: Option<u32>)
    ensures
        level == (if status == 0 {
            Some(raw as u32)
        } else {
            None
        }),
{
    if status == 0 {
        Some(raw as u32)
    } else {
        None
    }
}

/// The share of memory in use, in percent, for a free-memory level.
pub open spec fn used_of(level: u32) -> u32 {
    if level >= 100 {
        0
    } else {
        (100 - level) as u32
    }
}

/// The share of memory in use, in percent: 100 minus the free level, and 0
/// when the level reads above 100.
pub fn used_percent(level: u32) -> (used: u32)
    ensures
        used == used_of(level),
        used <= 100,
{
    100u32.saturating_sub(level)
}

/// How the memory status is shown.
#[derive(Debug, Clone, Copy, PartialEq, Eq, Structural)]
pub enum PressureLevel {
    /// At least 20% free.
    Normal,
    /// 10% to 20% free.
    Warning,
    /// Less than 10% free: the panic protocol fires.
    Critical,
}

/// The pressure band of a free-memory level.
pub open spec fn pressure_of(level: u32) -> PressureLevel {
    if level < CRITICAL_LEVEL {
        PressureLevel::Critical
    } else if level < WARNING_LEVEL {
        PressureLevel::Warning
    } else {
        PressureLevel::Normal
    }
}

/// The indicator shown in the menu bar for each band.
pub open spec fn indicator_of(pressure: PressureLevel) -> Seq<char> {
    match pressure {
        PressureLevel::Critical => "🔴"@,
        PressureLevel::Warning => "🟡"@,
        PressureLevel::Normal => "🟢"@,
    }
}

impl PressureLevel {
    /// The pressure band of a free-memory level.
    pub fn of_level(level: u32) -> (pressure: Self)
        ensures
            pressure == pressure_of(level),
    {
        if level < CRITICAL_LEVEL {
            PressureLevel::Critical
        } else if level < WARNING_LEVEL {
            PressureLevel::Warning
        } else {
            PressureLevel::Normal
        }
    }

    /// The coloured indicator for the band.
    pub fn indicator(&self) -> (mark: &'static str)
        ensures
            mark@ == indicator_of(*self),
    {
        match self {
            PressureLevel::Critical => "🔴",
            PressureLevel::Warning => "🟡",
            PressureLevel::Normal => "🟢",
        }
    }
}

/// How long the watchdog waits before the next poll.
pub open spec fn poll_interval_of(level: u32) -> u64 {
    if level < WARNING_LEVEL {
        FAST_POLL_MS
    } else {
        NORMAL_POLL_MS
    }
}

/// How long the watchdog waits before the next poll, in milliseconds: 500
/// under pressure (less than 20% free), 2000 otherwise.
pub fn poll_interval_ms(level: u32) -> (ms: u64)
    ensures
        ms == poll_interval_of(level),
{
    if level < WARNING_LEVEL {
        FAST_POLL_MS
    } else {
        NORMAL_POLL_MS
    }
}

/// Whole megabytes (MiB) in a byte count, rounded down.
pub fn megabytes(bytes: u64) -> (mb: u64)
    ensures
        mb == bytes / BYTES_PER_MB,
{
    bytes / BYTES_PER_MB
}

} // verus!
