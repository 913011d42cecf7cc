//! A memory-pressure guardian: classifies memory pressure, ranks the processes
//! that hold the most memory, and decides which of them to suspend or kill.
pub mod inference;
pub mod call_log;
pub mod host;
pub mod process;
pub mod memory;
pub mod watchdog;
pub mod menu;
pub mod laws;
