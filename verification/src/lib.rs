//! Verified core of a desktop performance-tuning utility: byte-exact
//! rewriting of a game configuration file with backup and restore,
//! directory-tree size accounting, memory-reclaim arithmetic, and the
//! fixed progress schedules of the optimization workflows.
pub mod fstree;
pub mod lines;
pub mod memory;
pub mod orchestrator;
pub mod patch;
pub mod profile;
pub mod tuning;
