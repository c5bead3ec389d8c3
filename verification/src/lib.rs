//! Keeps a git working copy fresh: decides from a table of last-update
//! instants whether a repository is due for an update, and steers one run of
//! the updater, from naming the repository to recording the new instant.
//!
//! The crate holds the decisions only. Whoever drives a run probes the file
//! system, reads the clock, loads and stores the table and runs the update
//! command, and hands the outcomes in as plain values.

pub mod error;
pub mod freshness;
pub mod instant;
pub mod name;
pub mod run;
pub mod table;
