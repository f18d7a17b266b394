//! Local test-execution engine: decides when a build must re-run, turns the
//! results of running a candidate program into verdicts, and assembles an
//! ordered report of per-example outcomes.

pub mod config;
pub mod engine;
pub mod example;
pub mod judge;
pub mod lang;
pub mod page;
pub mod report;
pub mod staleness;
pub mod verdict;
