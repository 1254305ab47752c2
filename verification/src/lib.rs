//! Rule-driven resource monitoring engine.
//!
//! An operator declares rules: named lists of checks against host resources
//! (today: disk space), each check naming a target mount point, a check mode
//! (free space remaining vs. used space consumed) and a limit such as
//! `"200MB"` or `"20%"`. The engine parses the limits, decides pass/fail for
//! each check against a measured snapshot, aggregates the failures of a rule
//! into human-readable records, and plans one notification per configured
//! alert channel. Reading rule files, querying the operating system and
//! delivering alerts are left to the surrounding program; the engine works
//! on plain values and is verified.

pub mod units;
pub mod threshold;
pub mod text;
pub mod checker;
pub mod log;
pub mod rules;
pub mod config;
pub mod alerts;
pub mod evaluator;
