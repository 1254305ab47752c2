//! Rule definitions: what an operator declares and the evaluator reads.
//! Loading them from rule files is the surrounding program's work.

use vstd::prelude::*;

verus! {

/// One check entry of a rule: which target to measure, which mode to check
/// it under (`"free"` or `"used"`), and the limit string to hold it to.
#[derive(Clone, Debug)]
pub struct CheckEntry {
    pub disk: String,
    pub option: String,
    pub limit: String,
}

/// The configuration of one alert channel: who to tell.
#[derive(Clone, Debug)]
pub struct Alert {
    pub contacts: Vec<String>,
}

/// A declared rule: its name, the resource family it checks (`"disk"`), its
/// check entries in declaration order, and its alert channels by name.
#[derive(Clone, Debug)]
pub struct RuleConfig {
    pub name: String,
    pub description: Option<String>,
    pub rule_type: String,
    pub rules: Vec<CheckEntry>,
    pub alerts: Vec<(String, Alert)>,
}

} // verus!
