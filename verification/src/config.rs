//! Process-wide settings: where the rules live and how each alert channel
//! is wired. Read once at startup by the surrounding program and handed in
//! as a value.

use vstd::prelude::*;

verus! {

/// Where the rule files are found.
#[derive(Clone, Debug)]
pub struct RulesConf {
    pub location: String,
}

/// The email channel's transport settings.
#[derive(Clone, Debug)]
pub struct AlertEmailConf {
    pub smtp: String,
    pub user: String,
    pub password: String,
    pub from_address: String,
}

/// The log-file channel's settings.
#[derive(Clone, Debug)]
pub struct AlertLoggingConf {
    pub location: String,
    pub file: String,
    pub rotation: Vec<(String, String)>,
}

/// Settings of every alert channel.
#[derive(Clone, Debug)]
pub struct AlertsConf {
    pub email: AlertEmailConf,
    pub logging: AlertLoggingConf,
}

/// The whole configuration.
#[derive(Clone, Debug)]
pub struct Config {
    pub debug: Option<bool>,
    pub rules: RulesConf,
    pub alerts: AlertsConf,
}

impl Config {
    /// Whether debug logging was asked for; unset means off.
    pub fn debug_enabled(&self) -> (r: bool)
        ensures
            r == (self.debug == Some(true)),
    {
        match self.debug {
            Some(b) => b,
            None => false,
        }
    }
}

} // verus!
