//! Leveled log lines. The engine only formats them; whatever sink the
//! surrounding program wires up prints them.

use vstd::prelude::*;

verus! {

enum LogTypes {
    Info,
    Warn,
    Error,
    Fail,
}

fn print_msg(t: LogTypes, msg: &str) -> (r: String)
    ensures
        r@ == match t {
            LogTypes::Info => "INFO: "@ + msg@,
            LogTypes::Warn => "WARN: "@ + msg@,
            LogTypes::Error => "ERROR: "@ + msg@,
            LogTypes::Fail => "FAIL: "@ + msg@,
        },
{
    let mut s = String::from_str(
        match t {
            LogTypes::Info => "INFO: ",
            LogTypes::Warn => "WARN: ",
            LogTypes::Error => "ERROR: ",
            LogTypes::Fail => "FAIL: ",
        },
    );
    s.append(msg);
    s
}

/// An information-level log line.
pub fn info(msg: &str) -> (r: String)
    ensures
        r@ == "INFO: "@ + msg@,
{
    print_msg(LogTypes::Info, msg)
}

/// A warning-level log line.
pub fn warn(msg: &str) -> (r: String)
    ensures
        r@ == "WARN: "@ + msg@,
{
    print_msg(LogTypes::Warn, msg)
}

/// An error-level log line.
pub fn error(msg: &str) -> (r: String)
    ensures
        r@ == "ERROR: "@ + msg@,
{
    print_msg(LogTypes::Error, msg)
}

/// A failed-check log line.
pub fn fail(msg: &str) -> (r: String)
    ensures
        r@ == "FAIL: "@ + msg@,
{
    print_msg(LogTypes::Fail, msg)
}

} // verus!
