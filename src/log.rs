//! Log lines for the Android system log: their priorities, and the message
//! that each of the short logging calls produces.

use vstd::prelude::*;

verus! {

/// Priority of a line in the Android system log.
#[derive(Copy, Clone, Debug, PartialEq, Eq, Structural, Hash)]
pub enum LogPriority {
    Unknown,
    Verbose,
    Debug,
    Info,
    Warn,
    Error,
}

impl LogPriority {
    /// The priority's value in the Android logging interface.
    pub open spec fn spec_code(self) -> i32 {
        match self {
            LogPriority::Unknown => 0i32,
            LogPriority::Verbose => 2i32,
            LogPriority::Debug => 3i32,
            LogPriority::Info => 4i32,
            LogPriority::Warn => 5i32,
            LogPriority::Error => 6i32,
        }
    }

    /// The priority's value in the Android logging interface.
    pub fn code(&self) -> (r: i32)
        ensures
            r == self.spec_code(),
    {
        match self {
            LogPriority::Unknown => 0,
            LogPriority::Verbose => 2,
            LogPriority::Debug => 3,
            LogPriority::Info => 4,
            LogPriority::Warn => 5,
            LogPriority::Error => 6,
        }
    }
}

/// Severity of a record handed to a logger, from most to least severe.
#[derive(Copy, Clone, Debug, PartialEq, Eq, Structural, Hash)]
pub enum Level {
    Error,
    Warn,
    Info,
    Debug,
    Trace,
}

/// The system-log priority under which a record of severity `level` is written.
pub fn priority_for_level(level: Level) -> (r: LogPriority)
    ensures
        level == Level::Error ==> r == LogPriority::Error,
        level == Level::Warn ==> r == LogPriority::Warn,
        level == Level::Info ==> r == LogPriority::Info,
        level == Level::Debug ==> r == LogPriority::Debug,
        level == Level::Trace ==> r == LogPriority::Verbose,
{
    match level {
        Level::Error => LogPriority::Error,
        Level::Warn => LogPriority::Warn,
        Level::Info => LogPriority::Info,
        Level::Debug => LogPriority::Debug,
        Level::Trace => LogPriority::Verbose,
    }
}

/// One line for the system log: its priority, tag and text.
pub struct LogMessage {
    pub priority: LogPriority,
    pub tag: String,
    pub msg: String,
}

/// The line that logs `msg` under `tag` with `priority`.
pub fn message(priority: LogPriority, tag: &str, msg: &str) -> (r: LogMessage)
    ensures
        r.priority == priority,
        r.tag@ == tag@,
        r.msg@ == msg@,
{
    LogMessage { priority, tag: tag.to_owned(), msg: msg.to_owned() }
}

/// The line for the verbose call; it is written with the unknown priority.
pub fn v(tag: &str, msg: &str) -> (r: LogMessage)
    ensures
        r.priority == LogPriority::Unknown,
        r.tag@ == tag@,
        r.msg@ == msg@,
{
    message(LogPriority::Unknown, tag, msg)
}

/// The line for the debug call.
pub fn d(tag: &str, msg: &str) -> (r: LogMessage)
    ensures
        r.priority == LogPriority::Debug,
        r.tag@ == tag@,
        r.msg@ == msg@,
{
    message(LogPriority::Debug, tag, msg)
}

/// The line for the info call.
pub fn i(tag: &str, msg: &str) -> (r: LogMessage)
    ensures
        r.priority == LogPriority::Info,
        r.tag@ == tag@,
        r.msg@ == msg@,
{
    message(LogPriority::Info, tag, msg)
}

/// The line for the warning call.
pub fn w(tag: &str, msg: &str) -> (r: LogMessage)
    ensures
        r.priority == LogPriority::Warn,
        r.tag@ == tag@,
        r.msg@ == msg@,
{
    message(LogPriority::Warn, tag, msg)
}

/// The line for the error call.
pub fn e(tag: &str, msg: &str) -> (r: LogMessage)
    ensures
        r.priority == LogPriority::Error,
        r.tag@ == tag@,
        r.msg@ == msg@,
{
    message(LogPriority::Error, tag, msg)
}

} // verus!
