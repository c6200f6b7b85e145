//! The level that the log is filtered at.

use vstd::prelude::*;

verus! {

/// A level that log records are filtered at, from none to all.
#[derive(Clone, Copy, Debug, PartialEq, Eq)]
pub enum LogLevel {
    Off,
    Error,
    Warn,
    Info,
    Debug,
    Trace,
}

/// A character with ASCII capitals made small.
pub open spec fn ascii_lower(c: char) -> char {
    if 'A' <= c && c <= 'Z' {
        ((c as u32) + 32) as char
    } else {
        c
    }
}

/// Whether two texts are equal when ASCII case is ignored.
pub open spec fn same_ignoring_ascii_case(a: Seq<char>, b: Seq<char>) -> bool {
    a.len() == b.len() && forall|i: int| 0 <= i < a.len() ==> ascii_lower(#[trigger] a[i]) == ascii_lower(b[i])
}

/// The level that a name stands for, the case of its ASCII letters aside.
pub open spec fn level_named(text: Seq<char>) -> Option<LogLevel> {
    if same_ignoring_ascii_case(text, "OFF"@) {
        Some(LogLevel::Off)
    } else if same_ignoring_ascii_case(text, "ERROR"@) {
        Some(LogLevel::Error)
    } else if same_ignoring_ascii_case(text, "WARN"@) {
        Some(LogLevel::Warn)
    } else if same_ignoring_ascii_case(text, "INFO"@) {
        Some(LogLevel::Info)
    } else if same_ignoring_ascii_case(text, "DEBUG"@) {
        Some(LogLevel::Debug)
    } else if same_ignoring_ascii_case(text, "TRACE"@) {
        Some(LogLevel::Trace)
    } else {
        None
    }
}

/// Calls `log::LevelFilter::from_str` and tells the variants apart.
/// Claimed, as the `log` source shows: it compares the text with "OFF",
/// "ERROR", "WARN", "INFO", "DEBUG" and "TRACE" in that order, ignoring
/// ASCII case, and gives the first that matches.
#[verifier::external_body]
fn parse_level(text: &str) -> (r: Option<LogLevel>)
    ensures
        r == level_named(text@),
{
    match <log::LevelFilter as std::str::FromStr>::from_str(text) {
        Ok(log::LevelFilter::Off) => Some(LogLevel::Off),
        Ok(log::LevelFilter::Error) => Some(LogLevel::Error),
        Ok(log::LevelFilter::Warn) => Some(LogLevel::Warn),
        Ok(log::LevelFilter::Info) => Some(LogLevel::Info),
        Ok(log::LevelFilter::Debug) => Some(LogLevel::Debug),
        Ok(log::LevelFilter::Trace) => Some(LogLevel::Trace),
        Err(_) => None,
    }
}

/// The level that logging starts at, given the value of the
/// `CACHE_SERVER_LOG_LEVEL` variable when it is set: its level when it
/// names one, "ERROR" when it is not set, and no logging set up when it
/// names none.
pub fn log_level_setting(variable: Option<String>) -> (r: Option<LogLevel>)
    ensures
        match variable {
            Some(v) => r == level_named(v@),
            None => r == Some(LogLevel::Error),
        },
{
    match variable {
        Some(v) => parse_level(v.as_str()),
        None => {
            let text = "ERROR";
            proof {
                reveal_strlit("ERROR");
                reveal_strlit("OFF");
                assert(!same_ignoring_ascii_case(text@, "OFF"@));
                assert(same_ignoring_ascii_case(text@, "ERROR"@));
            }
            parse_level(text)
        },
    }
}

} // verus!
