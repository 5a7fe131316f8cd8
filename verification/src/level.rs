use crate::ascii::eq_ignore_ascii;
use crate::ascii::eq_ignore_case;
use vstd::prelude::*;

verus! {

/// An ordered severity filter for log output, from fully silent to most
/// verbose.
#[derive(Clone, Copy, Debug, PartialEq, Eq, Structural)]
pub enum LogLevel {
    Off,
    Error,
    Warn,
    Info,
    Debug,
    Trace,
}

/// The severity a level name resolves to, if it is recognized. Names
/// are matched case-insensitively against the six level names.
pub open spec fn level_of_name(s: Seq<char>) -> Option<LogLevel> {
    if eq_ignore_case(s, "OFF"@) {
        Some(LogLevel::Off)
    } else if eq_ignore_case(s, "ERROR"@) {
        Some(LogLevel::Error)
    } else if eq_ignore_case(s, "WARN"@) {
        Some(LogLevel::Warn)
    } else if eq_ignore_case(s, "INFO"@) {
        Some(LogLevel::Info)
    } else if eq_ignore_case(s, "DEBUG"@) {
        Some(LogLevel::Debug)
    } else {
        if eq_ignore_case(s, "TRACE"@) {
            Some(LogLevel::Trace)
        } else {
            None
        }
    }
}

/// What a level name resolves to under the permissive policy: a
/// recognized name gives its exact severity, anything else silently
/// falls back to the given default.
pub open spec fn resolved_level(s: Seq<char>, fallback: LogLevel) -> LogLevel {
    match level_of_name(s) {
        Some(l) => l,
        None => fallback,
    }
}

/// Resolves a human-readable level name, case-insensitively. An
/// unrecognized name is never an error: it yields `fallback`.
pub fn resolve_level(name: &str, fallback: LogLevel) -> (r: LogLevel)
    ensures
        r == resolved_level(name@, fallback),
{
    if eq_ignore_ascii(name, "OFF") {
        LogLevel::Off
    } else if eq_ignore_ascii(name, "ERROR") {
        LogLevel::Error
    } else if eq_ignore_ascii(name, "WARN") {
        LogLevel::Warn
    } else if eq_ignore_ascii(name, "INFO") {
        LogLevel::Info
    } else if eq_ignore_ascii(name, "DEBUG") {
        LogLevel::Debug
    } else if eq_ignore_ascii(name, "TRACE") {
        LogLevel::Trace
    } else {
        fallback
    }
}

} // verus!
