use vstd::prelude::*;

verus! {

/// The codec library's log levels.
#[derive(Debug, Clone, Copy, PartialEq, Eq, Structural)]
pub enum AVLogLevel {
    Panic,
    Fatal,
    Error,
    Warning,
    Info,
    Verbose,
    Debug,
    Trace,
}

/// The library's number for each log level.
pub open spec fn log_level_raw(l: AVLogLevel) -> i32 {
    match l {
        AVLogLevel::Panic => 0,
        AVLogLevel::Fatal => 8,
        AVLogLevel::Error => 16,
        AVLogLevel::Warning => 24,
        AVLogLevel::Info => 32,
        AVLogLevel::Verbose => 40,
        AVLogLevel::Debug => 48,
        AVLogLevel::Trace => 56,
    }
}

/// The severity a log message is forwarded with.
#[derive(Debug, Clone, Copy, PartialEq, Eq, Structural)]
pub enum Severity {
    Error,
    Warn,
    Info,
    Debug,
    Trace,
}

/// Panics, fatal errors and errors are errors; verbose output is debug output.
pub open spec fn spec_severity(l: AVLogLevel) -> Severity {
    match l {
        AVLogLevel::Panic | AVLogLevel::Fatal | AVLogLevel::Error => Severity::Error,
        AVLogLevel::Warning => Severity::Warn,
        AVLogLevel::Info => Severity::Info,
        AVLogLevel::Verbose | AVLogLevel::Debug => Severity::Debug,
        AVLogLevel::Trace => Severity::Trace,
    }
}

impl AVLogLevel {
    pub fn raw(self) -> (r: i32)
        ensures
            r == log_level_raw(self),
    {
        match self {
            AVLogLevel::Panic => 0,
            AVLogLevel::Fatal => 8,
            AVLogLevel::Error => 16,
            AVLogLevel::Warning => 24,
            AVLogLevel::Info => 32,
            AVLogLevel::Verbose => 40,
            AVLogLevel::Debug => 48,
            AVLogLevel::Trace => 56,
        }
    }

    /// The log level with the library's number `raw`, if any.
    pub fn from_raw(raw: i32) -> (r: Option<AVLogLevel>)
        ensures
            r matches Some(l) ==> log_level_raw(l) == raw,
            r is None <==> !(0 <= raw <= 56 && raw % 8 == 0),
    {
        if raw == 0 {
            Some(AVLogLevel::Panic)
        } else if raw == 8 {
            Some(AVLogLevel::Fatal)
        } else if raw == 16 {
            Some(AVLogLevel::Error)
        } else if raw == 24 {
            Some(AVLogLevel::Warning)
        } else if raw == 32 {
            Some(AVLogLevel::Info)
        } else if raw == 40 {
            Some(AVLogLevel::Verbose)
        } else if raw == 48 {
            Some(AVLogLevel::Debug)
        } else if raw == 56 {
            Some(AVLogLevel::Trace)
        } else {
            None
        }
    }

    pub fn severity(self) -> (r: Severity)
        ensures
            r == spec_severity(self),
    {
        match self {
            AVLogLevel::Panic | AVLogLevel::Fatal | AVLogLevel::Error => Severity::Error,
            AVLogLevel::Warning => Severity::Warn,
            AVLogLevel::Info => Severity::Info,
            AVLogLevel::Verbose | AVLogLevel::Debug => Severity::Debug,
            AVLogLevel::Trace => Severity::Trace,
        }
    }
}

/// The severity for a message logged at the library's level `raw`; `None` for
/// a number that is no log level.
pub fn log_severity(raw: i32) -> (r: Option<Severity>)
    ensures
        r matches Some(sev) ==> exists|l: AVLogLevel| log_level_raw(l) == raw && spec_severity(l) == sev,
        r is None <==> !(0 <= raw <= 56 && raw % 8 == 0),
{
    match AVLogLevel::from_raw(raw) {
        Some(l) => Some(l.severity()),
        None => None,
    }
}

} // verus!
