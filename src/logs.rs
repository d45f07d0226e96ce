use vstd::prelude::*;

verus! {

/// Severity of a log entry.
#[derive(Debug, Clone, Copy, PartialEq, Eq, Structural)]
pub enum LogLevel {
    Info,
    Warn,
    Error,
}

/// The lowercase name a level is written and stored under.
pub open spec fn level_name(l: LogLevel) -> Seq<char> {
    match l {
        LogLevel::Info => "info"@,
        LogLevel::Warn => "warn"@,
        LogLevel::Error => "error"@,
    }
}

impl LogLevel {
    pub fn to_string(&self) -> (r: String)
        ensures
            r@ == level_name(*self),
    {
        match self {
            LogLevel::Info => "info".to_owned(),
            LogLevel::Warn => "warn".to_owned(),
            LogLevel::Error => "error".to_owned(),
        }
    }
}

/// Filters and paging for listing log entries.
#[derive(Debug, Clone, PartialEq, Eq)]
pub struct LogQuery {
    pub level: Option<LogLevel>,
    pub module: Option<String>,
    pub limit: Option<i64>,
    pub skip: Option<i64>,
}

} // verus!
