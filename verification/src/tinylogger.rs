//! A small logger: it lets records up to `Debug` through and gives each a
//! coloured tag for its level. It builds the lines; to print them, and to
//! register with a logging facade, is left to the caller.

use vstd::prelude::*;
use vstd::string::*;

verus! {

/// How serious a record is, from `Error` down to `Trace`.
#[derive(Debug, Clone, Copy, PartialEq, Eq, Structural)]
pub enum LogLevel {
    Error,
    Warn,
    Info,
    Debug,
    Trace,
}

/// The least serious level that is let through; `Off` lets nothing through.
#[derive(Debug, Clone, Copy, PartialEq, Eq, Structural)]
pub enum LogLevelFilter {
    Off,
    Error,
    Warn,
    Info,
    Debug,
    Trace,
}

impl LogLevel {
    /// The level's place in the order: 1 for `Error`, up to 5 for `Trace`.
    pub open spec fn rank(self) -> int {
        match self {
            LogLevel::Error => 1,
            LogLevel::Warn => 2,
            LogLevel::Info => 3,
            LogLevel::Debug => 4,
            LogLevel::Trace => 5,
        }
    }
}

impl LogLevelFilter {
    /// The filter's place in the order of the levels: 0 for `Off`, then as
    /// the level of the same name.
    pub open spec fn rank(self) -> int {
        match self {
            LogLevelFilter::Off => 0,
            LogLevelFilter::Error => 1,
            LogLevelFilter::Warn => 2,
            LogLevelFilter::Info => 3,
            LogLevelFilter::Debug => 4,
            LogLevelFilter::Trace => 5,
        }
    }

    /// Whether the filter lets a record of `level` through.
    pub fn allows(self, level: LogLevel) -> (b: bool)
        ensures
            b == (level.rank() <= self.rank()),
    {
        match self {
            LogLevelFilter::Off => false,
            LogLevelFilter::Error => matches!(level, LogLevel::Error),
            LogLevelFilter::Warn => matches!(level, LogLevel::Error | LogLevel::Warn),
            LogLevelFilter::Info => matches!(
                level,
                LogLevel::Error | LogLevel::Warn | LogLevel::Info
            ),
            LogLevelFilter::Debug => !matches!(level, LogLevel::Trace),
            LogLevelFilter::Trace => true,
        }
    }
}

/// The tag that goes before a record of `level`.
pub open spec fn prompt_text(level: LogLevel) -> Seq<char> {
    match level {
        LogLevel::Trace => "[TACE]"@,
        LogLevel::Debug => "\u{001b}[37m[ DBG]\u{001b}[0m"@,
        LogLevel::Info => "\u{001b}[32m[INFO]\u{001b}[0m"@,
        LogLevel::Warn => "\u{001b}[33m[WARN]\u{001b}[0m"@,
        LogLevel::Error => "\u{001b}[31m[ ERR]\u{001b}[0m"@,
    }
}

/// The tag that goes before a record of `level`.
pub fn prompt(level: LogLevel) -> (tag: &'static str)
    ensures
        tag@ == prompt_text(level),
{
    match level {
        LogLevel::Trace => "[TACE]",
        LogLevel::Debug => "\u{001b}[37m[ DBG]\u{001b}[0m",
        LogLevel::Info => "\u{001b}[32m[INFO]\u{001b}[0m",
        LogLevel::Warn => "\u{001b}[33m[WARN]\u{001b}[0m",
        LogLevel::Error => "\u{001b}[31m[ ERR]\u{001b}[0m",
    }
}

/// The logger, with the filter it was set up with.
#[derive(Debug, Clone, Copy, PartialEq, Eq)]
pub struct TinyLogger {
    max_level: LogLevelFilter,
}

impl TinyLogger {
    /// The filter that the logger asks a logging facade to apply before it
    /// hands a record on.
    pub closed spec fn filter(&self) -> LogLevelFilter {
        self.max_level
    }

    /// Whether the logger itself takes a record of `level`: it takes
    /// everything but `Trace`, whatever its filter.
    pub open spec fn takes(level: LogLevel) -> bool {
        level.rank() <= LogLevel::Debug.rank()
    }

    /// The filter that the logger was set up with.
    pub fn max_level(&self) -> (filter: LogLevelFilter)
        ensures
            filter == self.filter(),
    {
        self.max_level
    }

    /// Whether a record of `level` would be logged.
    pub fn enabled(&self, level: LogLevel) -> (b: bool)
        ensures
            b == Self::takes(level),
    {
        LogLevelFilter::Debug.allows(level)
    }

    /// The line to print for a record: its tag, a space, the message. `None`
    /// where the record is not taken.
    pub fn log(&self, level: LogLevel, message: &str) -> (line: Option<String>)
        ensures
            line is Some == Self::takes(level),
            line matches Some(text) ==> text@ == prompt_text(level) + seq![' '] + message@,
    {
        if self.enabled(level) {
            let mut text = String::from_str(prompt(level));
            proof {
                reveal_strlit(" ");
            }
            text.append(" ");
            text.append(message);
            assert(text@ =~= prompt_text(level) + seq![' '] + message@);
            Some(text)
        } else {
            None
        }
    }
}

/// Sets up the logger with the filter `level`.
pub fn init(level: LogLevelFilter) -> (logger: TinyLogger)
    ensures
        logger.filter() == level,
{
    TinyLogger { max_level: level }
}

} // verus!
