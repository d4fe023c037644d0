use vstd::prelude::*;

verus! {

/// Severity of a terminal line; it picks the line's style.
#[derive(Clone, Copy, Debug, PartialEq, Eq, Structural)]
pub enum LogLevel {
    Info,
    Success,
    Warn,
    Error,
}

impl LogLevel {
    /// The style name of the level.
    pub open spec fn name(self) -> Seq<char> {
        match self {
            LogLevel::Info => "info"@,
            LogLevel::Success => "success"@,
            LogLevel::Warn => "warn"@,
            LogLevel::Error => "error"@,
        }
    }

    /// Returns the style name of the level.
    pub fn as_str(&self) -> (r: &'static str)
        ensures
            r@ == self.name(),
    {
        match self {
            LogLevel::Info => "info",
            LogLevel::Success => "success",
            LogLevel::Warn => "warn",
            LogLevel::Error => "error",
        }
    }
}

/// One line of terminal output.
pub struct LogEntry {
    pub level: LogLevel,
    pub message: String,
}

impl View for LogEntry {
    type V = (LogLevel, Seq<char>);

    open spec fn view(&self) -> (LogLevel, Seq<char>) {
        (self.level, self.message@)
    }
}

impl LogEntry {
    /// Builds a line from a level and a text.
    pub fn new(level: LogLevel, message: &str) -> (r: LogEntry)
        ensures
            r@ == (level, message@),
    {
        LogEntry { level, message: message.to_owned() }
    }
}

/// The lines of a terminal, as levels and texts.
pub open spec fn log_view(logs: Seq<LogEntry>) -> Seq<(LogLevel, Seq<char>)> {
    logs.map_values(|e: LogEntry| e@)
}

/// Health of one of the three sandboxed instances.
#[derive(Clone, Copy, Debug, PartialEq, Eq, Structural)]
pub enum InstanceState {
    Healthy,
    Faulty,
}

} // verus!
