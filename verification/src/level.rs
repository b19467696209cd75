//! The severity vocabularies on both sides of the bridge and the maps between them.

use vstd::prelude::*;

verus! {

/// Severity of a message in the host sink's vocabulary.
///
/// The variants are declared in severity order: `Trace` is the least severe,
/// `Critical` the most. As a filter setting, `Critical` stands for "logging
/// disabled".
#[derive(Clone, Copy, Debug, PartialEq, Eq, PartialOrd, Ord, Hash, Structural)]
pub enum LogLevel {
    Trace,
    Debug,
    Info,
    Warn,
    Error,
    Critical,
}

/// The levels at which the logging facade raises records.
#[derive(Clone, Copy, Debug, PartialEq, Eq, Hash, Structural)]
pub enum Level {
    Error,
    Warn,
    Info,
    Debug,
    Trace,
}

/// The maximum-level settings of the logging facade, from `Off` (nothing
/// passes) to `Trace` (everything passes).
#[derive(Clone, Copy, Debug, PartialEq, Eq, Hash, Structural)]
pub enum LevelFilter {
    Off,
    Error,
    Warn,
    Info,
    Debug,
    Trace,
}

impl LogLevel {
    /// Place of the level in the severity order: 0 for `Trace` up to 5 for
    /// `Critical`.
    pub open spec fn rank(self) -> nat {
        match self {
            LogLevel::Trace => 0,
            LogLevel::Debug => 1,
            LogLevel::Info => 2,
            LogLevel::Warn => 3,
            LogLevel::Error => 4,
            LogLevel::Critical => 5,
        }
    }

    /// The filter that a request for this level installs: the filter of the
    /// same name, and `Off` for `Critical`.
    pub open spec fn filter(self) -> LevelFilter {
        match self {
            LogLevel::Trace => LevelFilter::Trace,
            LogLevel::Debug => LevelFilter::Debug,
            LogLevel::Info => LevelFilter::Info,
            LogLevel::Warn => LevelFilter::Warn,
            LogLevel::Error => LevelFilter::Error,
            LogLevel::Critical => LevelFilter::Off,
        }
    }

    /// The lower-case name that tags the level in diagnostics.
    pub open spec fn name(self) -> Seq<char> {
        match self {
            LogLevel::Trace => "trace"@,
            LogLevel::Debug => "debug"@,
            LogLevel::Info => "info"@,
            LogLevel::Warn => "warn"@,
            LogLevel::Error => "error"@,
            LogLevel::Critical => "critical"@,
        }
    }

    /// Returns the level's place in the severity order.
    pub fn severity(self) -> (rank: u8)
        ensures
            rank == self.rank(),
    {
        match self {
            LogLevel::Trace => 0,
            LogLevel::Debug => 1,
            LogLevel::Info => 2,
            LogLevel::Warn => 3,
            LogLevel::Error => 4,
            LogLevel::Critical => 5,
        }
    }

    /// Maps the requested level to the facade's filter setting.
    pub fn to_level_filter(self) -> (filter: LevelFilter)
        ensures
            filter == self.filter(),
    {
        match self {
            LogLevel::Trace => LevelFilter::Trace,
            LogLevel::Debug => LevelFilter::Debug,
            LogLevel::Info => LevelFilter::Info,
            LogLevel::Warn => LevelFilter::Warn,
            LogLevel::Error => LevelFilter::Error,
            LogLevel::Critical => LevelFilter::Off,
        }
    }

    /// Returns the level's name.
    pub fn as_str(self) -> (name: &'static str)
        ensures
            name@ == self.name(),
    {
        match self {
            LogLevel::Trace => "trace",
            LogLevel::Debug => "debug",
            LogLevel::Info => "info",
            LogLevel::Warn => "warn",
            LogLevel::Error => "error",
            LogLevel::Critical => "critical",
        }
    }
}

impl Level {
    /// The sink level that stands for this facade level: the level of the
    /// same name.
    pub open spec fn log_level(self) -> LogLevel {
        match self {
            Level::Error => LogLevel::Error,
            Level::Warn => LogLevel::Warn,
            Level::Info => LogLevel::Info,
            Level::Debug => LogLevel::Debug,
            Level::Trace => LogLevel::Trace,
        }
    }

    /// Maps a record's level to the sink's vocabulary.
    pub fn to_log_level(self) -> (level: LogLevel)
        ensures
            level == self.log_level(),
    {
        match self {
            Level::Error => LogLevel::Error,
            Level::Warn => LogLevel::Warn,
            Level::Info => LogLevel::Info,
            Level::Debug => LogLevel::Debug,
            Level::Trace => LogLevel::Trace,
        }
    }
}

impl LevelFilter {
    /// The least severe level that the filter lets through; `None` for `Off`.
    pub open spec fn floor(self) -> Option<LogLevel> {
        match self {
            LevelFilter::Off => None,
            LevelFilter::Error => Some(LogLevel::Error),
            LevelFilter::Warn => Some(LogLevel::Warn),
            LevelFilter::Info => Some(LogLevel::Info),
            LevelFilter::Debug => Some(LogLevel::Debug),
            LevelFilter::Trace => Some(LogLevel::Trace),
        }
    }

    /// Whether a message at `level` passes the filter: the filter is not
    /// `Off` and `level` is at least as severe as the filter's floor.
    pub open spec fn admits(self, level: LogLevel) -> bool {
        match self.floor() {
            Some(least) => least.rank() <= level.rank(),
            None => false,
        }
    }

    /// Returns the least severe level that passes, if any does.
    pub fn to_level(self) -> (least: Option<LogLevel>)
        ensures
            least == self.floor(),
    {
        match self {
            LevelFilter::Off => None,
            LevelFilter::Error => Some(LogLevel::Error),
            LevelFilter::Warn => Some(LogLevel::Warn),
            LevelFilter::Info => Some(LogLevel::Info),
            LevelFilter::Debug => Some(LogLevel::Debug),
            LevelFilter::Trace => Some(LogLevel::Trace),
        }
    }

    /// Tells whether a message at `level` passes the filter.
    pub fn allows(self, level: LogLevel) -> (passes: bool)
        ensures
            passes == self.admits(level),
    {
        match self.to_level() {
            Some(least) => least.severity() <= level.severity(),
            None => false,
        }
    }
}

} // verus!
