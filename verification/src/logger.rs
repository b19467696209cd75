//! The bridge's state machine: installation phase and severity filter.

use crate::delivery::Delivery;
use crate::error::BridgeError;
use crate::facade::{publish_max_level, refusal_text, set_logger_error_text};
use crate::level::{Level, LevelFilter, LogLevel};
use vstd::prelude::*;
use vstd::string::*;

verus! {

/// Where the bridge stands with the process's logging backend slot.
#[derive(Clone, Copy, Debug, PartialEq, Eq, Hash, Structural)]
pub enum Phase {
    /// Not installed, and no installation asked for.
    Uninitialized,
    /// An installation was asked for and its outcome is still owed.
    Installing,
    /// Installed as the process's logging backend. Nothing leaves this phase.
    Installed,
}

/// What the caller of [`set_log_level`] has to do next.
#[derive(Clone, Copy, Debug, PartialEq, Eq, Hash, Structural)]
pub enum Step {
    /// The filter is updated; nothing is left to do.
    Done,
    /// The bridge is not installed. Register it as the process's logging
    /// backend, install the failure hook if that succeeds, and report the
    /// outcome with [`Logger::complete_install`].
    Install,
}

/// The bridge's state as a mathematical value.
pub struct LoggerState {
    pub phase: Phase,
    pub filter: LevelFilter,
}

impl LoggerState {
    /// The state before anything was asked of the bridge: not installed, and
    /// nothing passes.
    pub open spec fn initial() -> LoggerState {
        LoggerState { phase: Phase::Uninitialized, filter: LevelFilter::Off }
    }

    pub open spec fn is_installed(self) -> bool {
        self.phase is Installed
    }

    /// Whether a message at `level` passes the current filter.
    pub open spec fn enabled(self, level: LogLevel) -> bool {
        self.filter.admits(level)
    }

    /// The state after the filter was set for `level`.
    pub open spec fn with_level(self, level: LogLevel) -> LoggerState {
        LoggerState { phase: self.phase, filter: level.filter() }
    }

    /// What a request to set the severity asks of its caller.
    pub open spec fn next_step(self) -> Step {
        if self.is_installed() {
            Step::Done
        } else {
            Step::Install
        }
    }

    /// The state after a request to set the severity to `level`: an installed
    /// bridge takes the new filter; any other awaits its installation with the
    /// filter untouched.
    pub open spec fn requested(self, level: LogLevel) -> LoggerState {
        if self.is_installed() {
            self.with_level(level)
        } else {
            LoggerState { phase: Phase::Installing, filter: self.filter }
        }
    }

    /// The state after an installation succeeded for a request for `level`.
    pub open spec fn install_succeeded(self, level: LogLevel) -> LoggerState {
        LoggerState { phase: Phase::Installed, filter: level.filter() }
    }

    /// The state after an installation failed: the filter is untouched, and
    /// the phase rolls back unless another caller's installation stands.
    pub open spec fn install_failed(self) -> LoggerState {
        if self.is_installed() {
            self
        } else {
            LoggerState { phase: Phase::Uninitialized, filter: self.filter }
        }
    }
}

/// The logging bridge: the process-wide installation phase and maximum
/// severity filter, held as one explicit value.
#[derive(Debug)]
pub struct Logger {
    phase: Phase,
    filter: LevelFilter,
}

impl View for Logger {
    type V = LoggerState;

    closed spec fn view(&self) -> LoggerState {
        LoggerState { phase: self.phase, filter: self.filter }
    }
}

impl Default for Logger {
    /// The default bridge is the new one: not installed, nothing passes.
    fn default() -> (logger: Logger)
        ensures
            logger@ == LoggerState::initial(),
    {
        Logger::new()
    }
}

impl Logger {
    /// A bridge that is not installed and lets nothing pass.
    pub fn new() -> (logger: Logger)
        ensures
            logger@ == LoggerState::initial(),
    {
        Logger { phase: Phase::Uninitialized, filter: LevelFilter::Off }
    }

    /// Sets the maximum severity filter for `level`, whatever the phase, and
    /// hands the same filter to the logging facade. `Critical` turns all
    /// emission off.
    pub fn set_log_level(&mut self, level: LogLevel)
        ensures
            final(self)@ == old(self)@.with_level(level),
    {
        let filter = level.to_level_filter();
        self.filter = filter;
        publish_max_level(filter);
    }

    /// Takes the outcome of the installation that [`set_log_level`] asked
    /// for. After a success the bridge is installed and the filter is set for
    /// `level`. After a failure the filter is untouched, the phase rolls back
    /// unless the bridge is installed already, and the facade's refusal comes
    /// back as `BridgeInstallFailed`.
    pub fn complete_install(
        &mut self,
        level: LogLevel,
        outcome: Result<(), log::SetLoggerError>,
    ) -> (result: Result<(), BridgeError>)
        ensures
            outcome is Ok ==> result is Ok && final(self)@ == old(self)@.install_succeeded(level),
            outcome is Err ==> final(self)@ == old(self)@.install_failed(),
            outcome is Err ==> (result matches Err(BridgeError::BridgeInstallFailed { cause })
                && cause@ == refusal_text()),
    {
        match outcome {
            Ok(()) => {
                self.phase = Phase::Installed;
                self.set_log_level(level);
                Ok(())
            },
            Err(refusal) => {
                match self.phase {
                    Phase::Installed => {},
                    _ => {
                        self.phase = Phase::Uninitialized;
                    },
                }
                Err(BridgeError::BridgeInstallFailed { cause: set_logger_error_text(&refusal) })
            },
        }
    }

    /// Tells whether a message at `level` passes the current filter.
    pub fn enabled(&self, level: LogLevel) -> (passes: bool)
        ensures
            passes == self@.enabled(level),
    {
        self.filter.allows(level)
    }

    /// Decides on one record of the facade. A record whose level passes the
    /// filter becomes a delivery at the sink level of the same name, with the
    /// message unchanged; any other is dropped.
    pub fn log(&self, level: Level, message: &str) -> (delivery: Option<Delivery>)
        ensures
            self@.enabled(level.log_level()) ==> (delivery matches Some(d) && d.level
                == level.log_level() && d.message@ == message@),
            !self@.enabled(level.log_level()) ==> delivery is None,
    {
        let level = level.to_log_level();
        if !self.enabled(level) {
            return None;
        }
        Some(Delivery { level, message: String::from_str(message) })
    }

    /// Nothing is buffered: every delivery is handed over as it is decided.
    pub fn flush(&self) {
    }

    /// Returns the installation phase.
    pub fn phase(&self) -> (phase: Phase)
        ensures
            phase == self@.phase,
    {
        self.phase
    }

    /// Returns the current filter.
    pub fn max_level(&self) -> (filter: LevelFilter)
        ensures
            filter == self@.filter,
    {
        self.filter
    }

    /// Tells whether the bridge is installed.
    pub fn is_initialized(&self) -> (installed: bool)
        ensures
            installed == self@.is_installed(),
    {
        match self.phase {
            Phase::Installed => true,
            _ => false,
        }
    }
}

/// Asks for the maximum severity to be set to `level`. An installed bridge
/// takes the new filter at once. One that is not installed changes nothing but
/// its phase and asks its caller for the installation.
pub fn set_log_level(logger: &mut Logger, level: LogLevel) -> (step: Step)
    ensures
        step == old(logger)@.next_step(),
        final(logger)@ == old(logger)@.requested(level),
{
    if logger.is_initialized() {
        logger.set_log_level(level);
        Step::Done
    } else {
        logger.phase = Phase::Installing;
        Step::Install
    }
}

} // verus!
