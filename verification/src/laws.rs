//! What holds of the bridge for every state and every level.

use crate::error::BridgeError;
use crate::level::{Level, LevelFilter, LogLevel};
use crate::logger::{LoggerState, Phase, Step};
use vstd::prelude::*;

verus! {

/// The filter follows severity. Take a level `threshold` other than
/// `Critical` and a level `candidate` that is at least as severe. Once the
/// severity is set to `threshold`, both `candidate` and `threshold` pass.
/// Once it is set to `candidate`, `threshold` passes only if the two are the
/// same level.
pub proof fn law_filter_follows_severity(
    state: LoggerState,
    candidate: LogLevel,
    threshold: LogLevel,
)
    requires
        threshold.rank() <= candidate.rank(),
        threshold != LogLevel::Critical,
    ensures
        state.with_level(threshold).enabled(candidate),
        state.with_level(threshold).enabled(threshold),
        state.install_succeeded(threshold).enabled(candidate),
        state.install_succeeded(threshold).enabled(threshold),
        candidate != threshold ==> !state.with_level(candidate).enabled(threshold),
        candidate != threshold ==> !state.install_succeeded(candidate).enabled(threshold),
{
}

/// A filter set for a level other than `Critical` passes exactly the levels
/// that are at least as severe.
pub proof fn law_enabled_iff_at_least_as_severe(
    state: LoggerState,
    threshold: LogLevel,
    candidate: LogLevel,
)
    requires
        threshold != LogLevel::Critical,
    ensures
        state.with_level(threshold).enabled(candidate) <==> threshold.rank() <= candidate.rank(),
{
}

/// Setting the severity to `Critical` disables all emission: no level
/// passes, `Critical` included.
pub proof fn law_critical_disables_everything(state: LoggerState, level: LogLevel)
    ensures
        !state.with_level(LogLevel::Critical).enabled(level),
        !state.install_succeeded(LogLevel::Critical).enabled(level),
        state.is_installed() ==> !state.requested(LogLevel::Critical).enabled(level),
{
}

/// Before any severity was set nothing passes, at any level.
pub proof fn law_initial_state_is_silent(level: LogLevel)
    ensures
        !LoggerState::initial().enabled(level),
        !LoggerState::initial().is_installed(),
{
}

/// Setting the same severity twice in a row leaves the bridge as setting it
/// once does, so every level passes or fails as before.
pub proof fn law_set_level_is_idempotent(state: LoggerState, level: LogLevel, candidate: LogLevel)
    ensures
        state.with_level(level).with_level(level) == state.with_level(level),
        state.requested(level).requested(level) == state.requested(level),
        state.install_succeeded(level).requested(level) == state.install_succeeded(level),
        state.requested(level).requested(level).enabled(candidate) == state.requested(
            level,
        ).enabled(candidate),
{
}

/// Only the last severity set counts: an earlier setting leaves no trace in
/// the filter.
pub proof fn law_last_level_wins(state: LoggerState, first: LogLevel, second: LogLevel)
    ensures
        state.with_level(first).with_level(second) == state.with_level(second),
{
}

/// An installed bridge stays installed, whatever is asked of it or reported
/// to it, and never asks for another installation.
pub proof fn law_installed_is_permanent(state: LoggerState, level: LogLevel)
    requires
        state.is_installed(),
    ensures
        state.next_step() == Step::Done,
        state.requested(level).is_installed(),
        state.with_level(level).is_installed(),
        state.install_succeeded(level).is_installed(),
        state.install_failed() == state,
{
}

/// A failed installation leaves the filter untouched and the bridge not
/// installed, unless it was installed before; the next request asks for the
/// installation again.
pub proof fn law_failed_install_rolls_back(state: LoggerState, level: LogLevel)
    requires
        !state.is_installed(),
    ensures
        state.requested(level).phase == Phase::Installing,
        state.requested(level).filter == state.filter,
        state.requested(level).install_failed().phase == Phase::Uninitialized,
        state.requested(level).install_failed().filter == state.filter,
        state.requested(level).install_failed().next_step() == Step::Install,
{
}

/// Two callers race for the first installation: both are asked to install,
/// one attempt succeeds and one fails. In whichever order the two outcomes
/// arrive, the bridge ends installed with the winner's filter, and from then
/// on both callers' requests only set the filter.
pub proof fn law_racing_installs_settle(state: LoggerState, winner: LogLevel, loser: LogLevel)
    requires
        !state.is_installed(),
    ensures
        state.next_step() == Step::Install,
        state.requested(winner).next_step() == Step::Install,
        state.requested(winner).requested(loser).install_succeeded(winner).install_failed()
            == (LoggerState { phase: Phase::Installed, filter: winner.filter() }),
        state.requested(winner).requested(loser).install_failed().install_succeeded(winner)
            == (LoggerState { phase: Phase::Installed, filter: winner.filter() }),
        state.requested(winner).requested(loser).install_failed().install_succeeded(
            winner,
        ).next_step() == Step::Done,
{
}

/// The facade's five levels map to five different sink levels, none of them
/// `Critical`, and each comes back as the floor of its own filter.
pub proof fn law_level_map_is_one_to_one(a: Level, b: Level)
    ensures
        a.log_level() == b.log_level() ==> a == b,
        a.log_level() != LogLevel::Critical,
        a.log_level().filter().floor() == Some(a.log_level()),
        a.log_level().filter() != LevelFilter::Off,
{
}

/// A filter is `Off` only for `Critical`; every other level is the floor of
/// its own filter.
pub proof fn law_filter_floor(level: LogLevel)
    ensures
        level.filter() == LevelFilter::Off <==> level == LogLevel::Critical,
        level != LogLevel::Critical ==> level.filter().floor() == Some(level),
{
}

/// Whether a text runs on one line: it holds no line feed.
pub open spec fn on_one_line(text: Seq<char>) -> bool {
    forall|i: int| 0 <= i < text.len() ==> text[i] != '\n'
}

/// The account of a failure is one line whenever the texts it was given are:
/// the fixed words and the level tags hold no line feed.
pub proof fn law_account_is_one_line(error: BridgeError)
    requires
        error matches BridgeError::BridgeInstallFailed { cause } ==> on_one_line(cause@),
        error matches BridgeError::SinkDeliveryFailed { level, message, cause } ==> on_one_line(
            message@,
        ) && on_one_line(cause@),
    ensures
        on_one_line(error.text()),
{
    reveal_strlit("Failed to set logger: ");
    reveal_strlit("Failed to log message: [");
    reveal_strlit("] ");
    reveal_strlit(". Error: ");
    reveal_strlit("trace");
    reveal_strlit("debug");
    reveal_strlit("info");
    reveal_strlit("warn");
    reveal_strlit("error");
    reveal_strlit("critical");
    match error {
        BridgeError::BridgeInstallFailed { cause } => {
            assert(on_one_line("Failed to set logger: "@));
        },
        BridgeError::SinkDeliveryFailed { level, message, cause } => {
            assert(on_one_line(level.name()));
            assert(on_one_line("Failed to log message: ["@));
            assert(on_one_line("] "@));
            assert(on_one_line(". Error: "@));
        },
    }
}

} // verus!
