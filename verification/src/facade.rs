//! The calls that the bridge makes into the `log` crate. Their contracts are
//! taken on trust from that crate's source; nothing here is proved.

use crate::level::LevelFilter;
use vstd::prelude::*;

verus! {

/// `log::SetLoggerError`, the error of `log::set_logger`. Its content is
/// private to the `log` crate, so the bridge only carries it through.
#[verifier::external_type_specification]
#[verifier::external_body]
pub struct ExSetLoggerError(log::SetLoggerError);

/// The sentence with which the `log` crate words a refused registration.
pub open spec fn refusal_text() -> Seq<char> {
    "attempted to set a logger after the logging system was already initialized"@
}

/// Renders a `log::SetLoggerError` with `to_string`, that is through the
/// `Display` impl that the `log` crate gives it.
///
/// Trusted: that impl writes one fixed sentence, whatever the error value, and
/// the contract repeats that sentence.
#[verifier::external_body]
pub(crate) fn set_logger_error_text(error: &log::SetLoggerError) -> (text: String)
    ensures
        text@ == refusal_text(),
{
    error.to_string()
}

/// Stores `filter` as the facade's global maximum level with
/// `log::set_max_level`, so that the facade's macros drop what the bridge
/// would drop.
///
/// Trusted: the call returns nothing and changes only the facade's own global,
/// so the contract states nothing.
#[verifier::external_body]
pub(crate) fn publish_max_level(filter: LevelFilter) {
    log::set_max_level(
        match filter {
            LevelFilter::Off => log::LevelFilter::Off,
            LevelFilter::Error => log::LevelFilter::Error,
            LevelFilter::Warn => log::LevelFilter::Warn,
            LevelFilter::Info => log::LevelFilter::Info,
            LevelFilter::Debug => log::LevelFilter::Debug,
            LevelFilter::Trace => log::LevelFilter::Trace,
        },
    );
}

} // verus!
