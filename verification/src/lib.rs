//! A bridge between a leveled logging facade and a single host-owned log sink.
//!
//! The bridge holds the process-wide maximum severity filter and the
//! installation phase as one explicit value, [`Logger`]. It decides which
//! records leave for the sink and what is written to the side diagnostic
//! channel when the sink refuses one. Calling the sink, registering the
//! backend with the facade and hooking unhandled faults are the caller's part.

pub mod delivery;
pub mod error;
pub mod facade;
pub mod laws;
pub mod level;
pub mod logger;

pub use delivery::Delivery;
pub use error::BridgeError;
pub use level::{Level, LevelFilter, LogLevel};
pub use logger::{set_log_level, Logger, LoggerState, Phase, Step};
