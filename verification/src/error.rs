//! What can go wrong in the bridge, and how each failure reads.

use crate::level::LogLevel;
use vstd::prelude::*;
use vstd::string::*;

verus! {

/// The failures of the bridge.
#[derive(Clone, Debug, PartialEq, Eq)]
pub enum BridgeError {
    /// The process's logging backend slot was already taken. Returned to the
    /// caller that asked for the installation; `cause` is the facade's own
    /// account of the refusal.
    BridgeInstallFailed { cause: String },
    /// The host sink did not take a message. Never returned from emitting a
    /// record: it only words the line for the side diagnostic channel.
    SinkDeliveryFailed { level: LogLevel, message: String, cause: String },
}

impl BridgeError {
    /// The one-line account of the failure: for a refused installation the
    /// cause behind a fixed prefix, for a lost message its level tag, its
    /// text and the sink's cause.
    pub open spec fn text(self) -> Seq<char> {
        match self {
            BridgeError::BridgeInstallFailed { cause } => "Failed to set logger: "@ + cause@,
            BridgeError::SinkDeliveryFailed { level, message, cause } => {
                "Failed to log message: ["@ + level.name() + "] "@ + message@ + ". Error: "@
                    + cause@
            },
        }
    }

    /// Renders the failure as text.
    pub fn message(&self) -> (text: String)
        ensures
            text@ == self.text(),
    {
        match self {
            BridgeError::BridgeInstallFailed { cause } => {
                let mut text = String::from_str("Failed to set logger: ");
                text.append(cause.as_str());
                text
            },
            BridgeError::SinkDeliveryFailed { level, message, cause } => {
                let mut text = String::from_str("Failed to log message: [");
                text.append(level.as_str());
                text.append("] ");
                text.append(message.as_str());
                text.append(". Error: ");
                text.append(cause.as_str());
                text
            },
        }
    }
}

} // verus!
