//! What the bridge hands to the host sink, and what becomes of the sink's answer.

use crate::error::BridgeError;
use crate::level::LogLevel;
use vstd::prelude::*;
use vstd::string::*;

verus! {

/// One call owed to the host sink: a level and a rendered line of text.
#[derive(Clone, Debug, PartialEq, Eq)]
pub struct Delivery {
    pub level: LogLevel,
    pub message: String,
}

impl Delivery {
    /// The delivery for an unhandled fault: the fault's description at
    /// `Critical`. No filter is consulted, so a fault surfaces whatever the
    /// current maximum severity is.
    pub fn for_fault(description: &str) -> (delivery: Delivery)
        ensures
            delivery.level == LogLevel::Critical,
            delivery.message@ == description@,
    {
        Delivery { level: LogLevel::Critical, message: String::from_str(description) }
    }

    /// Settles the delivery once the sink has answered. A delivered message
    /// needs nothing more. A refused one yields exactly one
    /// `SinkDeliveryFailed`, for the side diagnostic channel; nothing is
    /// retried and nothing goes back into the bridge.
    pub fn sink_outcome(self, outcome: Result<(), String>) -> (settled: Result<(), BridgeError>)
        ensures
            outcome is Ok ==> settled is Ok,
            outcome matches Err(cause) ==> settled == Err::<(), BridgeError>(
                BridgeError::SinkDeliveryFailed {
                    level: self.level,
                    message: self.message,
                    cause,
                },
            ),
    {
        match outcome {
            Ok(()) => Ok(()),
            Err(cause) => Err(
                BridgeError::SinkDeliveryFailed {
                    level: self.level,
                    message: self.message,
                    cause,
                },
            ),
        }
    }
}

} // verus!
