//! Errors of the message decoders and of the telemetry queue.

use vstd::prelude::*;

verus! {

/// Why a message could not be decoded.
#[derive(Clone, Copy, Debug, PartialEq, Eq, Structural)]
pub enum DecodeError {
    /// The buffer holds fewer bytes than the message's fixed layout needs.
    TruncatedMessage,
}

/// Why a message was not queued for the ground.
#[derive(Clone, Copy, Debug, PartialEq, Eq, Structural)]
pub enum TelemetryError {
    /// The record of the message is larger than a whole telemetry packet
    /// has room for.
    RecordTooLarge,
}

} // verus!
