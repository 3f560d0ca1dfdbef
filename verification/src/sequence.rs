//! Sequence tracking.
//!
//! Every source numbers its packets. We expect monotonically increasing
//! sequence numbers: a packet older than the one expected is stale and is
//! dropped, because a real time system can do nothing with stale data. A
//! packet newer than the one expected means that data was lost, but it is
//! still the freshest data there is, so it is used. Both are logged as
//! sequence errors.

use crate::io::SequenceError;
use vstd::prelude::*;

verus! {

/// How a packet's sequence number stands to the one expected.
#[derive(Clone, Copy, Debug, PartialEq, Eq, Structural)]
pub enum Arrival {
    /// The packet is the one expected.
    InOrder,
    /// The packet is older than the one expected: a duplicate, or out of
    /// order.
    Stale,
    /// The packet is newer than the one expected: packets were lost.
    Gapped,
}

/// The class of a packet numbered `received` when `expected` is awaited.
pub open spec fn arrival_of(expected: u32, received: u32) -> Arrival {
    if received < expected {
        Arrival::Stale
    } else if received == expected {
        Arrival::InOrder
    } else {
        Arrival::Gapped
    }
}

/// The number awaited after a packet numbered `received` arrived while
/// `expected` was awaited: one past the packet, unless the packet is stale.
pub open spec fn expected_after(expected: u32, received: u32) -> int {
    if received < expected {
        expected as int
    } else {
        received + 1
    }
}

/// The sequence error to log for a packet from `port`: none for the packet
/// expected, and port, expected and received number for any other.
pub open spec fn error_of(port: u16, expected: u32, received: u32) -> Option<SequenceError> {
    if received == expected {
        None
    } else {
        Some(SequenceError { port, expected, received })
    }
}

impl Arrival {
    /// Whether the packet's payload is processed: every packet but a stale
    /// one.
    pub open spec fn accepted(self) -> bool {
        self != Arrival::Stale
    }

    /// Whether the packet's payload is processed.
    pub fn is_accepted(self) -> (accepted: bool)
        ensures
            accepted == self.accepted(),
    {
        match self {
            Arrival::Stale => false,
            Arrival::InOrder => true,
            Arrival::Gapped => true,
        }
    }
}

/// Classifies a packet numbered `received` when `expected` is awaited, and
/// gives the number to await next.
///
/// The sequence number after `u32::MAX` does not exist, so a packet that is
/// not stale must be numbered below it.
pub fn classify(expected: u32, received: u32) -> (out: (Arrival, u32))
    requires
        received >= expected ==> received < u32::MAX,
    ensures
        out.0 == arrival_of(expected, received),
        out.1 == expected_after(expected, received),
{
    if received < expected {
        (Arrival::Stale, expected)
    } else if received == expected {
        (Arrival::InOrder, received + 1)
    } else {
        (Arrival::Gapped, received + 1)
    }
}

/// What became of one packet.
#[derive(Clone, Copy, Debug, PartialEq, Eq, Structural)]
pub struct Observation {
    /// How the packet stood to the one expected
    pub arrival: Arrival,
    /// The sequence error to log, if the packet was not the one expected
    pub error: Option<SequenceError>,
}

/// The sequence state of one source: the port it sends from and the number
/// of the packet awaited from it.
#[derive(Clone, Copy, Debug, PartialEq, Eq, Structural)]
pub struct SequenceTracker {
    /// The port of the source
    pub port: u16,
    /// The next expected sequence number
    pub expected: u32,
}

impl SequenceTracker {
    /// The state at boot: the source's first packet, numbered 0, is awaited.
    pub fn new(port: u16) -> (tracker: SequenceTracker)
        ensures
            tracker == (SequenceTracker { port, expected: 0 }),
    {
        SequenceTracker { port, expected: 0 }
    }

    /// Takes note of a packet numbered `received`.
    ///
    /// Classifies the packet, advances past it unless it is stale, and gives
    /// the sequence error to log if it is not the one expected.
    pub fn observe(&mut self, received: u32) -> (seen: Observation)
        requires
            received >= old(self).expected ==> received < u32::MAX,
        ensures
            seen.arrival == arrival_of(old(self).expected, received),
            seen.error == error_of(old(self).port, old(self).expected, received),
            final(self).port == old(self).port,
            final(self).expected == expected_after(old(self).expected, received),
    {
        let awaited: u32 = self.expected;
        let (arrival, next) = classify(awaited, received);
        let error = match arrival {
            Arrival::InOrder => None,
            Arrival::Stale => Some(SequenceError { port: self.port, expected: awaited, received }),
            Arrival::Gapped => Some(SequenceError { port: self.port, expected: awaited, received }),
        };
        self.expected = next;
        Observation { arrival, error }
    }
}

/// The number awaited never goes back, and a packet that was accepted is
/// stale from then on, as is every packet numbered below it.
pub proof fn lemma_sequence_order(expected: u32, received: u32, later: u32)
    requires
        expected_after(expected, received) <= u32::MAX,
    ensures
        expected_after(expected, received) >= expected,
        arrival_of(expected, received).accepted() && later <= received ==> arrival_of(
            expected_after(expected, received) as u32,
            later,
        ) == Arrival::Stale,
        arrival_of(expected, received) == Arrival::Stale ==> expected_after(expected, received)
            == expected,
{
}

/// A packet raises a sequence error exactly when it is stale or gapped, and
/// the error names what was awaited and what came.
pub proof fn lemma_error_iff_out_of_order(port: u16, expected: u32, received: u32)
    ensures
        error_of(port, expected, received) is None <==> arrival_of(expected, received)
            == Arrival::InOrder,
        error_of(port, expected, received) matches Some(error) ==> error.port == port
            && error.expected == expected && error.received == received,
{
}

} // verus!
