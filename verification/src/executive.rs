//! The executive: what to do with one ADIS datagram.
//!
//! A datagram is handled in two steps, with the caller's arithmetic on the
//! state vector between them. `adis_arrival` checks the sequence number and
//! unpacks the message; `adis_report` frames the message and the new state
//! for the log and queues the message for the ground. Neither step writes or
//! sends anything: each hands the bytes to its caller.

use crate::bigendian::be_bytes;
use crate::devices::{
    adis_message, adis_message_of, adis_of, recv_adis, ADIS, ADIS_FIELD_BYTES, ADIS_NAME,
    SIZE_OF_ADIS,
};
use crate::io::{
    must_flush, record_bytes, sequence_error_bytes, TelemetryFlush, FC, P_LIMIT, SEQE_NAME,
    SEQN_NAME, SEQN_SIZE, SIZE_OF_SEQE,
};
use crate::sequence::{arrival_of, error_of, expected_after, Arrival, SequenceTracker};
use crate::state::{state_bytes, State, SIZE_OF_STATE, STATE_NAME};
use vstd::prelude::*;

verus! {

/// What the arrival of an ADIS datagram asks for.
#[derive(Debug)]
pub struct AdisArrival {
    /// How the datagram stood to the one expected
    pub arrival: Arrival,
    /// The record of a sequence error, to append to the log
    pub error_record: Option<Vec<u8>>,
    /// The reading to update the state with
    pub sample: Option<ADIS>,
}

/// What goes out once the state has taken an ADIS reading in.
#[derive(Debug)]
pub struct AdisReport {
    /// The records of the message and of the state, to append to the log
    pub log: Vec<u8>,
    /// The flush of the telemetry packet, if queueing the message caused
    /// one: to be sent and logged after `log` is written
    pub flushed: Option<TelemetryFlush>,
}

/// Whether the datagram numbered `seqn` is processed: it is not stale, and
/// its payload is long enough to hold a reading.
pub open spec fn processed(expected: u32, seqn: u32, payload: Seq<u8>) -> bool {
    arrival_of(expected, seqn).accepted() && payload.len() >= ADIS_FIELD_BYTES
}

/// The log records of one processed ADIS datagram: the message itself, then
/// the state after it.
pub open spec fn report_records(state: State, recv_time: u64, payload: Seq<u8>) -> Seq<u8> {
    record_bytes(ADIS_NAME@, recv_time as nat, adis_message_of(payload)) + record_bytes(
        STATE_NAME@,
        recv_time as nat,
        state_bytes(state),
    )
}

/// First step: the sequence check.
///
/// Classifies the datagram numbered `seqn` against `tracker`. A datagram
/// that is not the one expected gets a sequence error record, stamped
/// `recv_time`. A stale datagram is dropped, and so is one whose payload is
/// too short to hold a reading; any other is unpacked, and the tracker
/// advances past it. A dropped datagram leaves the tracker as it was.
pub fn adis_arrival(
    tracker: &mut SequenceTracker,
    fc: &FC,
    seqn: u32,
    recv_time: u64,
    payload: &[u8],
) -> (out: AdisArrival)
    requires
        seqn >= old(tracker).expected ==> seqn < u32::MAX,
    ensures
        out.arrival == arrival_of(old(tracker).expected, seqn),
        match error_of(old(tracker).port, old(tracker).expected, seqn) {
            Some(error) => out.error_record matches Some(record) && record@ == record_bytes(
                SEQE_NAME@,
                recv_time as nat,
                sequence_error_bytes(error),
            ),
            None => out.error_record is None,
        },
        out.sample == if processed(old(tracker).expected, seqn, payload@) {
            Some(adis_of(payload@))
        } else {
            None
        },
        final(tracker).port == old(tracker).port,
        final(tracker).expected == if processed(old(tracker).expected, seqn, payload@) {
            expected_after(old(tracker).expected, seqn)
        } else {
            old(tracker).expected as int
        },
{
    let mut advanced = *tracker;
    let seen = advanced.observe(seqn);

    let error_record = match seen.error {
        Some(error) => {
            let bytes = error.as_message();
            let record = fc.log_message(&bytes, SEQE_NAME, recv_time, SIZE_OF_SEQE);
            assert(bytes@.take(SIZE_OF_SEQE as int) =~= bytes@);
            Some(record)
        },
        None => None,
    };

    // As long as we have *new* data it's okay
    let sample = if seen.arrival.is_accepted() {
        match recv_adis(payload) {
            Ok(adis) => Some(adis),
            Err(_) => None,
        }
    } else {
        None
    };

    // Update sequence number counter
    if sample.is_some() {
        *tracker = advanced;
    }

    AdisArrival { arrival: seen.arrival, error_record, sample }
}

/// Second step: log ADIS and STAT, send ADIS out over telemetry.
///
/// `state` is the state vector after the reading in `payload` went into it.
/// The log gets the record of the ADIS message and the record of the state,
/// both stamped `recv_time`. The message is queued for the ground; if that
/// flushes the telemetry packet, at `send_time`, the flush comes back too.
pub fn adis_report(
    fc: &mut FC,
    state: &State,
    recv_time: u64,
    payload: &[u8],
    send_time: u64,
) -> (out: AdisReport)
    requires
        must_flush(old(fc).buffer().len(), SIZE_OF_ADIS as nat) ==> old(fc).sequence() < u32::MAX,
    ensures
        out.log@ == report_records(*state, recv_time, payload@),
        must_flush(old(fc).buffer().len(), SIZE_OF_ADIS as nat) ==> {
            &&& out.flushed matches Some(flush)
            &&& flush.packet@ == old(fc).buffer()
            &&& flush.log_record@ == record_bytes(
                SEQN_NAME@,
                send_time as nat,
                be_bytes((old(fc).sequence() + 1) as nat, 4),
            )
            &&& final(fc).sequence() == old(fc).sequence() + 1
            &&& final(fc).buffer() == be_bytes((old(fc).sequence() + 1) as nat, 4) + record_bytes(
                ADIS_NAME@,
                recv_time as nat,
                adis_message_of(payload@),
            )
        },
        !must_flush(old(fc).buffer().len(), SIZE_OF_ADIS as nat) ==> {
            &&& out.flushed is None
            &&& final(fc).sequence() == old(fc).sequence()
            &&& final(fc).buffer() == old(fc).buffer() + record_bytes(
                ADIS_NAME@,
                recv_time as nat,
                adis_message_of(payload@),
            )
        },
        old(fc).wf() && old(fc).within_limit() ==> final(fc).wf() && final(fc).within_limit(),
        out.flushed matches Some(flush) ==> {
            &&& flush.packet@.len() > SEQN_SIZE
            &&& old(fc).within_limit() ==> flush.packet@.len() <= P_LIMIT
        },
{
    let message = adis_message(payload);
    assert(message@.take(SIZE_OF_ADIS as int) =~= message@);
    let mut log = fc.log_message(&message, ADIS_NAME, recv_time, SIZE_OF_ADIS);

    let stat = state.as_message();
    assert(stat@.take(SIZE_OF_STATE as int) =~= stat@);
    let mut stat_record = fc.log_message(&stat, STATE_NAME, recv_time, SIZE_OF_STATE);
    log.append(&mut stat_record);

    let flushed = fc.queue(&message, ADIS_NAME, recv_time, SIZE_OF_ADIS, send_time);

    AdisReport { log, flushed }
}

} // verus!
