//! Input and output: the bytes that go to the log and to the ground.
//!
//! All data the flight computer cares about is a "message": a packed run of
//! big-endian fields. A message is logged and relayed as a record, a
//! twelve-byte header followed by the message itself. Telemetry records are
//! batched into packets of at most `P_LIMIT` bytes, each led by the packet's
//! sequence number.
//!
//! `FC` holds the telemetry state. It opens no socket and no file: its
//! methods take the bytes that arrived and hand back the bytes to write or
//! send, and the caller moves them.

use crate::bigendian::{
    be_bytes, be_value, copy_into, lemma_be_bytes_len, lemma_be_bytes_low,
    lemma_be_value_injective, lemma_be_value_of_bytes, lemma_radix_values, read_u32, write_u16,
    write_u32, write_u64,
};
use crate::error::TelemetryError;
use vstd::prelude::*;

verus! {

/// Expected port for ADIS messages
pub const PSAS_ADIS_PORT: u16 = 35020;

/// Maximum size of single telemetry packet
pub const P_LIMIT: usize = 1432;

/// Size of the sequence number that leads a datagram or a telemetry packet
pub const SEQN_SIZE: usize = 4;

/// Size of PSAS Packet header
pub const HEADER_SIZE: usize = 12;

/// Size of the largest message whose record fits a telemetry packet
pub const MESSAGE_LIMIT: usize = P_LIMIT - SEQN_SIZE - HEADER_SIZE;

/// Message name (ASCII: SEQN)
pub const SEQN_NAME: [u8; 4] = [83, 69, 81, 78];

/// Sequence Error message size (bytes)
pub const SIZE_OF_SEQE: usize = 10;

/// Sequence Error message name (ASCII: SEQE)
pub const SEQE_NAME: [u8; 4] = [83, 69, 81, 69];

/// The header of a record: the four-byte name, the six least significant
/// bytes of the nanosecond timestamp, and the two least significant bytes of
/// the message size, each big-endian.
pub open spec fn header_bytes(name: Seq<u8>, time: nat, message_size: nat) -> Seq<u8> {
    name + be_bytes(time, 6) + be_bytes(message_size, 2)
}

/// A record: the header for `payload`, then `payload` itself.
pub open spec fn record_bytes(name: Seq<u8>, time: nat, payload: Seq<u8>) -> Seq<u8> {
    header_bytes(name, time, payload.len()) + payload
}

/// Whether a telemetry packet of `buffered` bytes has to leave before a
/// message of `message_size` bytes is framed into it. A record that fills the
/// packet to the limit exactly still goes in.
pub open spec fn must_flush(buffered: nat, message_size: nat) -> bool {
    buffered + HEADER_SIZE + message_size > P_LIMIT
}

/// Whether the record of a message of `message_size` bytes fits a telemetry
/// packet at all: behind the packet's sequence number, within `P_LIMIT`.
pub open spec fn fits_packet(message_size: nat) -> bool {
    SEQN_SIZE + HEADER_SIZE + message_size <= P_LIMIT
}

/// Packs the header of a record into bytes.
///
/// The timestamp and the size are truncated to the width of their fields,
/// not checked: a timestamp is whole only below 2^48 ns and a size only
/// below 2^16 (see `lemma_header_fields`).
pub fn pack_header(name: [u8; 4], time: u64, message_size: usize) -> (header: [u8; HEADER_SIZE])
    ensures
        header@ == header_bytes(name@, time as nat, message_size as nat),
{
    let mut buffer = [0u8; HEADER_SIZE];

    // ID (Four character code)
    copy_into(&mut buffer, 0, &name);

    // Timestamp, 6 bytes nanoseconds from boot:
    // truncate to 6 least significant bytes
    let mut time_buffer = [0u8; 8];
    write_u64(&mut time_buffer, time);
    copy_into(&mut buffer, 4, &time_buffer[2..8]);

    // Size:
    let mut size_buffer = [0u8; 2];
    let size: u16 = (message_size % 0x1_0000) as u16;
    write_u16(&mut size_buffer, size);
    copy_into(&mut buffer, 10, &size_buffer);

    proof {
        lemma_be_bytes_len(time as nat, 8);
        lemma_be_bytes_low(time as nat, 2, 6);
        lemma_be_bytes_len(size as nat, 2);
        lemma_be_bytes_len(message_size as nat, 2);
        lemma_be_value_of_bytes(size as nat, 2);
        lemma_be_value_of_bytes(message_size as nat, 2);
        lemma_radix_values();
        lemma_be_value_injective(be_bytes(size as nat, 2), be_bytes(message_size as nat, 2));
        assert(buffer@ =~= header_bytes(name@, time as nat, message_size as nat));
    }
    buffer
}

/// A header is `HEADER_SIZE` bytes long and can be read back: the name
/// always, the timestamp reduced modulo 2^48 and the size modulo 2^16.
pub proof fn lemma_header_fields(name: Seq<u8>, time: nat, message_size: nat)
    requires
        name.len() == 4,
    ensures
        header_bytes(name, time, message_size).len() == HEADER_SIZE,
        header_bytes(name, time, message_size).subrange(0, 4) == name,
        be_value(header_bytes(name, time, message_size).subrange(4, 10)) == time
            % 0x1_0000_0000_0000,
        be_value(header_bytes(name, time, message_size).subrange(10, 12)) == message_size
            % 0x1_0000,
{
    let header = header_bytes(name, time, message_size);
    lemma_be_bytes_len(time, 6);
    lemma_be_bytes_len(message_size, 2);
    lemma_be_value_of_bytes(time, 6);
    lemma_be_value_of_bytes(message_size, 2);
    lemma_radix_values();
    assert(header.subrange(0, 4) =~= name);
    assert(header.subrange(4, 10) =~= be_bytes(time, 6));
    assert(header.subrange(10, 12) =~= be_bytes(message_size, 2));
}

/// A record is its header, then its payload: it is `HEADER_SIZE` bytes
/// longer than the payload, and the payload stands whole behind the header.
pub proof fn lemma_record_layout(name: Seq<u8>, time: nat, payload: Seq<u8>)
    requires
        name.len() == 4,
    ensures
        record_bytes(name, time, payload).len() == HEADER_SIZE + payload.len(),
        record_bytes(name, time, payload).take(HEADER_SIZE as int) == header_bytes(
            name,
            time,
            payload.len(),
        ),
        record_bytes(name, time, payload).skip(HEADER_SIZE as int) == payload,
{
    lemma_header_fields(name, time, payload.len());
    let record = record_bytes(name, time, payload);
    assert(record.take(HEADER_SIZE as int) =~= header_bytes(name, time, payload.len()));
    assert(record.skip(HEADER_SIZE as int) =~= payload);
}

/// What a flush of the telemetry buffer hands to the caller.
#[derive(Debug)]
pub struct TelemetryFlush {
    /// The full packet, to send to the telemetry endpoint as it is
    pub packet: Vec<u8>,
    /// The record of the next packet's sequence number, to append to the log
    pub log_record: Vec<u8>,
}

/// Flight Computer IO.
///
/// Holds the running count of telemetry packets and the buffer for the
/// partly built one.
#[derive(Debug)]
pub struct FC {
    /// Current count of telemetry messages sent.
    sequence_number: u32,
    /// Buffer of messages to build a telemetry Packet.
    telemetry_buffer: Vec<u8>,
}

impl FC {
    /// The count of telemetry packets flushed so far, which is the sequence
    /// number of the packet being built.
    pub closed spec fn sequence(&self) -> u32 {
        self.sequence_number
    }

    /// The bytes of the packet being built.
    pub closed spec fn buffer(&self) -> Seq<u8> {
        self.telemetry_buffer@
    }

    /// The packet being built begins with its sequence number.
    pub open spec fn wf(&self) -> bool {
        &&& self.buffer().len() >= SEQN_SIZE
        &&& self.buffer().take(SEQN_SIZE as int) == be_bytes(self.sequence() as nat, 4)
    }

    /// The packet being built is no larger than a telemetry packet may be.
    pub open spec fn within_limit(&self) -> bool {
        self.buffer().len() <= P_LIMIT
    }

    /// Takes a datagram apart.
    ///
    /// `datagram` is the bytes of one datagram as they arrived: a big-endian
    /// sequence number, then the message. Returns the sequence number, the
    /// port the datagram came from, the time it arrived and the message, or
    /// nothing for a datagram too short to hold a sequence number.
    pub fn listen(&self, datagram: &[u8], recv_port: u16, recv_time: u64) -> (out: Option<
        (u32, u16, u64, Vec<u8>),
    >)
        ensures
            datagram@.len() < SEQN_SIZE ==> out is None,
            datagram@.len() >= SEQN_SIZE ==> {
                &&& out matches Some(parts)
                &&& parts.0 as nat == be_value(datagram@.take(SEQN_SIZE as int))
                &&& parts.1 == recv_port
                &&& parts.2 == recv_time
                &&& parts.3@ == datagram@.skip(SEQN_SIZE as int)
            },
    {
        let received: usize = datagram.len();
        if received < SEQN_SIZE {
            return None;
        }
        // First 4 bytes are the sequence number
        let seqn = read_u32(datagram);

        // Rest of the bytes are the message
        let mut message: Vec<u8> = Vec::new();
        message.extend_from_slice(&datagram[SEQN_SIZE..received]);
        assert(message@ =~= datagram@.skip(SEQN_SIZE as int));

        Some((seqn, recv_port, recv_time, message))
    }

    /// Builds the log record of a message.
    ///
    /// The record is the header for the first `message_size` bytes of
    /// `message`, followed by those bytes. The caller appends it to the log.
    pub fn log_message(
        &self,
        message: &[u8],
        name: [u8; 4],
        time: u64,
        message_size: usize,
    ) -> (record: Vec<u8>)
        requires
            message_size <= message@.len(),
        ensures
            record@ == record_bytes(name@, time as nat, message@.take(message_size as int)),
    {
        let mut record: Vec<u8> = Vec::new();

        // Header:
        let header = pack_header(name, time, message_size);
        record.extend_from_slice(&header);

        // message:
        record.extend_from_slice(&message[0..message_size]);

        assert(record@ =~= record_bytes(
            name@,
            time as nat,
            message@.take(message_size as int),
        ));
        record
    }

    /// Whether queueing a message of `message_size` bytes flushes the
    /// packet being built.
    pub fn flush_due(&self, message_size: usize) -> (due: bool)
        ensures
            due == must_flush(self.buffer().len(), message_size as nat),
    {
        let room: usize = P_LIMIT - HEADER_SIZE;
        let buffered: usize = self.telemetry_buffer.len();
        buffered > room || message_size > room - buffered
    }

    /// Queues a message for the ground.
    ///
    /// Frames the first `message_size` bytes of `message` as a record and
    /// appends it to the packet being built. If the record does not fit under
    /// `P_LIMIT`, the packet is flushed first (see `flush_telemetry`), at
    /// `send_time`, and the record opens the next packet. A record that no
    /// packet has room for is refused, and nothing changes.
    pub fn telemetry(
        &mut self,
        message: &[u8],
        name: [u8; 4],
        time: u64,
        message_size: usize,
        send_time: u64,
    ) -> (queued: Result<Option<TelemetryFlush>, TelemetryError>)
        requires
            message_size <= message@.len(),
            fits_packet(message_size as nat) && must_flush(
                old(self).buffer().len(),
                message_size as nat,
            ) ==> old(self).sequence() < u32::MAX,
        ensures
            !fits_packet(message_size as nat) ==> {
                &&& queued matches Err(error)
                &&& error == TelemetryError::RecordTooLarge
                &&& final(self).sequence() == old(self).sequence()
                &&& final(self).buffer() == old(self).buffer()
            },
            fits_packet(message_size as nat) && must_flush(
                old(self).buffer().len(),
                message_size as nat,
            ) ==> {
                &&& queued matches Ok(Some(flush))
                &&& flush.packet@ == old(self).buffer()
                &&& flush.log_record@ == record_bytes(
                    SEQN_NAME@,
                    send_time as nat,
                    be_bytes((old(self).sequence() + 1) as nat, 4),
                )
                &&& final(self).sequence() == old(self).sequence() + 1
                &&& final(self).buffer() == be_bytes((old(self).sequence() + 1) as nat, 4)
                    + record_bytes(name@, time as nat, message@.take(message_size as int))
            },
            fits_packet(message_size as nat) && !must_flush(
                old(self).buffer().len(),
                message_size as nat,
            ) ==> {
                &&& queued matches Ok(None)
                &&& final(self).sequence() == old(self).sequence()
                &&& final(self).buffer() == old(self).buffer() + record_bytes(
                    name@,
                    time as nat,
                    message@.take(message_size as int),
                )
            },
            old(self).wf() && old(self).within_limit() ==> final(self).wf()
                && final(self).within_limit(),
            queued matches Ok(Some(flush)) ==> {
                &&& flush.packet@.len() > SEQN_SIZE
                &&& old(self).within_limit() ==> flush.packet@.len() <= P_LIMIT
            },
    {
        if message_size > MESSAGE_LIMIT {
            return Err(TelemetryError::RecordTooLarge);
        }
        Ok(self.queue(message, name, time, message_size, send_time))
    }

    /// Queues a message whose record fits a packet: `telemetry` without the
    /// refusal.
    pub(crate) fn queue(
        &mut self,
        message: &[u8],
        name: [u8; 4],
        time: u64,
        message_size: usize,
        send_time: u64,
    ) -> (flushed: Option<TelemetryFlush>)
        requires
            message_size <= message@.len(),
            fits_packet(message_size as nat),
            must_flush(old(self).buffer().len(), message_size as nat) ==> old(self).sequence()
                < u32::MAX,
        ensures
            must_flush(old(self).buffer().len(), message_size as nat) ==> {
                &&& flushed matches Some(flush)
                &&& flush.packet@ == old(self).buffer()
                &&& flush.log_record@ == record_bytes(
                    SEQN_NAME@,
                    send_time as nat,
                    be_bytes((old(self).sequence() + 1) as nat, 4),
                )
                &&& final(self).sequence() == old(self).sequence() + 1
                &&& final(self).buffer() == be_bytes((old(self).sequence() + 1) as nat, 4)
                    + record_bytes(name@, time as nat, message@.take(message_size as int))
            },
            !must_flush(old(self).buffer().len(), message_size as nat) ==> {
                &&& flushed is None
                &&& final(self).sequence() == old(self).sequence()
                &&& final(self).buffer() == old(self).buffer() + record_bytes(
                    name@,
                    time as nat,
                    message@.take(message_size as int),
                )
            },
            old(self).wf() && old(self).within_limit() ==> final(self).wf()
                && final(self).within_limit(),
            flushed matches Some(flush) ==> {
                &&& flush.packet@.len() > SEQN_SIZE
                &&& old(self).within_limit() ==> flush.packet@.len() <= P_LIMIT
            },
    {
        // If we won't have room in the current packet, flush
        let flushed = if self.flush_due(message_size) {
            Some(self.flush_telemetry(send_time))
        } else {
            None
        };

        // Header:
        let header = pack_header(name, time, message_size);
        self.telemetry_buffer.extend_from_slice(&header);

        // Message:
        self.telemetry_buffer.extend_from_slice(&message[0..message_size]);

        proof {
            let record = record_bytes(name@, time as nat, message@.take(message_size as int));
            lemma_record_layout(name@, time as nat, message@.take(message_size as int));
            if must_flush(old(self).buffer().len(), message_size as nat) {
                let lead = be_bytes((old(self).sequence() + 1) as nat, 4);
                lemma_be_bytes_len((old(self).sequence() + 1) as nat, 4);
                assert(self.telemetry_buffer@ =~= lead + record);
                assert((lead + record).take(SEQN_SIZE as int) =~= lead);
            } else {
                assert(self.telemetry_buffer@ =~= old(self).buffer() + record);
                if old(self).wf() {
                    assert((old(self).buffer() + record).take(SEQN_SIZE as int) =~= old(
                        self,
                    ).buffer().take(SEQN_SIZE as int));
                }
            }
        }
        flushed
    }

    /// Closes the packet being built and sets up the next one.
    ///
    /// Hands out the packet as it stands, whatever it holds, advances the
    /// sequence number, and starts the next packet with nothing but the new
    /// number. Also hands out the log record of that number, stamped
    /// `send_time`, so that the log tells which packets were ever sent.
    pub fn flush_telemetry(&mut self, send_time: u64) -> (flush: TelemetryFlush)
        requires
            old(self).sequence() < u32::MAX,
        ensures
            flush.packet@ == old(self).buffer(),
            flush.log_record@ == record_bytes(
                SEQN_NAME@,
                send_time as nat,
                be_bytes(final(self).sequence() as nat, 4),
            ),
            final(self).sequence() == old(self).sequence() + 1,
            final(self).buffer() == be_bytes(final(self).sequence() as nat, 4),
            final(self).buffer().len() == SEQN_SIZE,
            final(self).wf(),
            final(self).within_limit(),
            old(self).within_limit() ==> flush.packet@.len() <= P_LIMIT,
    {
        // Increment SEQN
        self.sequence_number += 1;

        // Prepend with next sequence number
        let mut seqn = [0u8; 4];
        write_u32(&mut seqn, self.sequence_number);

        // Start telemetry buffer over
        let mut next: Vec<u8> = Vec::with_capacity(P_LIMIT);
        next.extend_from_slice(&seqn);
        core::mem::swap(&mut self.telemetry_buffer, &mut next);

        // Keep track of sequence numbers in the flight computer log too
        let log_record = self.log_message(&seqn, SEQN_NAME, send_time, 4);

        proof {
            lemma_be_bytes_len(self.sequence_number as nat, 4);
            assert(seqn@ =~= be_bytes(self.sequence_number as nat, 4));
            assert(self.telemetry_buffer@ =~= seqn@);
            assert(seqn@.take(4) =~= seqn@);
        }
        TelemetryFlush { packet: next, log_record }
    }

    /// Current count of telemetry packets sent.
    pub fn sequence_number(&self) -> (n: u32)
        ensures
            n == self.sequence(),
    {
        self.sequence_number
    }

    /// The bytes of the telemetry packet being built.
    pub fn telemetry_buffer(&self) -> (bytes: &[u8])
        ensures
            bytes@ == self.buffer(),
    {
        self.telemetry_buffer.as_slice()
    }
}

impl Default for FC {
    /// The state at boot: no packet sent, and the first packet holding its
    /// sequence number (always 0) and nothing else.
    fn default() -> (fc: FC)
        ensures
            fc.sequence() == 0,
            fc.buffer() == seq![0u8, 0u8, 0u8, 0u8],
            fc.wf(),
            fc.within_limit(),
    {
        // Put first sequence number (always 0) in the telemetry buffer.
        let mut telemetry_buffer: Vec<u8> = Vec::with_capacity(P_LIMIT);
        let zero: [u8; 4] = [0, 0, 0, 0];
        telemetry_buffer.extend_from_slice(&zero);
        proof {
            reveal_with_fuel(be_bytes, 5);
            assert(telemetry_buffer@ =~= seq![0u8, 0u8, 0u8, 0u8]);
            assert(telemetry_buffer@.take(4) =~= be_bytes(0, 4));
        }
        FC { sequence_number: 0, telemetry_buffer }
    }
}

/// A sequence error message.
///
/// When we miss a packet or get an out of order packet we should log that
/// for future analysis. This stores an error and builds a log-able message.
#[derive(Clone, Copy, Debug, PartialEq, Eq, Structural)]
pub struct SequenceError {
    /// Which port the packet error is from
    pub port: u16,
    /// Expected packet sequence number
    pub expected: u32,
    /// Actual received packet sequence number
    pub received: u32,
}

/// The message of a sequence error: port, expected and received sequence
/// number, each big-endian.
pub open spec fn sequence_error_bytes(error: SequenceError) -> Seq<u8> {
    be_bytes(error.port as nat, 2) + be_bytes(error.expected as nat, 4) + be_bytes(
        error.received as nat,
        4,
    )
}

impl SequenceError {
    /// Return a copy of this struct as a byte array.
    ///
    /// The PSAS file and message type is always a byte array with big-endian
    /// representation of fields in a struct.
    pub fn as_message(&self) -> (message: [u8; SIZE_OF_SEQE])
        ensures
            message@ == sequence_error_bytes(*self),
    {
        let mut buffer = [0u8; SIZE_OF_SEQE];
        let mut half = [0u8; 2];
        let mut word = [0u8; 4];

        // Struct Fields:
        write_u16(&mut half, self.port);
        copy_into(&mut buffer, 0, &half);
        write_u32(&mut word, self.expected);
        copy_into(&mut buffer, 2, &word);
        write_u32(&mut word, self.received);
        copy_into(&mut buffer, 6, &word);

        proof {
            lemma_be_bytes_len(self.port as nat, 2);
            lemma_be_bytes_len(self.expected as nat, 4);
            lemma_be_bytes_len(self.received as nat, 4);
            assert(buffer@ =~= sequence_error_bytes(*self));
        }
        buffer
    }
}

} // verus!
