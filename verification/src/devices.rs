//! Device messages: the ADIS inertial measurement unit.
//!
//! An ADIS message is eleven big-endian signed 16-bit fields in a fixed
//! order, optionally followed by bytes that the decoder ignores.

use crate::bigendian::{be_value, copy_into, read_i16, signed16};
use crate::error::DecodeError;
use vstd::prelude::*;

verus! {

/// ADIS message size (bytes), as it is logged and relayed.
pub const SIZE_OF_ADIS: usize = 24;

/// Number of leading bytes of an ADIS message that hold its eleven fields.
pub const ADIS_FIELD_BYTES: usize = 22;

/// ADIS message name (ASCII: ADIS)
pub const ADIS_NAME: [u8; 4] = [65, 68, 73, 83];

/// One reading of the ADIS IMU, in raw sensor counts.
///
/// Each field is the signed 16-bit number that the sensor put on the wire.
/// One count is 2.418 mV of supply voltage, 0.05 deg/s of angular rate,
/// 3.33 mg of acceleration or 50 nT of magnetic field; the temperature is
/// 0.14 K per count above 299.15 K.
#[derive(Clone, Copy, Debug, PartialEq, Eq, Structural)]
pub struct ADIS {
    /// Supply voltage of the IMU
    pub vcc: i16,
    /// X-axis rate-gyro
    pub gyro_x: i16,
    /// Y-axis rate-gyro
    pub gyro_y: i16,
    /// Z-axis rate-gyro
    pub gyro_z: i16,
    /// X-axis accelerometer
    pub acc_x: i16,
    /// Y-axis accelerometer
    pub acc_y: i16,
    /// Z-axis accelerometer
    pub acc_z: i16,
    /// X-axis magnetometer
    pub magn_x: i16,
    /// Y-axis magnetometer
    pub magn_y: i16,
    /// Z-axis magnetometer
    pub magn_z: i16,
    /// Temperature of the IMU
    pub temp: i16,
}

/// The `k`-th field of an ADIS message: the two bytes at offset `2 * k`,
/// read as a big-endian two's-complement number.
pub open spec fn adis_field(message: Seq<u8>, k: int) -> int {
    signed16(be_value(message.subrange(2 * k, 2 * k + 2)))
}

/// The reading that an ADIS message of at least `ADIS_FIELD_BYTES` bytes
/// carries.
pub open spec fn adis_of(message: Seq<u8>) -> ADIS {
    ADIS {
        vcc: adis_field(message, 0) as i16,
        gyro_x: adis_field(message, 1) as i16,
        gyro_y: adis_field(message, 2) as i16,
        gyro_z: adis_field(message, 3) as i16,
        acc_x: adis_field(message, 4) as i16,
        acc_y: adis_field(message, 5) as i16,
        acc_z: adis_field(message, 6) as i16,
        magn_x: adis_field(message, 7) as i16,
        magn_y: adis_field(message, 8) as i16,
        magn_z: adis_field(message, 9) as i16,
        temp: adis_field(message, 10) as i16,
    }
}

/// Reads the `k`-th field of an ADIS message.
fn read_field(message: &[u8], k: usize) -> (n: i16)
    requires
        k < 11,
        message@.len() >= ADIS_FIELD_BYTES,
    ensures
        n as int == adis_field(message@, k as int),
{
    let field = &message[2 * k..2 * k + 2];
    assert(field@.take(2) =~= field@);
    read_i16(field)
}

/// Read an ADIS message from raw bytes.
///
/// Unwraps a byte array (network endianness) into the fields of the ADIS
/// data type. Bytes after the eleventh field are ignored; a buffer too short
/// to hold all eleven fields is rejected whole.
pub fn recv_adis(message_buffer: &[u8]) -> (r: Result<ADIS, DecodeError>)
    ensures
        message_buffer@.len() < ADIS_FIELD_BYTES ==> r == Err::<ADIS, DecodeError>(
            DecodeError::TruncatedMessage,
        ),
        message_buffer@.len() >= ADIS_FIELD_BYTES ==> r == Ok::<ADIS, DecodeError>(
            adis_of(message_buffer@),
        ),
{
    if message_buffer.len() < ADIS_FIELD_BYTES {
        return Err(DecodeError::TruncatedMessage);
    }
    Ok(
        ADIS {
            vcc: read_field(message_buffer, 0),
            gyro_x: read_field(message_buffer, 1),
            gyro_y: read_field(message_buffer, 2),
            gyro_z: read_field(message_buffer, 3),
            acc_x: read_field(message_buffer, 4),
            acc_y: read_field(message_buffer, 5),
            acc_z: read_field(message_buffer, 6),
            magn_x: read_field(message_buffer, 7),
            magn_y: read_field(message_buffer, 8),
            magn_z: read_field(message_buffer, 9),
            temp: read_field(message_buffer, 10),
        },
    )
}

/// The ADIS message that a datagram's payload carries: its first
/// `SIZE_OF_ADIS` bytes, with zeros for those that a shorter payload lacks.
pub open spec fn adis_message_of(payload: Seq<u8>) -> Seq<u8> {
    Seq::new(
        SIZE_OF_ADIS as nat,
        |i: int|
            if i < payload.len() {
                payload[i]
            } else {
                0u8
            },
    )
}

/// Cuts or zero-extends a payload to the fixed size of an ADIS message, as
/// it is logged and relayed.
pub fn adis_message(payload: &[u8]) -> (message: [u8; SIZE_OF_ADIS])
    ensures
        message@ == adis_message_of(payload@),
{
    let mut message = [0u8; SIZE_OF_ADIS];
    let held: usize = if payload.len() < SIZE_OF_ADIS {
        payload.len()
    } else {
        SIZE_OF_ADIS
    };
    copy_into(&mut message, 0, &payload[0..held]);
    assert(message@ =~= adis_message_of(payload@));
    message
}

/// A payload and its ADIS message carry the same reading: cutting and
/// zero-extending leave the eleven fields alone.
pub proof fn lemma_adis_message_keeps_reading(payload: Seq<u8>)
    requires
        payload.len() >= ADIS_FIELD_BYTES,
    ensures
        adis_message_of(payload).len() == SIZE_OF_ADIS,
        adis_of(adis_message_of(payload)) == adis_of(payload),
{
    assert(adis_message_of(payload).take(ADIS_FIELD_BYTES as int) =~= payload.take(
        ADIS_FIELD_BYTES as int,
    ));
    lemma_adis_ignores_trailing_bytes(adis_message_of(payload), payload);
}

/// Decoding looks at the first `ADIS_FIELD_BYTES` bytes and at nothing
/// else: two messages that agree there carry the same reading.
pub proof fn lemma_adis_ignores_trailing_bytes(a: Seq<u8>, b: Seq<u8>)
    requires
        a.len() >= ADIS_FIELD_BYTES,
        b.len() >= ADIS_FIELD_BYTES,
        a.take(ADIS_FIELD_BYTES as int) == b.take(ADIS_FIELD_BYTES as int),
    ensures
        adis_of(a) == adis_of(b),
{
    assert forall|k: int| 0 <= k < 11 implies #[trigger] adis_field(a, k) == adis_field(b, k) by {
        let head_a = a.take(ADIS_FIELD_BYTES as int);
        let head_b = b.take(ADIS_FIELD_BYTES as int);
        assert(a.subrange(2 * k, 2 * k + 2) =~= head_a.subrange(2 * k, 2 * k + 2));
        assert(b.subrange(2 * k, 2 * k + 2) =~= head_b.subrange(2 * k, 2 * k + 2));
    }
}

} // verus!
