//! State Vector
//!
//! Tracking state of the rocket: the time the estimate is valid for, and
//! five physical quantities. The quantities are 64-bit floating point
//! numbers; this module holds each as its IEEE-754 bit pattern, which is
//! what goes on the wire, and leaves the arithmetic on them to the caller.

use crate::bigendian::{
    be_bytes, be_value, copy_into, lemma_be_bytes_len, lemma_be_bytes_of_value,
    lemma_be_value_bound, lemma_be_value_of_bytes, lemma_radix_values, read_u64, write_u64,
};
use crate::error::DecodeError;
use vstd::prelude::*;

verus! {

/// State message size (bytes)
pub const SIZE_OF_STATE: usize = 48;

/// State message name (ASCII: STAT)
pub const STATE_NAME: [u8; 4] = [83, 84, 65, 84];

/// Altitude of the launch site above sea level, 1390 m, as the bit pattern
/// of a 64-bit float.
pub const LAUNCH_SITE_ALTITUDE: u64 = 0x4095_B800_0000_0000;

/// A representation for the current state vector in MKS units.
///
/// Every field but `time` is the bit pattern of a 64-bit float.
#[derive(Clone, Copy, Debug, PartialEq, Eq, Structural)]
pub struct State {
    /// Exact time (nanoseconds from boot) that state-vector is valid for.
    pub time: u64,
    /// Vertical acceleration [m/s^2]
    pub acc_up: u64,
    /// Vertical velocity [m/s]
    pub vel_up: u64,
    /// Altitude above sea level [m]
    pub altitude: u64,
    /// Roll rate [deg/s]
    pub roll_rate: u64,
    /// Roll angle [deg] (zero is initial angle)
    pub roll_angle: u64,
}

/// The state message: the six fields in order, eight bytes each, big-endian.
pub open spec fn state_bytes(state: State) -> Seq<u8> {
    be_bytes(state.time as nat, 8) + be_bytes(state.acc_up as nat, 8) + be_bytes(
        state.vel_up as nat,
        8,
    ) + be_bytes(state.altitude as nat, 8) + be_bytes(state.roll_rate as nat, 8) + be_bytes(
        state.roll_angle as nat,
        8,
    )
}

/// The `k`-th eight-byte field of a state message, as a number.
pub open spec fn state_field(message: Seq<u8>, k: int) -> nat {
    be_value(message.subrange(8 * k, 8 * k + 8))
}

/// The state that a message of at least `SIZE_OF_STATE` bytes carries.
pub open spec fn state_of(message: Seq<u8>) -> State {
    State {
        time: state_field(message, 0) as u64,
        acc_up: state_field(message, 1) as u64,
        vel_up: state_field(message, 2) as u64,
        altitude: state_field(message, 3) as u64,
        roll_rate: state_field(message, 4) as u64,
        roll_angle: state_field(message, 5) as u64,
    }
}

/// The time over which a sample that arrives at `time` is integrated, when
/// the state was last valid at `last`: the nanoseconds between the two if
/// time went forward, and nothing if it did not.
pub open spec fn integration_interval(last: u64, time: u64) -> Option<u64> {
    if time > last {
        Some((time - last) as u64)
    } else {
        None
    }
}

/// Reads the `k`-th field of a state message.
fn read_field(message: &[u8], k: usize) -> (n: u64)
    requires
        k < 6,
        message@.len() >= SIZE_OF_STATE,
    ensures
        n as nat == state_field(message@, k as int),
{
    let field = &message[8 * k..8 * k + 8];
    assert(field@.take(8) =~= field@);
    read_u64(field)
}

impl State {
    /// Update the state based on new IMU data.
    ///
    /// This is expected to be called every time new data is available from
    /// a sensor. `time` is the time that the new data is valid for, and
    /// `acc_up` the net vertical acceleration that it gives. Both are
    /// stored. The result is the time in nanoseconds over which the caller
    /// integrates velocity and altitude; it is `None` when `time` is not
    /// later than the state's own time, and the sample is then not
    /// integrated.
    pub fn update_imu(&mut self, time: u64, acc_up: u64) -> (interval: Option<u64>)
        ensures
            interval == integration_interval(old(self).time, time),
            *final(self) == (State { time, acc_up, ..*old(self) }),
            time >= old(self).time ==> final(self).time >= old(self).time,
    {
        // Copy of last state to use in integration
        let t_last: u64 = self.time;

        // Apply new data
        self.time = time;
        self.acc_up = acc_up;

        if time > t_last {
            Some(time - t_last)
        } else {
            None
        }
    }

    /// Return a copy of this struct as a byte array.
    ///
    /// The PSAS file and message type is always a byte array with big-endian
    /// representation of fields in a struct.
    pub fn as_message(&self) -> (message: [u8; SIZE_OF_STATE])
        ensures
            message@ == state_bytes(*self),
    {
        let mut buffer = [0u8; SIZE_OF_STATE];
        let mut word = [0u8; 8];

        // Struct Fields:
        write_u64(&mut word, self.time);
        copy_into(&mut buffer, 0, &word);
        write_u64(&mut word, self.acc_up);
        copy_into(&mut buffer, 8, &word);
        write_u64(&mut word, self.vel_up);
        copy_into(&mut buffer, 16, &word);
        write_u64(&mut word, self.altitude);
        copy_into(&mut buffer, 24, &word);
        write_u64(&mut word, self.roll_rate);
        copy_into(&mut buffer, 32, &word);
        write_u64(&mut word, self.roll_angle);
        copy_into(&mut buffer, 40, &word);

        proof {
            lemma_state_fields_len(*self);
            assert(buffer@ =~= state_bytes(*self));
        }
        buffer
    }

    /// Reads a state back from its message.
    ///
    /// Bytes after the sixth field are ignored; a buffer too short to hold
    /// all six fields is rejected whole.
    pub fn from_message(message: &[u8]) -> (r: Result<State, DecodeError>)
        ensures
            message@.len() < SIZE_OF_STATE ==> r == Err::<State, DecodeError>(
                DecodeError::TruncatedMessage,
            ),
            message@.len() >= SIZE_OF_STATE ==> r == Ok::<State, DecodeError>(state_of(message@)),
    {
        if message.len() < SIZE_OF_STATE {
            return Err(DecodeError::TruncatedMessage);
        }
        Ok(
            State {
                time: read_field(message, 0),
                acc_up: read_field(message, 1),
                vel_up: read_field(message, 2),
                altitude: read_field(message, 3),
                roll_rate: read_field(message, 4),
                roll_angle: read_field(message, 5),
            },
        )
    }
}

impl Default for State {
    /// Initialize State Vector to Launch Site.
    fn default() -> (state: State)
        ensures
            state == (State {
                time: 0,
                acc_up: 0,
                vel_up: 0,
                altitude: LAUNCH_SITE_ALTITUDE,
                roll_rate: 0,
                roll_angle: 0,
            }),
    {
        State {
            time: 0,
            acc_up: 0,
            vel_up: 0,
            altitude: LAUNCH_SITE_ALTITUDE,
            roll_rate: 0,
            roll_angle: 0,
        }
    }
}

proof fn lemma_state_fields_len(state: State)
    ensures
        be_bytes(state.time as nat, 8).len() == 8,
        be_bytes(state.acc_up as nat, 8).len() == 8,
        be_bytes(state.vel_up as nat, 8).len() == 8,
        be_bytes(state.altitude as nat, 8).len() == 8,
        be_bytes(state.roll_rate as nat, 8).len() == 8,
        be_bytes(state.roll_angle as nat, 8).len() == 8,
        state_bytes(state).len() == SIZE_OF_STATE,
{
    lemma_be_bytes_len(state.time as nat, 8);
    lemma_be_bytes_len(state.acc_up as nat, 8);
    lemma_be_bytes_len(state.vel_up as nat, 8);
    lemma_be_bytes_len(state.altitude as nat, 8);
    lemma_be_bytes_len(state.roll_rate as nat, 8);
    lemma_be_bytes_len(state.roll_angle as nat, 8);
}

proof fn lemma_field_round_trip(n: u64)
    ensures
        be_value(be_bytes(n as nat, 8)) == n,
{
    lemma_be_value_of_bytes(n as nat, 8);
    lemma_radix_values();
}

/// A state message is `SIZE_OF_STATE` bytes long, and decoding it gives the
/// state back, whatever the six fields hold.
pub proof fn lemma_state_round_trip(state: State)
    ensures
        state_bytes(state).len() == SIZE_OF_STATE,
        state_of(state_bytes(state)) == state,
{
    let message = state_bytes(state);
    lemma_state_fields_len(state);
    assert(message.subrange(0, 8) =~= be_bytes(state.time as nat, 8));
    assert(message.subrange(8, 16) =~= be_bytes(state.acc_up as nat, 8));
    assert(message.subrange(16, 24) =~= be_bytes(state.vel_up as nat, 8));
    assert(message.subrange(24, 32) =~= be_bytes(state.altitude as nat, 8));
    assert(message.subrange(32, 40) =~= be_bytes(state.roll_rate as nat, 8));
    assert(message.subrange(40, 48) =~= be_bytes(state.roll_angle as nat, 8));
    lemma_field_round_trip(state.time);
    lemma_field_round_trip(state.acc_up);
    lemma_field_round_trip(state.vel_up);
    lemma_field_round_trip(state.altitude);
    lemma_field_round_trip(state.roll_rate);
    lemma_field_round_trip(state.roll_angle);
}

/// Encoding the state that a message of exactly `SIZE_OF_STATE` bytes
/// carries gives the message back: no two messages carry one state.
pub proof fn lemma_message_round_trip(message: Seq<u8>)
    requires
        message.len() == SIZE_OF_STATE,
    ensures
        state_bytes(state_of(message)) == message,
{
    lemma_radix_values();
    assert forall|k: int| 0 <= k < 6 implies be_bytes(
        (#[trigger] state_field(message, k) as u64) as nat,
        8,
    ) == message.subrange(8 * k, 8 * k + 8) by {
        let field = message.subrange(8 * k, 8 * k + 8);
        lemma_be_value_bound(field);
        lemma_be_bytes_of_value(field);
    }
    assert(state_bytes(state_of(message)) =~= message.subrange(0, 8) + message.subrange(8, 16)
        + message.subrange(16, 24) + message.subrange(24, 32) + message.subrange(32, 40)
        + message.subrange(40, 48));
    assert(message =~= message.subrange(0, 8) + message.subrange(8, 16) + message.subrange(16, 24)
        + message.subrange(24, 32) + message.subrange(32, 40) + message.subrange(40, 48));
}

/// Encoding, decoding and encoding again gives the first encoding.
pub proof fn lemma_encode_decode_encode(state: State)
    ensures
        state_bytes(state_of(state_bytes(state))) == state_bytes(state),
{
    lemma_state_round_trip(state);
}

} // verus!
