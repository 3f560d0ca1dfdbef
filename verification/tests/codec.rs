use byteorder::{BigEndian, ByteOrder};
use rust_fc::devices::{recv_adis, ADIS, ADIS_FIELD_BYTES, ADIS_NAME, SIZE_OF_ADIS};
use rust_fc::error::DecodeError;
use rust_fc::io::{pack_header, SequenceError, HEADER_SIZE, SEQE_NAME, SEQN_NAME, SIZE_OF_SEQE};
use rust_fc::state::{State, LAUNCH_SITE_ALTITUDE, SIZE_OF_STATE, STATE_NAME};

fn sample_message() -> Vec<u8> {
    vec![
        0x00, 0x01, // vcc = 1
        0xFF, 0xFF, // gyro_x = -1
        0x7F, 0xFF, // gyro_y = 32767
        0x80, 0x00, // gyro_z = -32768
        0x01, 0x00, // acc_x = 256
        0xFE, 0xD4, // acc_y = -300
        0x12, 0x34, // acc_z = 4660
        0x00, 0x00, // magn_x = 0
        0xEC, 0x78, // magn_y = -5000
        0x13, 0x88, // magn_z = 5000
        0x00, 0x19, // temp = 25
    ]
}

fn sample_reading() -> ADIS {
    ADIS {
        vcc: 1,
        gyro_x: -1,
        gyro_y: 32767,
        gyro_z: -32768,
        acc_x: 256,
        acc_y: -300,
        acc_z: 4660,
        magn_x: 0,
        magn_y: -5000,
        magn_z: 5000,
        temp: 25,
    }
}

#[test]
fn sizes_and_names() {
    assert_eq!(SIZE_OF_ADIS, 24);
    assert_eq!(ADIS_FIELD_BYTES, 22);
    assert_eq!(SIZE_OF_STATE, 48);
    assert_eq!(SIZE_OF_SEQE, 10);
    assert_eq!(HEADER_SIZE, 12);
    assert_eq!(&ADIS_NAME, b"ADIS");
    assert_eq!(&STATE_NAME, b"STAT");
    assert_eq!(&SEQE_NAME, b"SEQE");
    assert_eq!(&SEQN_NAME, b"SEQN");
}

#[test]
fn recv_adis_reads_each_field_in_order() {
    assert_eq!(recv_adis(&sample_message()), Ok(sample_reading()));
}

#[test]
fn recv_adis_is_deterministic() {
    let message = sample_message();
    let first = recv_adis(&message);
    let second = recv_adis(&message);
    assert_eq!(first, second);
    assert!(first.is_ok());
}

#[test]
fn recv_adis_ignores_what_follows_the_fields() {
    let mut long = sample_message();
    long.extend_from_slice(&[0xAB, 0xCD]);
    assert_eq!(long.len(), SIZE_OF_ADIS);
    assert_eq!(recv_adis(&long), Ok(sample_reading()));
    long.extend_from_slice(&[0x55; 1404]);
    assert_eq!(recv_adis(&long), Ok(sample_reading()));
}

#[test]
fn recv_adis_rejects_short_messages() {
    let message = sample_message();
    for len in 0..22 {
        assert_eq!(recv_adis(&message[..len]), Err(DecodeError::TruncatedMessage));
    }
    assert!(recv_adis(&message[..22]).is_ok());
}

#[test]
fn recv_adis_agrees_with_byteorder() {
    let mut message = [0u8; 22];
    let values: [i16; 11] = [-7, 1234, -1234, 0, 1, -1, i16::MAX, i16::MIN, 300, -300, 42];
    for (k, value) in values.iter().enumerate() {
        BigEndian::write_i16(&mut message[2 * k..], *value);
    }
    let adis = recv_adis(&message).unwrap();
    assert_eq!(
        [
            adis.vcc, adis.gyro_x, adis.gyro_y, adis.gyro_z, adis.acc_x, adis.acc_y, adis.acc_z,
            adis.magn_x, adis.magn_y, adis.magn_z, adis.temp
        ],
        values
    );
}

#[test]
fn pack_header_layout() {
    let header = pack_header(ADIS_NAME, 0x0000_0304_0506_0708, 24);
    assert_eq!(
        header,
        [65, 68, 73, 83, 0x03, 0x04, 0x05, 0x06, 0x07, 0x08, 0x00, 0x18]
    );
}

#[test]
fn pack_header_zero() {
    assert_eq!(
        pack_header(SEQN_NAME, 0, 4),
        [83, 69, 81, 78, 0, 0, 0, 0, 0, 0, 0, 4]
    );
}

#[test]
fn pack_header_one_second() {
    // 1 s = 1_000_000_000 ns = 0x3B9ACA00
    assert_eq!(
        pack_header(STATE_NAME, 1_000_000_000, 48),
        [83, 84, 65, 84, 0x00, 0x00, 0x3B, 0x9A, 0xCA, 0x00, 0x00, 0x30]
    );
}

#[test]
fn pack_header_truncates_time_to_six_bytes() {
    let header = pack_header(ADIS_NAME, 0x0102_0304_0506_0708, 24);
    assert_eq!(&header[4..10], &[0x03, 0x04, 0x05, 0x06, 0x07, 0x08]);
    let header = pack_header(ADIS_NAME, u64::MAX, 24);
    assert_eq!(&header[4..10], &[0xFF; 6]);
    let header = pack_header(ADIS_NAME, 1 << 48, 24);
    assert_eq!(&header[4..10], &[0; 6]);
}

#[test]
fn pack_header_truncates_size_to_two_bytes() {
    let header = pack_header(ADIS_NAME, 0, 0x1_2345);
    assert_eq!(&header[10..12], &[0x23, 0x45]);
    let header = pack_header(ADIS_NAME, 0, 0xFFFF);
    assert_eq!(&header[10..12], &[0xFF, 0xFF]);
    let header = pack_header(ADIS_NAME, 0, 0x1_0000);
    assert_eq!(&header[10..12], &[0, 0]);
}

#[test]
fn sequence_error_as_message_layout() {
    let seqerror = SequenceError {
        port: 35020,
        expected: 12345,
        received: 12349,
    };
    assert_eq!(
        seqerror.as_message(),
        [0x88, 0xCC, 0x00, 0x00, 0x30, 0x39, 0x00, 0x00, 0x30, 0x3D]
    );
}

#[test]
fn sequence_error_as_message_extremes() {
    let seqerror = SequenceError {
        port: u16::MAX,
        expected: u32::MAX,
        received: 0,
    };
    assert_eq!(
        seqerror.as_message(),
        [0xFF, 0xFF, 0xFF, 0xFF, 0xFF, 0xFF, 0, 0, 0, 0]
    );
    let seqerror = SequenceError {
        port: 1,
        expected: 0x0102_0304,
        received: 0xA0B0_C0D0,
    };
    assert_eq!(
        seqerror.as_message(),
        [0x00, 0x01, 0x01, 0x02, 0x03, 0x04, 0xA0, 0xB0, 0xC0, 0xD0]
    );
}

fn state_of_floats(time: u64, values: [f64; 5]) -> State {
    State {
        time,
        acc_up: values[0].to_bits(),
        vel_up: values[1].to_bits(),
        altitude: values[2].to_bits(),
        roll_rate: values[3].to_bits(),
        roll_angle: values[4].to_bits(),
    }
}

#[test]
fn state_default_is_the_launch_site() {
    let state = State::default();
    assert_eq!(state.time, 0);
    assert_eq!(f64::from_bits(state.acc_up), 0.0);
    assert_eq!(f64::from_bits(state.vel_up), 0.0);
    assert_eq!(f64::from_bits(state.altitude), 1390.0);
    assert_eq!(f64::from_bits(state.roll_rate), 0.0);
    assert_eq!(f64::from_bits(state.roll_angle), 0.0);
    assert_eq!(LAUNCH_SITE_ALTITUDE, 1390.0f64.to_bits());
}

#[test]
fn state_as_message_layout() {
    let state = state_of_floats(0x0102_0304_0506_0708, [1.0, -2.0, 1390.0, 0.5, 0.0]);
    let message = state.as_message();
    let mut expected = Vec::new();
    expected.extend_from_slice(&[0x01, 0x02, 0x03, 0x04, 0x05, 0x06, 0x07, 0x08]);
    expected.extend_from_slice(&[0x3F, 0xF0, 0, 0, 0, 0, 0, 0]);
    expected.extend_from_slice(&[0xC0, 0x00, 0, 0, 0, 0, 0, 0]);
    expected.extend_from_slice(&[0x40, 0x95, 0xB8, 0, 0, 0, 0, 0]);
    expected.extend_from_slice(&[0x3F, 0xE0, 0, 0, 0, 0, 0, 0]);
    expected.extend_from_slice(&[0; 8]);
    assert_eq!(message.to_vec(), expected);
}

#[test]
fn state_as_message_agrees_with_byteorder() {
    let values = [-9.80665, 123.456, 1390.0 + 0.5, 1e-300, f64::MAX];
    let state = state_of_floats(987_654_321_012, values);
    let mut expected = [0u8; 48];
    BigEndian::write_u64(&mut expected[0..8], state.time);
    for (k, value) in values.iter().enumerate() {
        BigEndian::write_f64(&mut expected[8 + 8 * k..], *value);
    }
    assert_eq!(state.as_message(), expected);
}

#[test]
fn state_round_trip() {
    let states = [
        State::default(),
        state_of_floats(1, [0.1, 0.2, 0.3, 0.4, 0.5]),
        state_of_floats(u64::MAX, [f64::MIN, f64::MAX, f64::EPSILON, -0.0, 1e308]),
        state_of_floats(42, [f64::INFINITY, f64::NEG_INFINITY, f64::NAN, 0.0, -1.5]),
        State { time: 7, acc_up: u64::MAX, vel_up: 1, altitude: 2, roll_rate: 3, roll_angle: 4 },
    ];
    for state in states.iter() {
        let message = state.as_message();
        let back = State::from_message(&message).unwrap();
        assert_eq!(&back, state);
        assert_eq!(back.as_message(), message);
    }
}

#[test]
fn message_round_trip() {
    let mut message = [0u8; 48];
    for (i, byte) in message.iter_mut().enumerate() {
        *byte = (i * 37 + 11) as u8;
    }
    let state = State::from_message(&message).unwrap();
    assert_eq!(state.as_message(), message);
    assert_eq!(state.time, 0x0B30_557A_9FC4_E90E);
}

#[test]
fn state_from_message_ignores_what_follows() {
    let state = state_of_floats(5, [1.0, 2.0, 3.0, 4.0, 5.0]);
    let mut long = state.as_message().to_vec();
    long.extend_from_slice(&[9, 9, 9]);
    assert_eq!(State::from_message(&long), Ok(state));
}

#[test]
fn state_from_message_rejects_short_messages() {
    let message = State::default().as_message();
    assert_eq!(State::from_message(&message[..47]), Err(DecodeError::TruncatedMessage));
    assert_eq!(State::from_message(&[]), Err(DecodeError::TruncatedMessage));
    assert!(State::from_message(&message[..48]).is_ok());
}

#[test]
fn copy_into_overwrites_a_window() {
    let mut buffer = [1u8, 2, 3, 4, 5, 6, 7, 8];
    rust_fc::bigendian::copy_into(&mut buffer, 2, &[0xAA, 0xBB, 0xCC]);
    assert_eq!(buffer, [1, 2, 0xAA, 0xBB, 0xCC, 6, 7, 8]);
    rust_fc::bigendian::copy_into(&mut buffer, 8, &[]);
    assert_eq!(buffer, [1, 2, 0xAA, 0xBB, 0xCC, 6, 7, 8]);
    rust_fc::bigendian::copy_into(&mut buffer, 0, &[9; 8]);
    assert_eq!(buffer, [9; 8]);
}
