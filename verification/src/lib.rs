//! The core of a small rocket flight computer: the wire codec for sensor,
//! state and sequence-error messages, sequence tracking, the bookkeeping of
//! the state estimator, and the framing of log and telemetry records.
//!
//! Physical quantities are 64-bit floating point numbers on the wire. This
//! library never computes with them: it carries each one as its IEEE-754
//! bit pattern in a `u64`, and the sensor's readings as the raw 16-bit
//! counts, so that every function here is exact and can be proved.

pub mod bigendian;
pub mod clock;
pub mod devices;
pub mod error;
pub mod executive;
pub mod io;
pub mod sequence;
pub mod state;
