//! Driver logic for the AHT10 temperature and humidity sensor.
//!
//! The sensor sits on a two-wire bus at a fixed device address. This crate
//! holds the whole command protocol: opcode encoding, the calibration
//! handshake performed at construction, the status byte semantics, and the
//! unpacking of two 20-bit raw counts from a 7-byte measurement response.
//! The bus transport and the delay source are abstract capabilities that the
//! caller supplies.

pub mod bus;
pub mod codec;
pub mod command;
pub mod driver;
pub mod reading;
pub mod status;

pub use bus::{BusOp, DelayMs, I2c, write_op, write_read_op};
pub use codec::{decode_response, spec_humidity_raw, spec_temperature_raw};
pub use command::{Command, I2C_ADDRESS, encode_command, spec_command_bytes};
pub use driver::{AHT10, Error, spec_init_delays, spec_init_writes, spec_read_request};
pub use reading::{Humidity, RAW_LIMIT, Temperature};
pub use status::StatusFlags;
