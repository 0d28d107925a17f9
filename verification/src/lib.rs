//! Decision logic of a car dashboard driven over a serial Modbus-like link.

pub mod common;
pub mod crc;
pub mod modbus;
pub mod dashboard;
pub mod pins;
