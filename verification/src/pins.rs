//! Raspberry Pi (BCM) pin numbers of the car's wiring.

use vstd::prelude::*;

verus! {

pub const MOTOR_DIR1: u8 = 17;
pub const MOTOR_DIR2: u8 = 18;
pub const MOTOR_POT: u8 = 23;
pub const FREIO_INT: u8 = 24;
pub const PEDAL_AC: u8 = 27;
pub const PEDAL_FR: u8 = 22;
pub const SENSOR_HALL_MOTOR: u8 = 11;
pub const SENSOR_HALL_RODA_A: u8 = 5;
pub const SENSOR_HALL_RODA_B: u8 = 6;
pub const FAROL_BAIXO: u8 = 19;
pub const FAROL_ALTO: u8 = 26;
pub const LUZ_FREIO: u8 = 25;
pub const LUZ_SETA_ESQ: u8 = 8;
pub const LUZ_SETA_DIR: u8 = 7;
pub const LUZ_TEMP_MOTOR: u8 = 12;

} // verus!
