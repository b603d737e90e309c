//! Driver-side support for the Adafruit Circuit Playground board: the
//! vendor command set it speaks on top of the Firmata serial protocol,
//! the board's calibration constants, and the serial link setup.

pub mod link;
pub mod protocol;
pub mod sensors;
