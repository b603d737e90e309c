//! Calibration constants for the board's peripherals, and the rule
//! that turns a raw capacitive reading into a touch.

use vstd::prelude::*;

verus! {

/// Analog input connected to the thermistor.
pub const THERM_PIN: u8 = 0;

/// Resistance, in ohms, of the resistor in series with the thermistor.
pub const THERM_SERIES_OHMS: u64 = 10000;

/// Thermistor resistance, in ohms, at the nominal temperature.
pub const THERM_NOMINAL_OHMS: u64 = 10000;

/// Thermistor temperature, in degrees Celsius, at the nominal resistance.
pub const THERM_NOMINAL_C: u64 = 25;

/// Thermistor beta coefficient.
pub const THERM_BETA: u64 = 3950;

/// Raw capacitive reading above which an input counts as touched.
pub const CAP_THRESHOLD: u64 = 300;

/// Whether a raw capacitive reading counts as a touch: true exactly
/// when the reading is above [`CAP_THRESHOLD`].
pub fn cap_touched(raw: u64) -> (r: bool)
    ensures
        r == (raw > CAP_THRESHOLD),
{
    raw > CAP_THRESHOLD
}

} // verus!
