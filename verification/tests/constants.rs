use circuit_playground::sensors::{
    cap_touched, CAP_THRESHOLD, THERM_BETA, THERM_NOMINAL_C, THERM_NOMINAL_OHMS, THERM_PIN,
    THERM_SERIES_OHMS,
};

#[test]
fn thermistor_constants() {
    assert_eq!(THERM_PIN, 0);
    assert_eq!(THERM_SERIES_OHMS, 10000);
    assert_eq!(THERM_NOMINAL_OHMS, 10000);
    assert_eq!(THERM_NOMINAL_C, 25);
    assert_eq!(THERM_BETA, 3950);
}

#[test]
fn thermistor_constants_as_floats() {
    assert_eq!(THERM_SERIES_OHMS as f64, 10000.0);
    assert_eq!(THERM_NOMINAL_OHMS as f64, 10000.0);
    assert_eq!(THERM_NOMINAL_C as f64, 25.0);
    assert_eq!(THERM_BETA as f64, 3950.0);
}

#[test]
fn cap_touch_threshold() {
    assert_eq!(CAP_THRESHOLD, 300);
}

#[test]
fn cap_touch_rule() {
    assert!(!cap_touched(0));
    assert!(!cap_touched(299));
    assert!(!cap_touched(300));
    assert!(cap_touched(301));
    assert!(cap_touched(u64::MAX));
}
