use circuit_playground::link::{line_settings, CircuitPlayground, ConnectError};

#[test]
fn line_settings_are_57600_8n1_no_flow() {
    let expected = serial::core::PortSettings {
        baud_rate: serial::core::BaudRate::Baud57600,
        char_size: serial::core::CharSize::Bits8,
        parity: serial::core::Parity::ParityNone,
        stop_bits: serial::core::StopBits::Stop1,
        flow_control: serial::core::FlowControl::FlowNone,
    };
    assert_eq!(line_settings(), expected);
    assert_eq!(serial::core::BaudRate::Baud57600.speed(), 57600);
}

#[test]
fn open_missing_port_is_a_connection_error() {
    let r = CircuitPlayground::new("/dev/tty-that-does-not-exist");
    match r {
        Ok(_) => panic!("a missing device must not open"),
        Err(e) => assert_eq!(e, ConnectError::PortOpen),
    }
}

#[test]
fn open_invalid_name_is_a_connection_error() {
    let r = CircuitPlayground::new("");
    match r {
        Ok(_) => panic!("an empty device name must not open"),
        Err(e) => assert_eq!(e, ConnectError::PortOpen),
    }
}
