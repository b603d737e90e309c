//! Opening and configuring the serial link to the board.
//!
//! The line parameters the board expects are stated here as a verified
//! value; only the two calls that touch the device are trusted.

use vstd::prelude::*;

verus! {

#[verifier::external_type_specification]
#[verifier::external_body]
pub struct ExTtyPort(serial::unix::TTYPort);

#[verifier::external_type_specification]
#[verifier::external_body]
pub struct ExSerialError(serial::core::Error);

#[verifier::external_type_specification]
pub struct ExBaudRate(serial::core::BaudRate);

#[verifier::external_type_specification]
pub struct ExCharSize(serial::core::CharSize);

#[verifier::external_type_specification]
pub struct ExParity(serial::core::Parity);

#[verifier::external_type_specification]
pub struct ExStopBits(serial::core::StopBits);

#[verifier::external_type_specification]
pub struct ExFlowControl(serial::core::FlowControl);

#[verifier::external_type_specification]
pub struct ExPortSettings(serial::core::PortSettings);

/// The line parameters the board expects: 57600 baud, eight data bits,
/// no parity, one stop bit, no flow control.
pub open spec fn spec_line_settings() -> serial::core::PortSettings {
    serial::core::PortSettings {
        baud_rate: serial::core::BaudRate::Baud57600,
        char_size: serial::core::CharSize::Bits8,
        parity: serial::core::Parity::ParityNone,
        stop_bits: serial::core::StopBits::Stop1,
        flow_control: serial::core::FlowControl::FlowNone,
    }
}

/// Build the line settings the board expects.
pub fn line_settings() -> (r: serial::core::PortSettings)
    ensures
        r == spec_line_settings(),
{
    serial::core::PortSettings {
        baud_rate: serial::core::BaudRate::Baud57600,
        char_size: serial::core::CharSize::Bits8,
        parity: serial::core::Parity::ParityNone,
        stop_bits: serial::core::StopBits::Stop1,
        flow_control: serial::core::FlowControl::FlowNone,
    }
}

/// Relies on serial::open (serial 0.4): opens the named serial device,
/// Err (NoDevice, InvalidInput or Io) if it cannot be opened and
/// initialized, for instance because it is missing or busy.
#[verifier::external_body]
fn open_port(port_id: &str) -> Result<serial::unix::TTYPort, serial::core::Error> {
    serial::open(port_id)
}

/// Relies on serial_core::SerialPort::configure (serial-core 0.4):
/// applies the given settings to the device, Err (NoDevice,
/// InvalidInput or Io) if the hardware does not take them.
#[verifier::external_body]
fn configure_port(
    port: &mut serial::unix::TTYPort,
    settings: &serial::core::PortSettings,
) -> Result<(), serial::core::Error> {
    serial::core::SerialPort::configure(port, settings)
}

/// A failure to establish the connection to the board.
#[derive(Clone, Copy, Debug, PartialEq, Eq, Structural)]
pub enum ConnectError {
    /// The serial device could not be opened or configured.
    PortOpen,
    /// The device did not complete the Firmata handshake.
    Handshake,
}

/// A Circuit Playground reached over an open serial device that was
/// configured with the line parameters the board expects.
pub struct CircuitPlayground {
    port: serial::unix::TTYPort,
}

impl CircuitPlayground {
    /// Open the named serial device and configure it with
    /// [`spec_line_settings`]. Both failure kinds of this stage, a
    /// device that cannot be opened and a device that refuses the
    /// configuration, come back as [`ConnectError::PortOpen`], and a
    /// failed attempt keeps nothing open.
    pub fn new(port_id: &str) -> (r: Result<CircuitPlayground, ConnectError>)
        ensures
            r matches Err(e) ==> e is PortOpen,
    {
        match open_port(port_id) {
            Ok(mut port) => {
                let settings = line_settings();
                match configure_port(&mut port, &settings) {
                    Ok(_) => Ok(CircuitPlayground { port }),
                    Err(_) => Err(ConnectError::PortOpen),
                }
            },
            Err(_) => Err(ConnectError::PortOpen),
        }
    }

    /// Give up the handle and hand back the underlying device, for a
    /// caller that drives the Firmata session itself.
    pub fn into_port(self) -> serial::unix::TTYPort {
        self.port
    }
}

} // verus!
