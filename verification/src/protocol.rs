//! The Circuit Playground vendor command set: one opcode byte per
//! command, carried as Firmata SysEx data behind a fixed prefix byte.

use vstd::prelude::*;

verus! {

/// Byte that identifies every Circuit Playground command inside a
/// Firmata SysEx frame.
pub const CP_COMMAND: u8 = 0x40;

/// The commands and replies the board understands. Each variant has a
/// fixed single-byte wire value, given by [`opcode_value`].
#[derive(Clone, Copy, Debug, PartialEq, Eq, Structural)]
pub enum Opcode {
    /// Set one NeoPixel: pixel id, then the color as four 7-bit bytes.
    PixelSet,
    /// Update the NeoPixels with their current color values.
    PixelShow,
    /// Clear all NeoPixels to black; takes effect on the next show.
    PixelClear,
    /// Set NeoPixel brightness, one byte with a value 0-100.
    PixelBrightness,
    /// Play a tone: frequency in hz and duration in ms, two 7-bit bytes each.
    Tone,
    /// Stop playing anything on the speaker.
    NoTone,
    /// Ask for the current x, y, z accelerometer values.
    AccelRead,
    /// Ask for the current accelerometer tap state.
    AccelTap,
    /// Reply to an accelerometer read.
    AccelReadReply,
    /// Reply to a tap state read.
    AccelTapReply,
    /// Turn on continuous streaming of tap data.
    AccelTapStreamOn,
    /// Turn off streaming of tap data.
    AccelTapStreamOff,
    /// Turn on continuous streaming of accelerometer data.
    AccelStreamOn,
    /// Turn off streaming of accelerometer data.
    AccelStreamOff,
    /// Set the accelerometer range, one byte chosen by [`AccelRange`].
    AccelRange,
    /// Configure tap detection: click type and click threshold.
    AccelTapConfig,
    /// Read one capacitive input, named by a byte parameter.
    CapRead,
    /// Turn on continuous reads of one capacitive input.
    CapOn,
    /// Turn off continuous reads of one capacitive input.
    CapOff,
    /// Capacitive read response: the input's pin, then its raw value.
    CapReply,
    /// Perform a color sense using the NeoPixel and light sensor.
    SenseColor,
    /// Reply to a color sense: red, green, blue, two 7-bit bytes each.
    SenseColorReply,
    /// Ask for the implementation version: major, minor, bugfix.
    ImplVers,
    /// Reply to an implementation version request.
    ImplVersReply,
}

/// The documented wire value of each opcode.
pub open spec fn opcode_value(op: Opcode) -> u8 {
    match op {
        Opcode::PixelSet => 0x10,
        Opcode::PixelShow => 0x11,
        Opcode::PixelClear => 0x12,
        Opcode::PixelBrightness => 0x13,
        Opcode::Tone => 0x20,
        Opcode::NoTone => 0x21,
        Opcode::AccelRead => 0x30,
        Opcode::AccelTap => 0x31,
        Opcode::AccelReadReply => 0x36,
        Opcode::AccelTapReply => 0x37,
        Opcode::AccelTapStreamOn => 0x38,
        Opcode::AccelTapStreamOff => 0x39,
        Opcode::AccelStreamOn => 0x3A,
        Opcode::AccelStreamOff => 0x3B,
        Opcode::AccelRange => 0x3C,
        Opcode::AccelTapConfig => 0x3D,
        Opcode::CapRead => 0x40,
        Opcode::CapOn => 0x41,
        Opcode::CapOff => 0x42,
        Opcode::CapReply => 0x43,
        Opcode::SenseColor => 0x50,
        Opcode::SenseColorReply => 0x51,
        Opcode::ImplVers => 0x60,
        Opcode::ImplVersReply => 0x61,
    }
}

impl Opcode {
    /// The byte that stands for this command on the wire.
    pub fn value(self) -> (r: u8)
        ensures
            r == opcode_value(self),
    {
        match self {
            Opcode::PixelSet => 0x10,
            Opcode::PixelShow => 0x11,
            Opcode::PixelClear => 0x12,
            Opcode::PixelBrightness => 0x13,
            Opcode::Tone => 0x20,
            Opcode::NoTone => 0x21,
            Opcode::AccelRead => 0x30,
            Opcode::AccelTap => 0x31,
            Opcode::AccelReadReply => 0x36,
            Opcode::AccelTapReply => 0x37,
            Opcode::AccelTapStreamOn => 0x38,
            Opcode::AccelTapStreamOff => 0x39,
            Opcode::AccelStreamOn => 0x3A,
            Opcode::AccelStreamOff => 0x3B,
            Opcode::AccelRange => 0x3C,
            Opcode::AccelTapConfig => 0x3D,
            Opcode::CapRead => 0x40,
            Opcode::CapOn => 0x41,
            Opcode::CapOff => 0x42,
            Opcode::CapReply => 0x43,
            Opcode::SenseColor => 0x50,
            Opcode::SenseColorReply => 0x51,
            Opcode::ImplVers => 0x60,
            Opcode::ImplVersReply => 0x61,
        }
    }
}

/// Accelerometer range selector, sent with [`Opcode::AccelRange`].
#[derive(Clone, Copy, Debug, PartialEq, Eq, Structural)]
pub enum AccelRange {
    /// +/- 2g.
    G2,
    /// +/- 4g.
    G4,
    /// +/- 8g.
    G8,
    /// +/- 16g.
    G16,
}

/// The wire value of each accelerometer range selector.
pub open spec fn accel_range_value(r: AccelRange) -> u8 {
    match r {
        AccelRange::G2 => 0,
        AccelRange::G4 => 1,
        AccelRange::G8 => 2,
        AccelRange::G16 => 3,
    }
}

impl AccelRange {
    /// The byte that selects this range on the wire.
    pub fn value(self) -> (v: u8)
        ensures
            v == accel_range_value(self),
    {
        match self {
            AccelRange::G2 => 0,
            AccelRange::G4 => 1,
            AccelRange::G8 => 2,
            AccelRange::G16 => 3,
        }
    }
}

/// True of a byte that fits in the seven data bits of a SysEx frame.
pub open spec fn seven_bit(b: u8) -> bool {
    b < 0x80
}

/// Every opcode byte, and the command prefix, fit in seven bits, as
/// SysEx data bytes must.
pub proof fn lemma_opcode_seven_bit(op: Opcode)
    ensures
        seven_bit(opcode_value(op)),
        seven_bit(CP_COMMAND),
{
}

/// Serialize one command: the Circuit Playground prefix byte, the
/// opcode byte, then the command's 7-bit data bytes, in order, ready
/// to be carried as the data of one Firmata SysEx frame.
pub fn command_frame(op: Opcode, data: &Vec<u8>) -> (r: Vec<u8>)
    requires
        forall|i: int| 0 <= i < data@.len() ==> seven_bit(data@[i]),
    ensures
        r@.len() == data@.len() + 2,
        r@[0] == CP_COMMAND,
        r@[1] == opcode_value(op),
        forall|i: int| 0 <= i < data@.len() ==> r@[2 + i] == data@[i],
        forall|i: int| 0 <= i < r@.len() ==> seven_bit(r@[i]),
{
    proof {
        lemma_opcode_seven_bit(op);
    }
    let mut r: Vec<u8> = Vec::new();
    r.push(CP_COMMAND);
    r.push(op.value());
    let mut i: usize = 0;
    while i < data.len()
        invariant
            i <= data@.len(),
            r@.len() == i + 2,
            r@[0] == CP_COMMAND,
            r@[1] == opcode_value(op),
            forall|j: int| 0 <= j < data@.len() ==> seven_bit(data@[j]),
            forall|j: int| 0 <= j < i ==> r@[2 + j] == data@[j],
            forall|j: int| 0 <= j < r@.len() ==> seven_bit(r@[j]),
        decreases data@.len() - i,
    {
        r.push(data[i]);
        i = i + 1;
    }
    r
}

} // verus!
