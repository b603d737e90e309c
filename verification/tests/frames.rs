use circuit_playground::protocol::{command_frame, AccelRange, Opcode};

#[test]
fn frame_without_data() {
    let data: Vec<u8> = vec![];
    let frame = command_frame(Opcode::PixelShow, &data);
    assert_eq!(frame, vec![0x40, 0x11]);
}

#[test]
fn frame_with_data() {
    let data: Vec<u8> = vec![3, 0x01, 0x7F, 0x00, 0x2A];
    let frame = command_frame(Opcode::PixelSet, &data);
    assert_eq!(frame, vec![0x40, 0x10, 3, 0x01, 0x7F, 0x00, 0x2A]);
}

#[test]
fn frame_for_accel_range() {
    let data: Vec<u8> = vec![AccelRange::G8.value()];
    let frame = command_frame(Opcode::AccelRange, &data);
    assert_eq!(frame, vec![0x40, 0x3C, 2]);
}

#[test]
fn frame_bytes_fit_seven_bits() {
    let data: Vec<u8> = vec![0x7F, 0x7F, 0x7F, 0x7F];
    let frame = command_frame(Opcode::Tone, &data);
    for b in frame {
        assert!(b < 0x80);
    }
}
