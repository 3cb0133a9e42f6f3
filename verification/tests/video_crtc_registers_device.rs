use ch22_core::video::video_crtc_registers_device::VideoCRTCRegistersDevice;
use ch22_core::video::video_registers::VideoRegisters;
use ch22_core::word::Word;

#[test]
fn test_writes_register_masking() {
    // (control_reg, write_value, expected_masked_value)
    let test_cases = [
        (0, 0x5a, 0x5a),  // r0 no mask
        (1, 0xff, 0xff),  // r1 no mask
        (2, 0x12, 0x12),  // r2 no mask
        (3, 0xee, 0xee),  // r3 no mask
        (4, 0xff, 0x7f),  // r4 mask 0x7f
        (5, 0xff, 0x1f),  // r5 mask 0x1f
        (6, 0xff, 0x7f),  // r6 mask 0x7f
        (7, 0xff, 0x7f),  // r7 mask 0x7f
        (8, 0xaa, 0xaa),  // r8 no mask
        (9, 0xff, 0x1f),  // r9 mask 0x1f
        (10, 0xff, 0x7f), // r10 mask 0x7f
        (11, 0xff, 0x1f), // r11 mask 0x1f
        (12, 0xff, 0x3f), // r12 mask 0x3f
        (13, 0x77, 0x77), // r13 no mask
        (14, 0xff, 0x3f), // r14 mask 0x3f
        (15, 0x42, 0x42), // r15 no mask
    ];

    for (control_reg, write_value, expected_masked) in test_cases {
        let mut video_registers = VideoRegisters::default();
        let mut device = VideoCRTCRegistersDevice::new();

        // Select control register (address low bits != 0x01)
        device.write(&mut video_registers, Word::from(0xfe20), control_reg, 0); // sets control_reg = value & 0x1f
        // Perform write to selected register (address low bits == 0x01)
        device.write(&mut video_registers, Word::from(0xfe21), write_value, 0);

        let actual = video_registers.get_crtc_register(control_reg);

        assert_eq!(
            actual, expected_masked,
            "Failed for control_reg={}, write=0x{:02x}",
            control_reg, write_value
        );
    }
}

#[test]
fn test_reads_cursor_registers_and_defaults() {
    let video_registers = VideoRegisters {
        crtc_r14_cursor_h: 0x3f,
        crtc_r15_cursor_l: 0x5a,
        ..VideoRegisters::default()
    };
    let mut scratch_registers = video_registers;

    let mut device = VideoCRTCRegistersDevice::new();

    // Read r14
    device.write(&mut scratch_registers, Word::from(0xfe20), 14, 0); // select r14
    let r14_read = device.read(&video_registers, Word::from(0xfe21), 0);
    assert_eq!(r14_read, 0x3f, "Read of r14 should return value 0x3f");

    // Read r15
    device.write(&mut scratch_registers, Word::from(0xfe20), 15, 0); // select r15
    let r15_read = device.read(&video_registers, Word::from(0xfe21), 0);
    assert_eq!(r15_read, 0x5a, "Read of r15 should return value 0x5a");

    // Reads of other control registers (e.g. r0) should return 0
    device.write(&mut scratch_registers, Word::from(0xfe20), 0, 0); // select r0
    let r0_read = device.read(&video_registers, Word::from(0xfe21), 0);
    assert_eq!(r0_read, 0x00, "Non-readable register should return 0");
}

#[test]
fn write_then_read_cursor_register_gives_masked_value() {
    let mut registers = VideoRegisters::default();
    let mut device = VideoCRTCRegistersDevice::new();
    device.write(&mut registers, Word::from(0xfe00), 14, 0);
    device.write(&mut registers, Word::from(0xfe01), 0xff, 0);
    assert_eq!(device.read(&registers, Word::from(0xfe01), 0), 0x3f);
    device.write(&mut registers, Word::from(0xfe00), 15, 0);
    device.write(&mut registers, Word::from(0xfe01), 0xa5, 0);
    assert_eq!(device.read(&registers, Word::from(0xfe01), 0), 0xa5);
    // the cursor high register kept its value
    assert_eq!(registers.crtc_r14_cursor_h, 0x3f);
}

#[test]
fn selector_reads_zero_and_write_returns_no_interrupt() {
    let mut registers = VideoRegisters::default();
    let mut device = VideoCRTCRegistersDevice::new();
    assert!(!device.write(&mut registers, Word::from(0xfe00), 0x2e, 0)); // selects 0x0e
    assert_eq!(device.read(&registers, Word::from(0xfe00), 0), 0);
    assert!(!device.write(&mut registers, Word::from(0xfe01), 0x12, 0));
    assert_eq!(registers.crtc_r14_cursor_h, 0x12);
}

#[test]
fn write_to_register_above_15_changes_nothing() {
    let mut registers = VideoRegisters::default();
    let mut device = VideoCRTCRegistersDevice::new();
    device.write(&mut registers, Word::from(0xfe00), 18, 0);
    device.write(&mut registers, Word::from(0xfe01), 0x55, 0);
    for reg in 0..16 {
        assert_eq!(registers.get_crtc_register(reg), 0);
    }
}
