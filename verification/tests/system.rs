use ch22_core::system::address_map::{read_target, write_target, ReadTarget, WriteTarget, OS_ROM};
use ch22_core::system::device_flags::{
    decode_js_device_flags, device_speed, DeviceSpeed, InterruptType, JsDeviceConfig,
};
use ch22_core::word::Word;

#[test]
fn read_map_of_each_region() {
    assert_eq!(read_target(Word(0x34, 0x12), 5), ReadTarget::Ram(Word(0x34, 0x12)));
    assert_eq!(read_target(Word(0xff, 0x7f), 5), ReadTarget::Ram(Word(0xff, 0x7f)));
    assert_eq!(read_target(Word(0x00, 0x80), 5), ReadTarget::Rom { bank: 5, offset: Word(0x00, 0x00) });
    assert_eq!(read_target(Word(0xff, 0xbf), 15), ReadTarget::Rom { bank: 15, offset: Word(0xff, 0x3f) });
    assert_eq!(read_target(Word(0x00, 0xc0), 5), ReadTarget::Rom { bank: OS_ROM, offset: Word(0x00, 0x00) });
    assert_eq!(read_target(Word(0xff, 0xfb), 5), ReadTarget::Rom { bank: OS_ROM, offset: Word(0xff, 0x3b) });
    assert_eq!(read_target(Word(0x00, 0xfc), 5), ReadTarget::Io(Word(0x00, 0xfc)));
    assert_eq!(read_target(Word(0x21, 0xfe), 5), ReadTarget::Io(Word(0x21, 0xfe)));
    assert_eq!(read_target(Word(0xfc, 0xff), 5), ReadTarget::Rom { bank: OS_ROM, offset: Word(0xfc, 0x3f) });
}

#[test]
fn write_map_of_each_region() {
    assert_eq!(write_target(Word(0x34, 0x12)), WriteTarget::Ram(Word(0x34, 0x12)));
    assert_eq!(write_target(Word(0x00, 0x80)), WriteTarget::Ignored);
    assert_eq!(write_target(Word(0x00, 0xc0)), WriteTarget::Ignored);
    assert_eq!(write_target(Word(0x30, 0xfe)), WriteTarget::Io(Word(0x30, 0xfe)));
    assert_eq!(write_target(Word(0xff, 0xff)), WriteTarget::Ignored);
}

#[test]
fn rebased_word() {
    assert_eq!(Word(0x12, 0x85).rebased_to(0x80), Word(0x12, 0x05));
}

#[test]
fn decodes_script_device_flags() {
    assert_eq!(
        decode_js_device_flags(0x00),
        JsDeviceConfig { interrupt_type: None, speed: DeviceSpeed::TwoMhz, phase_2_write: false }
    );
    assert_eq!(
        decode_js_device_flags(0x01 | 0x04),
        JsDeviceConfig { interrupt_type: Some(InterruptType::IRQ), speed: DeviceSpeed::OneMhz, phase_2_write: false }
    );
    assert_eq!(
        decode_js_device_flags(0x02 | 0x10),
        JsDeviceConfig { interrupt_type: Some(InterruptType::NMI), speed: DeviceSpeed::TwoMhz, phase_2_write: true }
    );
    // both interrupt flags: no interrupt
    assert_eq!(decode_js_device_flags(0x06).interrupt_type, None);
    assert_eq!(device_speed(true), DeviceSpeed::OneMhz);
    assert_eq!(device_speed(false), DeviceSpeed::TwoMhz);
}
