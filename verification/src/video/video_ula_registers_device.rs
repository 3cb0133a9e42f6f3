use vstd::prelude::*;

use crate::video::video_registers::{palette_entry, VideoRegisters};
use crate::word::Word;

verus! {

/// The video ULA's two write-only registers: the control register, and the
/// palette register at addresses whose low two bits are 1.
pub struct VideoULARegistersDevice {}

impl VideoULARegistersDevice {
    pub fn new() -> (d: Self) {
        VideoULARegistersDevice {  }
    }

    /// The ULA registers cannot be read; the bus gives 0xfe.
    pub fn read(&mut self, address: Word, cycles: u64) -> (value: u8)
        ensures
            value == 0xfe,
    {
        0xfe
    }

    /// At a palette address the high four bits of the value select the
    /// palette entry, which takes the low four bits with bits 0 to 2
    /// inverted; at the other addresses the value becomes the control
    /// register. The device never asks for an interrupt.
    pub fn write(&mut self, registers: &mut VideoRegisters, address: Word, value: u8, cycles: u64) -> (interrupt: bool)
        ensures
            !interrupt,
            address.0 & 0x03 == 0x01 ==> {
                &&& forall|k: u64|
                    k < 16 ==> #[trigger] palette_entry(final(registers).ula_palette, k) == if k
                        == value / 16 {
                        ((value & 0x0f) ^ 7) as u64
                    } else {
                        palette_entry(old(registers).ula_palette, k)
                    }
                &&& *final(registers) == (VideoRegisters {
                    ula_palette: final(registers).ula_palette,
                    ..*old(registers)
                })
            },
            address.0 & 0x03 != 0x01 ==> *final(registers) == (VideoRegisters {
                ula_control: value,
                ..*old(registers)
            }),
    {
        if address.0 & 0x03 == 0x01 {
            let entry = (value & 0xf0) >> 4;
            let v = (value & 0x0f) ^ 7;
            assert(entry == value / 16 && entry < 16) by (bit_vector)
                requires
                    entry == (value & 0xf0) >> 4,
            ;
            assert(v & 0x0f == v) by (bit_vector)
                requires
                    v == (value & 0x0f) ^ 7,
            ;
            registers.set_ula_palette(entry, v);
        } else {
            registers.ula_control = value;
        }
        false
    }
}

impl Default for VideoULARegistersDevice {
    fn default() -> (d: Self) {
        VideoULARegistersDevice::new()
    }
}

} // verus!
