use vstd::prelude::*;

use crate::video::video_registers::VideoRegisters;
use crate::word::Word;

verus! {

/// The CRTC's two I/O registers: writes to an even address select a CRTC
/// register, reads and writes at an odd address (low three bits 1) reach
/// the selected register.
pub struct VideoCRTCRegistersDevice {
    control_reg: u8,
}

/// The bits of a CRTC register that the hardware keeps.
pub open spec fn crtc_register_mask(control_reg: u8) -> u8 {
    if control_reg == 4 || control_reg == 6 || control_reg == 7 || control_reg == 10 {
        0x7f
    } else if control_reg == 5 || control_reg == 9 || control_reg == 11 {
        0x1f
    } else if control_reg == 12 || control_reg == 14 {
        0x3f
    } else {
        0xff
    }
}

/// The registers with CRTC register `control_reg` (0 to 15) set to `value`.
pub open spec fn with_crtc_register(r: VideoRegisters, control_reg: u8, value: u8) -> VideoRegisters {
    if control_reg == 0 {
        VideoRegisters { crtc_r0_horizontal_total: value, ..r }
    } else if control_reg == 1 {
        VideoRegisters { crtc_r1_horizontal_displayed: value, ..r }
    } else if control_reg == 2 {
        VideoRegisters { crtc_r2_horizontal_sync_position: value, ..r }
    } else if control_reg == 3 {
        VideoRegisters { crtc_r3_sync_width: value, ..r }
    } else if control_reg == 4 {
        VideoRegisters { crtc_r4_vertical_total: value, ..r }
    } else if control_reg == 5 {
        VideoRegisters { crtc_r5_vertical_total_adjust: value, ..r }
    } else if control_reg == 6 {
        VideoRegisters { crtc_r6_vertical_displayed: value, ..r }
    } else if control_reg == 7 {
        VideoRegisters { crtc_r7_vertical_sync_position: value, ..r }
    } else if control_reg == 8 {
        VideoRegisters { crtc_r8_interlace_and_skew: value, ..r }
    } else if control_reg == 9 {
        VideoRegisters { crtc_r9_maximum_raster_address: value, ..r }
    } else if control_reg == 10 {
        VideoRegisters { crtc_r10_cursor_start_raster: value, ..r }
    } else if control_reg == 11 {
        VideoRegisters { crtc_r11_cursor_end_raster: value, ..r }
    } else if control_reg == 12 {
        VideoRegisters { crtc_r12_start_address_h: value, ..r }
    } else if control_reg == 13 {
        VideoRegisters { crtc_r13_start_address_l: value, ..r }
    } else if control_reg == 14 {
        VideoRegisters { crtc_r14_cursor_h: value, ..r }
    } else if control_reg == 15 {
        VideoRegisters { crtc_r15_cursor_l: value, ..r }
    } else {
        r
    }
}

/// The address reaches the selected register rather than the selector.
pub open spec fn is_data_address(address: Word) -> bool {
    address.0 & 0x07 == 0x01
}

/// The selected register cannot be read back: reading it is not
/// implemented.
pub open spec fn read_unimplemented(control_reg: u8) -> bool {
    control_reg == 12 || control_reg == 13 || control_reg == 16 || control_reg == 17
}

/// What a read gives: the cursor registers at the data address, 0 for the
/// other registers and at the selector address.
pub open spec fn crtc_read_value(r: VideoRegisters, control_reg: u8, address: Word) -> u8 {
    if is_data_address(address) {
        if control_reg == 14 {
            r.crtc_r14_cursor_h
        } else if control_reg == 15 {
            r.crtc_r15_cursor_l
        } else {
            0
        }
    } else {
        0
    }
}

impl VideoCRTCRegistersDevice {
    /// The selected register.
    pub closed spec fn view(&self) -> u8 {
        self.control_reg
    }

    /// The device with register 0 selected.
    pub fn new() -> (d: Self)
        ensures
            d@ == 0,
    {
        VideoCRTCRegistersDevice { control_reg: 0 }
    }

    /// Reads the selected register: only the cursor registers can be read
    /// back. Reading R12, R13, R16 or R17 is not implemented.
    pub fn read(&mut self, registers: &VideoRegisters, address: Word, cycles: u64) -> (value: u8)
        requires
            is_data_address(address) ==> !read_unimplemented(old(self)@),
        ensures
            value == crtc_read_value(*registers, old(self)@, address),
            final(self)@ == old(self)@,
    {
        if address.0 & 0x07 == 0x01 {
            match self.control_reg {
                14 => registers.crtc_r14_cursor_h,
                15 => registers.crtc_r15_cursor_l,
                _ => 0,
            }
        } else {
            0
        }
    }

    /// Writes to the device: at the data address the selected register
    /// takes the value, masked to the bits it has (registers above 15 take
    /// nothing); at the other addresses the value selects a register. The
    /// device never asks for an interrupt, so it returns `false`.
    pub fn write(&mut self, registers: &mut VideoRegisters, address: Word, value: u8, cycles: u64) -> (interrupt: bool)
        ensures
            !interrupt,
            is_data_address(address) ==> final(self)@ == old(self)@ && *final(registers)
                == with_crtc_register(
                *old(registers),
                old(self)@,
                value & crtc_register_mask(old(self)@),
            ),
            !is_data_address(address) ==> final(self)@ == value & 0x1f && *final(registers) == *old(
                registers,
            ),
    {
        if address.0 & 0x07 == 0x01 {
            match self.control_reg {
                0 => registers.crtc_r0_horizontal_total = value,
                1 => registers.crtc_r1_horizontal_displayed = value,
                2 => registers.crtc_r2_horizontal_sync_position = value,
                3 => registers.crtc_r3_sync_width = value,
                4 => registers.crtc_r4_vertical_total = value & 0x7f,
                5 => registers.crtc_r5_vertical_total_adjust = value & 0x1f,
                6 => registers.crtc_r6_vertical_displayed = value & 0x7f,
                7 => registers.crtc_r7_vertical_sync_position = value & 0x7f,
                8 => registers.crtc_r8_interlace_and_skew = value,
                9 => registers.crtc_r9_maximum_raster_address = value & 0x1f,
                10 => registers.crtc_r10_cursor_start_raster = value & 0x7f,
                11 => registers.crtc_r11_cursor_end_raster = value & 0x1f,
                12 => registers.crtc_r12_start_address_h = value & 0x3f,
                13 => registers.crtc_r13_start_address_l = value,
                14 => registers.crtc_r14_cursor_h = value & 0x3f,
                15 => registers.crtc_r15_cursor_l = value,
                _ => {},
            }
            assert(value & 0xff == value) by (bit_vector);
        } else {
            self.control_reg = value & 0x1f;
        }
        false
    }
}

/// A value written to CRTC register `control_reg` (0 to 15) reads back
/// masked to the register's bits, and no other register changes.
pub proof fn lemma_crtc_register_write_read(r: VideoRegisters, control_reg: u8, value: u8, k: u8)
    requires
        control_reg < 16,
        k < 16,
    ensures
        with_crtc_register(r, control_reg, value & crtc_register_mask(control_reg)).crtc_register(k)
            == if k == control_reg {
            value & crtc_register_mask(control_reg)
        } else {
            r.crtc_register(k)
        },
        with_crtc_register(r, control_reg, value).ula_control == r.ula_control,
        with_crtc_register(r, control_reg, value).ula_palette == r.ula_palette,
{
}

/// Selecting a cursor register and writing a value to it, then reading
/// it, gives back the value masked to the register's bits.
pub proof fn lemma_cursor_register_round_trip(
    r: VideoRegisters,
    control_reg: u8,
    value: u8,
    address: Word,
)
    requires
        control_reg == 14 || control_reg == 15,
        is_data_address(address),
    ensures
        crtc_read_value(
            with_crtc_register(r, control_reg, value & crtc_register_mask(control_reg)),
            control_reg,
            address,
        ) == value & crtc_register_mask(control_reg),
{
}

/// What a write at the data address leaves in the selected register: R4,
/// R6, R7 and R10 keep 7 bits, R5, R9 and R11 keep 5 bits, R12 and R14
/// keep 6 bits, and R0 to R3, R8, R13 and R15 keep the whole byte.
pub proof fn lemma_crtc_register_masks(r: VideoRegisters, control_reg: u8, value: u8)
    ensures
        ({
            let w = with_crtc_register(r, control_reg, value & crtc_register_mask(control_reg));
            &&& control_reg == 0 ==> w.crtc_r0_horizontal_total == value
            &&& control_reg == 1 ==> w.crtc_r1_horizontal_displayed == value
            &&& control_reg == 2 ==> w.crtc_r2_horizontal_sync_position == value
            &&& control_reg == 3 ==> w.crtc_r3_sync_width == value
            &&& control_reg == 4 ==> w.crtc_r4_vertical_total == value % 128
            &&& control_reg == 5 ==> w.crtc_r5_vertical_total_adjust == value % 32
            &&& control_reg == 6 ==> w.crtc_r6_vertical_displayed == value % 128
            &&& control_reg == 7 ==> w.crtc_r7_vertical_sync_position == value % 128
            &&& control_reg == 8 ==> w.crtc_r8_interlace_and_skew == value
            &&& control_reg == 9 ==> w.crtc_r9_maximum_raster_address == value % 32
            &&& control_reg == 10 ==> w.crtc_r10_cursor_start_raster == value % 128
            &&& control_reg == 11 ==> w.crtc_r11_cursor_end_raster == value % 32
            &&& control_reg == 12 ==> w.crtc_r12_start_address_h == value % 64
            &&& control_reg == 13 ==> w.crtc_r13_start_address_l == value
            &&& control_reg == 14 ==> w.crtc_r14_cursor_h == value % 64
            &&& control_reg == 15 ==> w.crtc_r15_cursor_l == value
            &&& control_reg >= 16 ==> w == r
        }),
{
    assert(value & 0xff == value) by (bit_vector);
    assert(value & 0x7f == value % 128) by (bit_vector);
    assert(value & 0x3f == value % 64) by (bit_vector);
    assert(value & 0x1f == value % 32) by (bit_vector);
}

impl Default for VideoCRTCRegistersDevice {
    fn default() -> (d: Self)
        ensures
            d@ == 0,
    {
        VideoCRTCRegistersDevice::new()
    }
}

} // verus!
