use vstd::prelude::*;

verus! {

/// The CRTC register values and ULA state that the video circuits read.
#[derive(Clone, Copy, Debug)]
pub struct VideoRegisters {
    pub ula_control: u8,
    /// Sixteen 4-bit palette entries; entry `n` sits in bits `4n..4n+4`.
    pub ula_palette: u64,
    pub crtc_r0_horizontal_total: u8,
    pub crtc_r1_horizontal_displayed: u8,
    pub crtc_r2_horizontal_sync_position: u8,
    pub crtc_r3_sync_width: u8,
    pub crtc_r4_vertical_total: u8,
    pub crtc_r5_vertical_total_adjust: u8,
    pub crtc_r6_vertical_displayed: u8,
    pub crtc_r7_vertical_sync_position: u8,
    pub crtc_r8_interlace_and_skew: u8,
    pub crtc_r9_maximum_raster_address: u8,
    pub crtc_r10_cursor_start_raster: u8,
    pub crtc_r11_cursor_end_raster: u8,
    pub crtc_r12_start_address_h: u8,
    pub crtc_r13_start_address_l: u8,
    pub crtc_r14_cursor_h: u8,
    pub crtc_r15_cursor_l: u8,
}

/// Cursor delay value (R8 bits 6-7) that hides the cursor.
pub const R8_CURSOR_DELAY_HIDDEN: u8 = 3;

/// How the cursor blinks, from R10 bits 5-6.
#[derive(Clone, Copy, Debug, PartialEq, Eq, Structural)]
pub enum R10CursorBlinkMode {
    Solid,
    Hidden,
    Fast,
    Slow,
}

/// The 4-bit palette entry `entry` of a packed palette.
pub open spec fn palette_entry(palette: u64, entry: u64) -> u64 {
    (palette >> (entry * 4)) & 0xf
}

/// Byte `k` of a packed 128-bit value.
pub open spec fn packed_byte(packed: u128, k: u128) -> u8 {
    ((packed >> (8 * k)) & 0xff) as u8
}

/// The blink mode that R10 selects.
pub open spec fn blink_mode_of(r10: u8) -> R10CursorBlinkMode {
    if r10 & 0x60 == 0x00 {
        R10CursorBlinkMode::Solid
    } else if r10 & 0x60 == 0x20 {
        R10CursorBlinkMode::Hidden
    } else if r10 & 0x60 == 0x40 {
        R10CursorBlinkMode::Fast
    } else {
        R10CursorBlinkMode::Slow
    }
}

/// The power-on register values; the palette is kept from `r`.
pub open spec fn reset_registers(r: VideoRegisters) -> VideoRegisters {
    VideoRegisters {
        ula_control: 0x9c,
        ula_palette: r.ula_palette,
        crtc_r0_horizontal_total: 0x7f,
        crtc_r1_horizontal_displayed: 0x50,
        crtc_r2_horizontal_sync_position: 0x62,
        crtc_r3_sync_width: 0x28,
        crtc_r4_vertical_total: 0x26,
        crtc_r5_vertical_total_adjust: 0x00,
        crtc_r6_vertical_displayed: 0x20,
        crtc_r7_vertical_sync_position: 0x22,
        crtc_r8_interlace_and_skew: 0x00,
        crtc_r9_maximum_raster_address: 0x07,
        crtc_r10_cursor_start_raster: 0x00,
        crtc_r11_cursor_end_raster: 0x00,
        crtc_r12_start_address_h: 0x06,
        crtc_r13_start_address_l: 0x00,
        crtc_r14_cursor_h: 0x00,
        crtc_r15_cursor_l: 0x00,
    }
}

/// Registers with every value zero.
pub open spec fn zeroed_registers() -> VideoRegisters {
    VideoRegisters {
        ula_control: 0,
        ula_palette: 0,
        crtc_r0_horizontal_total: 0,
        crtc_r1_horizontal_displayed: 0,
        crtc_r2_horizontal_sync_position: 0,
        crtc_r3_sync_width: 0,
        crtc_r4_vertical_total: 0,
        crtc_r5_vertical_total_adjust: 0,
        crtc_r6_vertical_displayed: 0,
        crtc_r7_vertical_sync_position: 0,
        crtc_r8_interlace_and_skew: 0,
        crtc_r9_maximum_raster_address: 0,
        crtc_r10_cursor_start_raster: 0,
        crtc_r11_cursor_end_raster: 0,
        crtc_r12_start_address_h: 0,
        crtc_r13_start_address_l: 0,
        crtc_r14_cursor_h: 0,
        crtc_r15_cursor_l: 0,
    }
}

impl VideoRegisters {
    /// The value of CRTC register `control_reg` (0 to 15).
    pub open spec fn crtc_register(self, control_reg: u8) -> u8 {
        if control_reg == 0 {
            self.crtc_r0_horizontal_total
        } else if control_reg == 1 {
            self.crtc_r1_horizontal_displayed
        } else if control_reg == 2 {
            self.crtc_r2_horizontal_sync_position
        } else if control_reg == 3 {
            self.crtc_r3_sync_width
        } else if control_reg == 4 {
            self.crtc_r4_vertical_total
        } else if control_reg == 5 {
            self.crtc_r5_vertical_total_adjust
        } else if control_reg == 6 {
            self.crtc_r6_vertical_displayed
        } else if control_reg == 7 {
            self.crtc_r7_vertical_sync_position
        } else if control_reg == 8 {
            self.crtc_r8_interlace_and_skew
        } else if control_reg == 9 {
            self.crtc_r9_maximum_raster_address
        } else if control_reg == 10 {
            self.crtc_r10_cursor_start_raster
        } else if control_reg == 11 {
            self.crtc_r11_cursor_end_raster
        } else if control_reg == 12 {
            self.crtc_r12_start_address_h
        } else if control_reg == 13 {
            self.crtc_r13_start_address_l
        } else if control_reg == 14 {
            self.crtc_r14_cursor_h
        } else {
            self.crtc_r15_cursor_l
        }
    }

    /// R8 bits 0 and 1 both set: interlace sync and video mode.
    pub open spec fn interlace_sync_and_video(self) -> bool {
        self.crtc_r8_interlace_and_skew & 0x03 == 0x03
    }

    /// Scanlines in one character row: R9 + 1, or R9 / 2 + 1 in interlace
    /// sync and video mode, where the raster address steps by two.
    pub open spec fn rasters_per_char(self) -> int {
        if self.interlace_sync_and_video() {
            self.crtc_r9_maximum_raster_address / 2 + 1
        } else {
            self.crtc_r9_maximum_raster_address + 1
        }
    }

    /// The start address held in R12 (high) and R13 (low).
    pub open spec fn screen_address(self) -> int {
        self.crtc_r12_start_address_h * 256 + self.crtc_r13_start_address_l
    }

    /// The cursor address held in R14 (high) and R15 (low).
    pub open spec fn cursor_address(self) -> int {
        self.crtc_r14_cursor_h * 256 + self.crtc_r15_cursor_l
    }

    /// Puts the registers into their power-on values; the palette is kept.
    pub fn reset(&mut self)
        ensures
            *final(self) == reset_registers(*old(self)),
    {
        self.ula_control = 0x9c;
        self.crtc_r0_horizontal_total = 0x7f;
        self.crtc_r1_horizontal_displayed = 0x50;
        self.crtc_r2_horizontal_sync_position = 0x62;
        self.crtc_r3_sync_width = 0x28;
        self.crtc_r4_vertical_total = 0x26;
        self.crtc_r5_vertical_total_adjust = 0x00;
        self.crtc_r6_vertical_displayed = 0x20;
        self.crtc_r7_vertical_sync_position = 0x22;
        self.crtc_r8_interlace_and_skew = 0x00;
        self.crtc_r9_maximum_raster_address = 0x07;
        self.crtc_r10_cursor_start_raster = 0x00;
        self.crtc_r11_cursor_end_raster = 0x00;
        self.crtc_r12_start_address_h = 0x06;
        self.crtc_r13_start_address_l = 0x00;
        self.crtc_r14_cursor_h = 0x00;
        self.crtc_r15_cursor_l = 0x00;
    }

    /// Sets palette entry `entry` to the low four bits of `value`; the other
    /// fifteen entries and all registers are kept.
    pub fn set_ula_palette(&mut self, entry: u8, value: u8)
        requires
            entry < 16,
        ensures
            forall|k: u64|
                k < 16 ==> #[trigger] palette_entry(final(self).ula_palette, k) == if k == entry {
                    (value & 0x0f) as u64
                } else {
                    palette_entry(old(self).ula_palette, k)
                },
            *final(self) == (VideoRegisters { ula_palette: final(self).ula_palette, ..*old(self) }),
    {
        let shift: u64 = entry as u64 * 4;
        let old_palette = self.ula_palette;
        let new_palette = (old_palette & !(0x0fu64 << shift)) | (((value & 0x0f) as u64) << shift);
        let v = (value & 0x0f) as u64;
        proof {
            let e = entry as u64;
            assert(v < 16) by (bit_vector)
                requires
                    v == (value & 0x0f) as u64,
            ;
            assert(forall|k: u64|
                k < 16 ==> #[trigger] palette_entry(new_palette, k) == if k == e {
                    v
                } else {
                    palette_entry(old_palette, k)
                }) by (bit_vector)
                requires
                    e < 16,
                    v < 16,
                    shift == e * 4,
                    new_palette == (old_palette & !(0x0fu64 << shift)) | (v << shift),
            ;
        }
        self.ula_palette = new_palette;
    }

    /// ULA control bit 1: teletext mode.
    pub fn ula_is_teletext(&self) -> (r: bool)
        ensures
            r == (self.ula_control & 0x02 != 0),
    {
        (self.ula_control & 0x02) != 0
    }

    /// ULA control bit 4: the high-frequency (2 MHz) character clock.
    pub fn ula_is_high_frequency(&self) -> (r: bool)
        ensures
            r == (self.ula_control & 0x10 != 0),
    {
        (self.ula_control & 0x10) != 0
    }

    /// R8 bits 4 and 5 both set: the display is disabled by the skew.
    pub fn r8_is_crtc_screen_delay_no_output(&self) -> (r: bool)
        ensures
            r == (self.crtc_r8_interlace_and_skew & 0x30 == 0x30),
    {
        self.crtc_r8_interlace_and_skew & 0x30 == 0x30
    }

    /// R8 bit 0: interlace sync is on.
    pub fn r8_is_interlace(&self) -> (r: bool)
        ensures
            r == (self.crtc_r8_interlace_and_skew & 0x01 != 0),
    {
        self.crtc_r8_interlace_and_skew & 0x01 != 0
    }

    /// R8 bits 0 and 1 both set: interlace sync and video mode.
    pub fn r8_is_interlace_sync_and_video(&self) -> (r: bool)
        ensures
            r == self.interlace_sync_and_video(),
    {
        self.crtc_r8_interlace_and_skew & 0x03 == 0x03
    }

    /// Scanlines in one character row, from R9 and R8.
    pub fn r8_r9_rasters_per_char(&self) -> (r: u16)
        ensures
            r == self.rasters_per_char(),
            1 <= r <= 256,
    {
        if self.r8_is_interlace_sync_and_video() {
            (self.crtc_r9_maximum_raster_address / 2) as u16 + 1
        } else {
            self.crtc_r9_maximum_raster_address as u16 + 1
        }
    }

    /// Horizontal sync width in characters: the low four bits of R3.
    pub fn r3_h_sync_width(&self) -> (r: u8)
        ensures
            r == self.crtc_r3_sync_width % 16,
    {
        let x = self.crtc_r3_sync_width;
        let r = x & 0x0f;
        assert(r == x % 16) by (bit_vector)
            requires
                r == x & 0x0f,
        ;
        r
    }

    /// Vertical sync width in scanlines: the high four bits of R3.
    pub fn r3_v_sync_width(&self) -> (r: u8)
        ensures
            r == self.crtc_r3_sync_width / 16,
    {
        let x = self.crtc_r3_sync_width;
        let r = x >> 4;
        assert(r == x / 16) by (bit_vector)
            requires
                r == x >> 4,
        ;
        r
    }

    /// The cursor blink mode selected by R10 bits 5 and 6.
    pub fn r10_cursor_blink_mode(&self) -> (r: R10CursorBlinkMode)
        ensures
            r == blink_mode_of(self.crtc_r10_cursor_start_raster),
    {
        let bits = self.crtc_r10_cursor_start_raster & 0x60;
        if bits == 0x00 {
            R10CursorBlinkMode::Solid
        } else if bits == 0x20 {
            R10CursorBlinkMode::Hidden
        } else if bits == 0x40 {
            R10CursorBlinkMode::Fast
        } else {
            R10CursorBlinkMode::Slow
        }
    }

    /// The rasters of a character row on which the cursor shows: from the
    /// low five bits of R10 up to R11, both included.
    pub fn r10_r11_cursor_raster_range(&self) -> (r: std::ops::RangeInclusive<u8>)
        ensures
            r@.start == self.crtc_r10_cursor_start_raster % 32,
            r@.end == self.crtc_r11_cursor_end_raster,
            !r@.exhausted,
    {
        let x = self.crtc_r10_cursor_start_raster;
        let start = x & 0x1f;
        assert(start == x % 32) by (bit_vector)
            requires
                start == x & 0x1f,
        ;
        std::ops::RangeInclusive::new(start, self.crtc_r11_cursor_end_raster)
    }

    /// The cursor delay in characters: R8 bits 6 and 7.
    pub fn r8_cursor_delay(&self) -> (r: u8)
        ensures
            r == self.crtc_r8_interlace_and_skew / 64,
            r <= 3,
    {
        let x = self.crtc_r8_interlace_and_skew;
        let r = (x & 0xc0) >> 6;
        assert(r == x / 64) by (bit_vector)
            requires
                r == (x & 0xc0) >> 6,
        ;
        r
    }

    /// The start address held in R12 and R13.
    pub fn r12_r13_screen_address(&self) -> (r: u16)
        ensures
            r == self.screen_address(),
    {
        let h = self.crtc_r12_start_address_h;
        let l = self.crtc_r13_start_address_l;
        assert((h as u16) << 8 | l as u16 == h * 256 + l) by (bit_vector);
        (h as u16) << 8 | l as u16
    }

    /// The cursor address held in R14 and R15.
    pub fn r14_r15_cursor_address(&self) -> (r: u16)
        ensures
            r == self.cursor_address(),
    {
        let h = self.crtc_r14_cursor_h;
        let l = self.crtc_r15_cursor_l;
        assert((h as u16) << 8 | l as u16 == h * 256 + l) by (bit_vector);
        (h as u16) << 8 | l as u16
    }

    /// The registers that the display needs, one per byte of the result,
    /// from the lowest byte up: R0, R1, R3, R4, R5, R6, R7, R8, R9, R12,
    /// R13 and the ULA control register; the four top bytes are zero.
    pub fn get_partial_video_registers(&self) -> (packed: u128)
        ensures
            packed_byte(packed, 0) == self.crtc_r0_horizontal_total,
            packed_byte(packed, 1) == self.crtc_r1_horizontal_displayed,
            packed_byte(packed, 2) == self.crtc_r3_sync_width,
            packed_byte(packed, 3) == self.crtc_r4_vertical_total,
            packed_byte(packed, 4) == self.crtc_r5_vertical_total_adjust,
            packed_byte(packed, 5) == self.crtc_r6_vertical_displayed,
            packed_byte(packed, 6) == self.crtc_r7_vertical_sync_position,
            packed_byte(packed, 7) == self.crtc_r8_interlace_and_skew,
            packed_byte(packed, 8) == self.crtc_r9_maximum_raster_address,
            packed_byte(packed, 9) == self.crtc_r12_start_address_h,
            packed_byte(packed, 10) == self.crtc_r13_start_address_l,
            packed_byte(packed, 11) == self.ula_control,
            packed >> 96u128 == 0,
    {
        let b0 = self.crtc_r0_horizontal_total;
        let b1 = self.crtc_r1_horizontal_displayed;
        let b2 = self.crtc_r3_sync_width;
        let b3 = self.crtc_r4_vertical_total;
        let b4 = self.crtc_r5_vertical_total_adjust;
        let b5 = self.crtc_r6_vertical_displayed;
        let b6 = self.crtc_r7_vertical_sync_position;
        let b7 = self.crtc_r8_interlace_and_skew;
        let b8 = self.crtc_r9_maximum_raster_address;
        let b9 = self.crtc_r12_start_address_h;
        let b10 = self.crtc_r13_start_address_l;
        let b11 = self.ula_control;
        let packed = (b0 as u128) | (b1 as u128) << 8 | (b2 as u128) << 16 | (b3 as u128) << 24
            | (b4 as u128) << 32 | (b5 as u128) << 40 | (b6 as u128) << 48 | (b7 as u128) << 56
            | (b8 as u128) << 64 | (b9 as u128) << 72 | (b10 as u128) << 80 | (b11 as u128) << 88;
        assert(packed_byte(packed, 0) == b0 && packed_byte(packed, 1) == b1 && packed_byte(packed, 2)
            == b2 && packed_byte(packed, 3) == b3 && packed_byte(packed, 4) == b4 && packed_byte(
            packed,
            5,
        ) == b5 && packed_byte(packed, 6) == b6 && packed_byte(packed, 7) == b7 && packed_byte(
            packed,
            8,
        ) == b8 && packed_byte(packed, 9) == b9 && packed_byte(packed, 10) == b10 && packed_byte(
            packed,
            11,
        ) == b11 && packed >> 96u128 == 0) by (bit_vector)
            requires
                packed == (b0 as u128) | (b1 as u128) << 8 | (b2 as u128) << 16 | (b3 as u128)
                    << 24 | (b4 as u128) << 32 | (b5 as u128) << 40 | (b6 as u128) << 48 | (b7 as u128)
                    << 56 | (b8 as u128) << 64 | (b9 as u128) << 72 | (b10 as u128) << 80 | (
                b11 as u128) << 88,
        ;
        packed
    }

    /// The value of CRTC register `control_reg`, one of 0 to 15.
    pub fn get_crtc_register(&self, control_reg: u8) -> (r: u8)
        requires
            control_reg < 16,
        ensures
            r == self.crtc_register(control_reg),
    {
        match control_reg {
            0 => self.crtc_r0_horizontal_total,
            1 => self.crtc_r1_horizontal_displayed,
            2 => self.crtc_r2_horizontal_sync_position,
            3 => self.crtc_r3_sync_width,
            4 => self.crtc_r4_vertical_total,
            5 => self.crtc_r5_vertical_total_adjust,
            6 => self.crtc_r6_vertical_displayed,
            7 => self.crtc_r7_vertical_sync_position,
            8 => self.crtc_r8_interlace_and_skew,
            9 => self.crtc_r9_maximum_raster_address,
            10 => self.crtc_r10_cursor_start_raster,
            11 => self.crtc_r11_cursor_end_raster,
            12 => self.crtc_r12_start_address_h,
            13 => self.crtc_r13_start_address_l,
            14 => self.crtc_r14_cursor_h,
            _ => self.crtc_r15_cursor_l,
        }
    }
}

impl Default for VideoRegisters {
    fn default() -> (r: Self)
        ensures
            r == zeroed_registers(),
    {
        VideoRegisters {
            ula_control: 0,
            ula_palette: 0,
            crtc_r0_horizontal_total: 0,
            crtc_r1_horizontal_displayed: 0,
            crtc_r2_horizontal_sync_position: 0,
            crtc_r3_sync_width: 0,
            crtc_r4_vertical_total: 0,
            crtc_r5_vertical_total_adjust: 0,
            crtc_r6_vertical_displayed: 0,
            crtc_r7_vertical_sync_position: 0,
            crtc_r8_interlace_and_skew: 0,
            crtc_r9_maximum_raster_address: 0,
            crtc_r10_cursor_start_raster: 0,
            crtc_r11_cursor_end_raster: 0,
            crtc_r12_start_address_h: 0,
            crtc_r13_start_address_l: 0,
            crtc_r14_cursor_h: 0,
            crtc_r15_cursor_l: 0,
        }
    }
}

} // verus!
