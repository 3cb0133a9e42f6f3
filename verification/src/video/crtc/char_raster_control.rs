use vstd::prelude::*;

use crate::video::crtc::char_row::{
    char_row_step, raster_address_even, raster_address_odd, vertical_registers_in_range,
};
use crate::video::video_registers::VideoRegisters;

verus! {

/// Points of a field at which the CRTC acts.
#[derive(Clone, Copy, Debug, PartialEq, Eq, Structural)]
pub enum CharRasterPosition {
    StartOfField,
    StartOfCharRow,
    VsyncStart,
}

/// Counts the character rows of a field and the rasters within the
/// current row.
pub struct CharRasterControl {
    char_row: u8,
    char_raster_in_row: u8,
}

/// The point of the field at a row and raster (see `char_row_position`).
pub open spec fn char_raster_position(row: u8, raster: u8, r: VideoRegisters) -> Option<
    CharRasterPosition,
> {
    if row == 0 && raster == 0 {
        Some(CharRasterPosition::StartOfField)
    } else if raster == 0 {
        Some(CharRasterPosition::StartOfCharRow)
    } else if row == r.crtc_r7_vertical_sync_position && raster == 1 {
        Some(CharRasterPosition::VsyncStart)
    } else {
        None
    }
}

impl CharRasterControl {
    /// The character row and the raster within it.
    pub closed spec fn view(&self) -> (u8, u8) {
        (self.char_row, self.char_raster_in_row)
    }

    pub fn new() -> (c: Self)
        ensures
            c@ == (0u8, 0u8),
    {
        CharRasterControl { char_row: 0, char_raster_in_row: 0 }
    }

    pub fn reset(&mut self)
        ensures
            final(self)@ == (0u8, 0u8),
    {
        self.char_row = 0;
        self.char_raster_in_row = 0;
    }

    /// Moves on by one scanline.
    pub fn advance_scanline(&mut self, registers: &VideoRegisters)
        requires
            vertical_registers_in_range(*registers),
            old(self)@.1 < 255,
        ensures
            final(self)@ == char_row_step(old(self)@.0, old(self)@.1, *registers),
    {
        self.char_raster_in_row += 1;
        if self.char_row <= registers.crtc_r4_vertical_total && self.char_raster_in_row as u16
            >= registers.r8_r9_rasters_per_char() {
            self.char_row += 1;
            self.char_raster_in_row = 0;
        }
        if self.char_row > registers.crtc_r4_vertical_total && self.char_raster_in_row
            >= registers.crtc_r5_vertical_total_adjust {
            self.reset();
        }
    }

    pub fn get_position(&self, registers: &VideoRegisters) -> (p: Option<CharRasterPosition>)
        ensures
            p == char_raster_position(self@.0, self@.1, *registers),
    {
        if self.char_row == 0 && self.char_raster_in_row == 0 {
            Some(CharRasterPosition::StartOfField)
        } else if self.char_raster_in_row == 0 {
            Some(CharRasterPosition::StartOfCharRow)
        } else if self.char_row == registers.crtc_r7_vertical_sync_position
        // after the first raster of the vertical sync row
        && self.char_raster_in_row == 1 {
            Some(CharRasterPosition::VsyncStart)
        } else {
            None
        }
    }

    pub fn is_at_start(&self) -> (r: bool)
        ensures
            r == (self@.0 == 0 && self@.1 == 0),
    {
        self.char_row == 0 && self.char_raster_in_row == 0
    }

    /// The row is one of the R6 displayed rows.
    pub fn is_in_scan(&self, registers: &VideoRegisters) -> (r: bool)
        ensures
            r == (self@.0 < registers.crtc_r6_vertical_displayed),
    {
        self.char_row < registers.crtc_r6_vertical_displayed
    }

    pub fn get_raster_address_even(&self, registers: &VideoRegisters) -> (a: u8)
        ensures
            a == raster_address_even(self@.1, *registers),
    {
        if registers.r8_is_interlace_sync_and_video() {
            let raster = self.char_raster_in_row;
            assert(raster << 1 == ((raster * 2) % 256) as u8) by (bit_vector);
            raster << 1
        } else {
            self.char_raster_in_row
        }
    }

    pub fn get_raster_address_odd(&self, registers: &VideoRegisters) -> (a: u8)
        ensures
            a == raster_address_odd(self@.1, *registers),
    {
        if registers.r8_is_interlace_sync_and_video() {
            let even = self.get_raster_address_even(registers);
            assert(even % 2 == 0);
            even + 1
        } else {
            self.get_raster_address_even(registers)
        }
    }
}

impl Default for CharRasterControl {
    fn default() -> (c: Self)
        ensures
            c@ == (0u8, 0u8),
    {
        CharRasterControl::new()
    }
}

} // verus!
