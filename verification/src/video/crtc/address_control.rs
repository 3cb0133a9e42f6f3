use vstd::prelude::*;

use crate::video::video_registers::VideoRegisters;

verus! {

/// The CRTC memory address of the character row being scanned.
pub struct AddressControl {
    address: u16,
}

impl AddressControl {
    /// The address of the current character row.
    pub closed spec fn view(&self) -> u16 {
        self.address
    }

    pub fn new() -> (a: Self)
        ensures
            a@ == 0,
    {
        AddressControl { address: 0 }
    }

    /// Goes back to the screen start address in R12 and R13.
    pub fn reset(&mut self, registers: &VideoRegisters)
        ensures
            final(self)@ == registers.screen_address(),
    {
        self.address = registers.r12_r13_screen_address();
    }

    /// Moves on by the R1 characters of a row, within the 14-bit address
    /// space of the CRTC.
    pub fn advance_char_row(&mut self, registers: &VideoRegisters)
        requires
            old(self)@ + registers.crtc_r1_horizontal_displayed <= u16::MAX,
        ensures
            final(self)@ == (old(self)@ + registers.crtc_r1_horizontal_displayed) % 0x4000,
    {
        let sum = self.address + registers.crtc_r1_horizontal_displayed as u16;
        assert(sum & 0x3fff == sum % 0x4000) by (bit_vector);
        self.address = sum & 0x3FFF;
    }

    pub fn get_address(&self) -> (a: u16)
        ensures
            a == self@,
    {
        self.address
    }
}

impl Default for AddressControl {
    fn default() -> (a: Self)
        ensures
            a@ == 0,
    {
        AddressControl::new()
    }
}

} // verus!
