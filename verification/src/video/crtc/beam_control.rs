use vstd::prelude::*;

use crate::video::field_data::MAX_LINES;

verus! {

/// The scanline of the field that the beam is on.
pub struct BeamControl {
    scanline: u16,
}

impl BeamControl {
    /// The beam's scanline.
    pub closed spec fn view(&self) -> u16 {
        self.scanline
    }

    #[verifier::type_invariant]
    spec fn inv(self) -> bool {
        self.scanline < MAX_LINES
    }

    /// The beam at the top of the field.
    pub fn new() -> (b: Self)
        ensures
            b@ == 0,
    {
        BeamControl { scanline: 0 }
    }

    /// Moves the beam down one scanline, back to the top after the last.
    pub fn advance_scanline(&mut self)
        ensures
            final(self)@ == (old(self)@ + 1) % (MAX_LINES as int),
            final(self)@ < MAX_LINES,
    {
        proof {
            use_type_invariant(&*self);
        }
        let next = self.scanline + 1;
        self.scanline = if next == MAX_LINES as u16 {
            0
        } else {
            next
        };
    }

    /// Moves the beam back to the top of the field.
    pub fn reset(&mut self)
        ensures
            final(self)@ == 0,
    {
        self.scanline = 0;
    }

    pub fn get_scanline(&self) -> (s: u16)
        ensures
            s == self@,
            s < MAX_LINES,
    {
        proof {
            use_type_invariant(self);
        }
        self.scanline
    }
}

impl Default for BeamControl {
    fn default() -> (b: Self)
        ensures
            b@ == 0,
    {
        BeamControl::new()
    }
}

} // verus!
