use vstd::prelude::*;

use crate::video::video_registers::VideoRegisters;

verus! {

/// Counts down the scanlines of a vertical sync period.
pub struct VSyncControl {
    line_countdown: u8,
}

/// The countdown after one more scanline.
pub open spec fn vsync_step(countdown: u8) -> u8 {
    if countdown > 0 {
        (countdown - 1) as u8
    } else {
        0
    }
}

/// The countdown after `n` more scanlines.
pub open spec fn vsync_after(countdown: u8, n: nat) -> u8
    decreases n,
{
    if n == 0 {
        countdown
    } else {
        vsync_after(vsync_step(countdown), (n - 1) as nat)
    }
}

impl VSyncControl {
    /// Scanlines of vertical sync left.
    pub closed spec fn view(&self) -> u8 {
        self.line_countdown
    }

    pub fn new() -> (v: Self)
        ensures
            v@ == 0,
    {
        VSyncControl { line_countdown: 0 }
    }

    pub fn reset(&mut self)
        ensures
            final(self)@ == 0,
    {
        self.line_countdown = 0;
    }

    /// Starts a vertical sync of the R3 sync height, unless one is running;
    /// says whether it started one.
    pub fn start_vsync_period(&mut self, registers: &VideoRegisters) -> (started: bool)
        ensures
            started == (old(self)@ == 0),
            final(self)@ == if started {
                (registers.crtc_r3_sync_width / 16) as u8
            } else {
                old(self)@
            },
    {
        if self.is_in_vsync() {
            false
        } else {
            self.line_countdown = registers.r3_v_sync_width();
            true
        }
    }

    /// Counts one scanline of the vertical sync, if one is running.
    pub fn advance_scanline(&mut self)
        ensures
            final(self)@ == vsync_step(old(self)@),
    {
        if self.line_countdown > 0 {
            self.line_countdown -= 1;
        }
    }

    pub fn is_in_vsync(&self) -> (r: bool)
        ensures
            r == (self@ > 0),
    {
        self.line_countdown > 0
    }
}

impl Default for VSyncControl {
    fn default() -> (v: Self)
        ensures
            v@ == 0,
    {
        VSyncControl::new()
    }
}

/// A vertical sync that starts with a countdown of `width` lasts exactly
/// `width` scanlines: it is running after `n` scanlines exactly when `n` is
/// less than `width`, and then has `width - n` left.
pub proof fn lemma_vsync_lasts_width(width: u8, n: nat)
    ensures
        vsync_after(width, n) > 0 <==> n < width,
        n < width ==> vsync_after(width, n) == width - n,
    decreases n,
{
    if n > 0 {
        lemma_vsync_lasts_width(vsync_step(width), (n - 1) as nat);
    }
}

} // verus!
