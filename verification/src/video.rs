pub mod video_registers;
pub mod video_memory_access;
pub mod field_line;
pub mod field_data;
pub mod crtc;
pub mod video_crtc_registers_device;
pub mod video_ula_registers_device;

use core::ops::Range;
use vstd::prelude::*;

use self::crtc::{can_step, crtc_step, snapshot_params_of, Crtc, CrtcState};
use self::field_data::{
    buffers_fit, cursor_position, cursor_shown, scanline_data, serves_ram_ranges, snapshot_done,
    translates_span,
};
pub use self::field_data::{Field, MAX_LINES};
use self::field_line::FieldLine;
use self::video_crtc_registers_device::VideoCRTCRegistersDevice;
use self::video_registers::VideoRegisters;
use self::video_ula_registers_device::VideoULARegistersDevice;

verus! {

/// The video subsystem: the CRTC, the video registers, and the field that
/// the scanlines are recorded into.
pub struct Video {
    field_data: Field,
    crtc: Crtc,
    registers: VideoRegisters,
    field_counter: u8,
    next_scanline_trigger: u64,
    vsync: bool,
}

/// What processing a scanline found.
#[derive(Clone, Copy, Debug, PartialEq, Eq, Structural)]
pub struct ScanlineOutcome {
    /// The beam went back to the top: the field is complete.
    pub field_complete: bool,
    /// The vertical sync signal changed to this value.
    pub vsync_change: Option<bool>,
}

/// A line as it is before a scanline is recorded into it: marked empty
/// when the field was cleared.
pub open spec fn line_before_snapshot(line: FieldLine, cleared: bool) -> FieldLine {
    if cleared {
        FieldLine { flags: 0, ..line }
    } else {
        line
    }
}

impl Video {
    pub closed spec fn crtc_state(&self) -> CrtcState {
        self.crtc@
    }

    pub closed spec fn registers_state(&self) -> VideoRegisters {
        self.registers
    }

    pub closed spec fn field_state(&self) -> Field {
        self.field_data
    }

    pub closed spec fn field_counter_state(&self) -> u8 {
        self.field_counter
    }

    pub closed spec fn trigger_state(&self) -> u64 {
        self.next_scanline_trigger
    }

    pub closed spec fn vsync_state(&self) -> bool {
        self.vsync
    }

    /// The field counter that the scanline being processed sees: it moves
    /// on when the beam is at the top of a field.
    pub open spec fn scanline_field_counter(&self) -> u8 {
        if self.crtc_state().beam_scanline == 0 {
            ((self.field_counter_state() + 1) % 256) as u8
        } else {
            self.field_counter_state()
        }
    }

    /// Processing the current scanline stays within the arithmetic and
    /// buffer limits: the CRTC can move on, a displayed scanline can be
    /// recorded with the data that `get_buffer` gives, and the cycle count
    /// of the next scanline trigger does not overflow.
    pub open spec fn can_process_scanline<'a, F: Fn(Range<u16>) -> &'a [u8]>(
        &self,
        ic32_latch: u8,
        get_buffer: F,
    ) -> bool {
        let s = self.crtc_state();
        let r = self.registers_state();
        let p = snapshot_params_of(s, r);
        &&& can_step(s, r)
        &&& self.trigger_state() + crtc::next_scanline_cycles(crtc_step(s, r), r) <= u64::MAX
        &&& p.in_scan ==> {
            &&& translates_span(p.address, p.raster_address_even, ic32_latch, r) ==> p.address
                + r.crtc_r1_horizontal_displayed <= u16::MAX
            &&& cursor_shown(
                r,
                p.raster_address_even,
                p.raster_address_odd,
                self.scanline_field_counter(),
                p.address,
            ) ==> cursor_position(r, p.address) <= u8::MAX
            &&& buffers_fit(
                get_buffer,
                scanline_data(p.address, p.raster_address_even, ic32_latch, r),
            )
        }
    }

    /// A video subsystem with all registers and counters at zero.
    pub fn new() -> (v: Self)
        ensures
            v.crtc_state() == (CrtcState {
                char_row: 0,
                char_raster: 0,
                address: 0,
                vsync_lines: 0,
                beam_scanline: 0,
                odd_field: false,
            }),
            v.registers_state() == video_registers::zeroed_registers(),
            v.field_counter_state() == 0,
            v.trigger_state() == 0,
            !v.vsync_state(),
            forall|i: int|
                0 <= i < MAX_LINES ==> field_line::is_empty_line(#[trigger] v.field_state().lines[i]),
    {
        Video {
            field_data: Field::new(),
            crtc: Crtc::new(),
            registers: VideoRegisters::default(),
            field_counter: 0,
            next_scanline_trigger: 0,
            vsync: false,
        }
    }

    /// Puts the registers into their power-on values and the CRTC at the
    /// start of a field.
    pub fn init(&mut self)
        ensures
            final(self).registers_state() == video_registers::reset_registers(old(self).registers_state()),
            final(self).crtc_state() == crtc::initial_state(final(self).registers_state()),
            final(self).field_counter_state() == 0,
            final(self).field_state() == old(self).field_state(),
            final(self).trigger_state() == old(self).trigger_state(),
            final(self).vsync_state() == old(self).vsync_state(),
    {
        self.registers.reset();
        self.crtc.init(&self.registers);
        self.field_counter = 0;
    }

    /// A device for the CRTC's I/O registers; it writes to the registers
    /// that `registers_mut` gives.
    pub fn create_crtc_registers_device(&self) -> (d: VideoCRTCRegistersDevice)
        ensures
            d@ == 0,
    {
        VideoCRTCRegistersDevice::new()
    }

    /// A device for the ULA's I/O registers; it writes to the registers
    /// that `registers_mut` gives.
    pub fn create_ula_registers_device(&self) -> (d: VideoULARegistersDevice) {
        VideoULARegistersDevice::new()
    }

    /// The video registers.
    pub fn registers(&self) -> (r: &VideoRegisters)
        ensures
            *r == self.registers_state(),
    {
        &self.registers
    }

    /// The video registers, for the register devices to write to.
    pub fn registers_mut(&mut self) -> (r: &mut VideoRegisters)
        ensures
            *r == old(self).registers_state(),
            final(self).registers_state() == *final(r),
            final(self).crtc_state() == old(self).crtc_state(),
            final(self).field_state() == old(self).field_state(),
            final(self).field_counter_state() == old(self).field_counter_state(),
            final(self).trigger_state() == old(self).trigger_state(),
            final(self).vsync_state() == old(self).vsync_state(),
    {
        &mut self.registers
    }

    /// Processes the scanline that the CRTC is on: a scanline at the top of
    /// a field counts a new field and clears the field's lines; a displayed
    /// scanline is recorded, its data read through `get_buffer`. Then the
    /// CRTC moves on, the trigger moves on by the cycles until the next
    /// scanline, and the outcome says whether the field is complete and
    /// whether the vertical sync signal changed.
    pub fn process_scanline<'a>(
        &mut self,
        ic32_latch: u8,
        get_buffer: impl Fn(Range<u16>) -> &'a [u8],
    ) -> (outcome: ScanlineOutcome)
        requires
            old(self).can_process_scanline(ic32_latch, get_buffer),
            serves_ram_ranges(get_buffer),
        ensures
            ({
                let s = old(self).crtc_state();
                let r = old(self).registers_state();
                let p = snapshot_params_of(s, r);
                let next = crtc_step(s, r);
                let cleared = s.beam_scanline == 0;
                let old_lines = old(self).field_state().lines;
                let new_lines = final(self).field_state().lines;
                &&& final(self).crtc_state() == next
                &&& final(self).registers_state() == r
                &&& final(self).field_counter_state() == old(self).scanline_field_counter()
                &&& final(self).field_counter_state() == if s.beam_scanline == 0 {
                    ((old(self).field_counter_state() + 1) % 256) as u8
                } else {
                    old(self).field_counter_state()
                }
                &&& final(self).trigger_state() == old(self).trigger_state()
                    + crtc::next_scanline_cycles(next, r)
                &&& final(self).vsync_state() == (next.vsync_lines > 0)
                &&& outcome.vsync_change == if old(self).vsync_state() == (next.vsync_lines > 0) {
                    None
                } else {
                    Some(next.vsync_lines > 0)
                }
                &&& outcome.field_complete == (next.beam_scanline == 0)
                &&& forall|i: int|
                    0 <= i < MAX_LINES && !(p.in_scan && i == p.beam_scanline) ==> #[trigger] new_lines[i]
                        == line_before_snapshot(old_lines[i], cleared)
                &&& p.in_scan ==> snapshot_done(
                    new_lines[p.beam_scanline as int],
                    line_before_snapshot(old_lines[p.beam_scanline as int], cleared),
                    p.address,
                    p.raster_address_even,
                    p.raster_address_odd,
                    ic32_latch,
                    old(self).scanline_field_counter(),
                    r,
                    get_buffer,
                )
            }),
    {
        let registers = self.registers;
        let snapshot_params = self.crtc.get_snapshot_params(&registers);
        let ghost field_before = self.field_data;
        if snapshot_params.beam_scanline == 0 {
            self.field_counter = self.field_counter.wrapping_add(1);
            self.field_data.clear();
        }
        let ghost cleared_field = self.field_data;
        if snapshot_params.in_scan {
            self.field_data.snapshot_scanline(
                snapshot_params.beam_scanline as usize,
                snapshot_params.address,
                snapshot_params.raster_address_even,
                snapshot_params.raster_address_odd,
                ic32_latch,
                self.field_counter,
                &registers,
                get_buffer,
            );
        }
        self.crtc.advance_scanline(&registers);
        self.next_scanline_trigger += self.crtc.get_next_scanline_trigger(&registers) as u64;
        let new_vsync = self.crtc.is_in_vsync();
        let mut vsync_change = None;
        if self.vsync != new_vsync {
            self.vsync = new_vsync;
            vsync_change = Some(new_vsync);
        }
        // the field is complete when the beam is back at the top
        ScanlineOutcome { field_complete: self.crtc.is_beam_reset(), vsync_change }
    }

    pub fn get_next_scanline_trigger(&self) -> (t: u64)
        ensures
            t == self.trigger_state(),
    {
        self.next_scanline_trigger
    }

    /// The field that the scanlines are recorded into.
    pub fn get_field_start(&self) -> (f: &Field)
        ensures
            *f == self.field_state(),
    {
        &self.field_data
    }
}

/// The field counter that a scanline sees is the one before plus 1 (mod
/// 256) exactly when the beam is on scanline 0, whatever the character row
/// and whether the row is displayed; on any other scanline it is unchanged.
pub proof fn lemma_field_counter_counts_fields(v: Video)
    ensures
        v.crtc_state().beam_scanline == 0 ==> v.scanline_field_counter() as int == (
        v.field_counter_state() + 1) % 256,
        v.crtc_state().beam_scanline != 0 ==> v.scanline_field_counter() == v.field_counter_state(),
{
}

impl Default for Video {
    fn default() -> (v: Self)
        ensures
            v.crtc_state() == (CrtcState {
                char_row: 0,
                char_raster: 0,
                address: 0,
                vsync_lines: 0,
                beam_scanline: 0,
                odd_field: false,
            }),
            v.registers_state() == video_registers::zeroed_registers(),
            v.field_counter_state() == 0,
            v.trigger_state() == 0,
            !v.vsync_state(),
            forall|i: int|
                0 <= i < MAX_LINES ==> field_line::is_empty_line(#[trigger] v.field_state().lines[i]),
    {
        Video::new()
    }
}

} // verus!
