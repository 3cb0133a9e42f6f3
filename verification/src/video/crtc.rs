pub mod address_control;
pub mod beam_control;
pub mod char_row;
pub mod vsync_control;
pub mod char_raster_control;

use vstd::prelude::*;

use self::address_control::AddressControl;
use self::beam_control::BeamControl;
use self::char_row::{
    char_row_after, char_row_position, char_row_step, field_length, lemma_field_length,
    raster_address_even, raster_address_odd, vertical_registers_in_range, CharRowControl,
    CharRowPosition,
};
use self::vsync_control::{vsync_step, VSyncControl};
use crate::video::field_data::MAX_LINES;
use crate::video::video_registers::VideoRegisters;

verus! {

/// What the video circuits need to know to snapshot the current scanline.
#[derive(Clone, Copy, Debug)]
pub struct SnapshotParams {
    pub in_scan: bool,
    pub beam_scanline: u16,
    pub address: u16,
    pub raster_address_even: u8,
    pub raster_address_odd: u8,
}

/// The CRTC: it scans the field scanline by scanline, keeps the memory
/// address of the current character row, and times vertical sync.
pub struct Crtc {
    char_row_control: CharRowControl,
    address_control: AddressControl,
    vsync_control: VSyncControl,
    beam_control: BeamControl,
    odd_field: bool,
}

/// The state of the CRTC as a whole.
#[derive(Clone, Copy, Debug, PartialEq, Eq, Structural)]
pub struct CrtcState {
    pub char_row: u8,
    pub char_raster: u8,
    pub address: u16,
    pub vsync_lines: u8,
    pub beam_scanline: u16,
    pub odd_field: bool,
}

/// The CRTC state after one more scanline. The beam moves down (wrapping
/// after the last scanline of a field), a running vertical sync counts
/// down, and the character row and raster move on. Then, at the start of
/// a field the address goes back to the screen start and the field parity
/// flips; at the start of a character row the address moves on by R1
/// characters; at the vertical sync position a vertical sync starts, and
/// the beam goes back to the top, unless one is already running.
pub open spec fn crtc_step(s: CrtcState, r: VideoRegisters) -> CrtcState {
    let (row, raster) = char_row_step(s.char_row, s.char_raster, r);
    let vsync = vsync_step(s.vsync_lines);
    let moved = CrtcState {
        char_row: row,
        char_raster: raster,
        vsync_lines: vsync,
        beam_scanline: ((s.beam_scanline + 1) % (MAX_LINES as int)) as u16,
        ..s
    };
    match char_row_position(row, raster, r) {
        Some(CharRowPosition::StartOfField) => CrtcState {
            address: r.screen_address() as u16,
            odd_field: !s.odd_field,
            ..moved
        },
        Some(CharRowPosition::StartOfCharRow) => CrtcState {
            address: ((s.address + r.crtc_r1_horizontal_displayed) % 0x4000) as u16,
            ..moved
        },
        Some(CharRowPosition::VsyncStart) => if vsync == 0 {
            CrtcState {
                vsync_lines: (r.crtc_r3_sync_width / 16) as u8,
                beam_scanline: 0,
                ..moved
            }
        } else {
            moved
        },
        None => moved,
    }
}

/// The CRTC can move on by a scanline without an arithmetic overflow:
/// R4 and R5 are in their hardware range, the raster counter is below its
/// maximum, and a new character row's address does not pass 0xffff.
pub open spec fn can_step(s: CrtcState, r: VideoRegisters) -> bool {
    let (row, raster) = char_row_step(s.char_row, s.char_raster, r);
    &&& vertical_registers_in_range(r)
    &&& s.char_raster < 255
    &&& char_row_position(row, raster, r) == Some(CharRowPosition::StartOfCharRow) ==> s.address
        + r.crtc_r1_horizontal_displayed <= u16::MAX
}

/// The state right after `init`.
pub open spec fn initial_state(r: VideoRegisters) -> CrtcState {
    CrtcState {
        char_row: 0,
        char_raster: 0,
        address: r.screen_address() as u16,
        vsync_lines: 0,
        beam_scanline: 0,
        odd_field: false,
    }
}

/// The scanline parameters of a state.
pub open spec fn snapshot_params_of(s: CrtcState, r: VideoRegisters) -> SnapshotParams {
    SnapshotParams {
        in_scan: s.char_row < r.crtc_r6_vertical_displayed,
        beam_scanline: s.beam_scanline,
        address: s.address,
        raster_address_even: raster_address_even(s.char_raster, r),
        raster_address_odd: raster_address_odd(s.char_raster, r),
    }
}

/// CPU cycles until the next scanline: R0 + 1 characters, two cycles per
/// character at the low character clock, doubled at the start of an odd
/// field in interlace mode to offset the field by half a scanline.
pub open spec fn next_scanline_cycles(s: CrtcState, r: VideoRegisters) -> int {
    let line = if r.ula_control & 0x10 != 0 {
        r.crtc_r0_horizontal_total + 1
    } else {
        (r.crtc_r0_horizontal_total + 1) * 2
    };
    if s.char_row == 0 && s.char_raster == 0 && s.odd_field && r.crtc_r8_interlace_and_skew & 0x01
        != 0 {
        line * 2
    } else {
        line
    }
}

/// Outside interlace mode every scanline takes the same number of cycles,
/// whatever the state of the CRTC.
pub proof fn lemma_trigger_constant_without_interlace(s1: CrtcState, s2: CrtcState, r: VideoRegisters)
    requires
        r.crtc_r8_interlace_and_skew & 0x01 == 0,
    ensures
        next_scanline_cycles(s1, r) == next_scanline_cycles(s2, r),
{
}

/// The cycles until the next scanline are the line's R0 + 1 characters at
/// one cycle each with the high character clock (ULA control bit 4) and two
/// otherwise; at row 0, raster 0 of an odd field with R8 bit 0 (interlace)
/// set, whatever R8's other bits, they are twice that, which offsets the
/// field by half a line.
pub proof fn lemma_next_scanline_cycles(s: CrtcState, r: VideoRegisters)
    ensures
        ({
            let per_char = if r.ula_control & 0x10 != 0 {
                1int
            } else {
                2int
            };
            let line = (r.crtc_r0_horizontal_total + 1) * per_char;
            &&& (s.char_row == 0 && s.char_raster == 0 && s.odd_field
                && r.crtc_r8_interlace_and_skew % 2 == 1) ==> next_scanline_cycles(s, r) == 2 * line
            &&& !(s.char_row == 0 && s.char_raster == 0 && s.odd_field
                && r.crtc_r8_interlace_and_skew % 2 == 1) ==> next_scanline_cycles(s, r) == line
        }),
{
    let r8 = r.crtc_r8_interlace_and_skew;
    assert(r8 & 0x01 != 0 <==> r8 % 2 == 1) by (bit_vector);
}

/// In interlace mode the first scanline of an odd field takes twice as long
/// as any scanline that is not the first of an odd field.
pub proof fn lemma_odd_field_start_offset(start: CrtcState, other: CrtcState, r: VideoRegisters)
    requires
        start.char_row == 0,
        start.char_raster == 0,
        start.odd_field,
        r.crtc_r8_interlace_and_skew % 2 == 1,
        !(other.char_row == 0 && other.char_raster == 0 && other.odd_field),
    ensures
        next_scanline_cycles(start, r) == 2 * next_scanline_cycles(other, r),
{
    lemma_next_scanline_cycles(start, r);
    lemma_next_scanline_cycles(other, r);
}

/// One scanline of the CRTC by register values: at the start of a field
/// (row 0, raster 0) the address is the screen start R12:R13 and the field
/// parity flips; at the start of any other character row the address moves
/// on by R1 characters within the 16K of CRTC addresses; otherwise it stays.
/// When the CRTC reaches raster 1 of row R7 and no vertical sync is left
/// running, a vertical sync of R3's high four bits in scanlines starts and
/// the beam goes back to scanline 0; otherwise the beam moves down by one
/// (wrapping after the last line) and a running vertical sync counts down.
pub proof fn lemma_crtc_step_by_registers(s: CrtcState, r: VideoRegisters)
    ensures
        ({
            let n = crtc_step(s, r);
            let field_start = n.char_row == 0 && n.char_raster == 0;
            let vsync_starts = n.char_row == r.crtc_r7_vertical_sync_position && n.char_raster == 1
                && s.vsync_lines <= 1;
            &&& field_start ==> n.address == r.crtc_r12_start_address_h * 256
                + r.crtc_r13_start_address_l
            &&& field_start ==> n.odd_field == !s.odd_field
            &&& !field_start ==> n.odd_field == s.odd_field
            &&& (!field_start && n.char_raster == 0) ==> n.address == (s.address
                + r.crtc_r1_horizontal_displayed) % 0x4000
            &&& n.char_raster != 0 ==> n.address == s.address
            &&& vsync_starts ==> n.beam_scanline == 0 && n.vsync_lines == r.crtc_r3_sync_width / 16
            &&& !vsync_starts ==> n.beam_scanline == (s.beam_scanline + 1) % 320
            &&& !vsync_starts && s.vsync_lines > 0 ==> n.vsync_lines == s.vsync_lines - 1
            &&& !vsync_starts && s.vsync_lines == 0 ==> n.vsync_lines == 0
        }),
{
}

/// The CRTC state `n` scanlines after `s`, with the registers unchanged.
pub open spec fn crtc_after(s: CrtcState, r: VideoRegisters, n: nat) -> CrtcState
    decreases n,
{
    if n == 0 {
        s
    } else {
        crtc_step(crtc_after(s, r, (n - 1) as nat), r)
    }
}

proof fn lemma_crtc_rows_follow_char_rows(r: VideoRegisters, n: nat)
    ensures
        crtc_after(initial_state(r), r, n).char_row == char_row_after(r, n).0,
        crtc_after(initial_state(r), r, n).char_raster == char_row_after(r, n).1,
    decreases n,
{
    if n > 0 {
        lemma_crtc_rows_follow_char_rows(r, (n - 1) as nat);
    }
}

/// With unchanged registers (R4 and R5 in range, at most 255 rasters per
/// character row), the CRTC started at a field comes back to the start of
/// a field after exactly `field_length` scanlines, and not before; there the
/// address is the screen start address again and the field parity has
/// flipped.
pub proof fn lemma_crtc_field(r: VideoRegisters)
    requires
        vertical_registers_in_range(r),
        r.rasters_per_char() <= 255,
    ensures
        ({
            let end = crtc_after(initial_state(r), r, field_length(r) as nat);
            &&& end.char_row == 0 && end.char_raster == 0
            &&& end.address == r.screen_address()
            &&& end.odd_field
        }),
        forall|n: nat|
            0 < n < field_length(r) ==> {
                let s = #[trigger] crtc_after(initial_state(r), r, n);
                !(s.char_row == 0 && s.char_raster == 0)
            },
{
    lemma_field_length(r);
    let len = field_length(r) as nat;
    lemma_crtc_rows_follow_char_rows(r, len);
    assert forall|n: nat| 0 < n < len implies !(#[trigger] crtc_after(
        initial_state(r),
        r,
        n,
    ).char_row == 0 && crtc_after(initial_state(r), r, n).char_raster == 0) by {
        lemma_crtc_rows_follow_char_rows(r, n);
        assert(char_row_after(r, n) != (0u8, 0u8));
    }
    lemma_parity_within_field(r, (len - 1) as nat);
}

proof fn lemma_parity_within_field(r: VideoRegisters, n: nat)
    requires
        vertical_registers_in_range(r),
        r.rasters_per_char() <= 255,
        n < field_length(r),
    ensures
        !crtc_after(initial_state(r), r, n).odd_field,
    decreases n,
{
    if n > 0 {
        lemma_field_length(r);
        lemma_parity_within_field(r, (n - 1) as nat);
        lemma_crtc_rows_follow_char_rows(r, n);
        assert(char_row_after(r, n) != (0u8, 0u8));
    }
}

impl Crtc {
    pub closed spec fn view(&self) -> CrtcState {
        CrtcState {
            char_row: self.char_row_control@.0,
            char_raster: self.char_row_control@.1,
            address: self.address_control@,
            vsync_lines: self.vsync_control@,
            beam_scanline: self.beam_control@,
            odd_field: self.odd_field,
        }
    }

    /// A CRTC with every counter at zero.
    pub fn new() -> (c: Self)
        ensures
            c@ == (CrtcState {
                char_row: 0,
                char_raster: 0,
                address: 0,
                vsync_lines: 0,
                beam_scanline: 0,
                odd_field: false,
            }),
    {
        Crtc {
            char_row_control: CharRowControl::new(),
            address_control: AddressControl::new(),
            vsync_control: VSyncControl::new(),
            beam_control: BeamControl::new(),
            odd_field: false,
        }
    }

    /// Puts the CRTC at the start of an even field.
    pub fn init(&mut self, registers: &VideoRegisters)
        ensures
            final(self)@ == initial_state(*registers),
    {
        self.char_row_control.reset();
        self.address_control.reset(registers);
        self.beam_control.reset();
        self.vsync_control.reset();
        self.odd_field = false;
    }

    /// Moves the CRTC on by one scanline.
    pub fn advance_scanline(&mut self, registers: &VideoRegisters)
        requires
            can_step(old(self)@, *registers),
        ensures
            final(self)@ == crtc_step(old(self)@, *registers),
    {
        self.beam_control.advance_scanline();
        self.vsync_control.advance_scanline();
        self.char_row_control.advance_scanline(registers);
        if let Some(position) = self.char_row_control.get_position(registers) {
            match position {
                CharRowPosition::StartOfField => {
                    self.address_control.reset(registers);
                    self.odd_field = !self.odd_field;
                },
                CharRowPosition::StartOfCharRow => {
                    self.address_control.advance_char_row(registers);
                },
                CharRowPosition::VsyncStart => {
                    if self.vsync_control.start_vsync_period(registers) {
                        self.beam_control.reset();
                    }
                },
            }
        }
    }

    /// The beam is at the top of the field.
    pub fn is_beam_reset(&self) -> (r: bool)
        ensures
            r == (self@.beam_scanline == 0),
    {
        self.beam_control.get_scanline() == 0
    }

    pub fn is_in_vsync(&self) -> (r: bool)
        ensures
            r == (self@.vsync_lines > 0),
    {
        self.vsync_control.is_in_vsync()
    }

    pub fn get_snapshot_params(&self, registers: &VideoRegisters) -> (p: SnapshotParams)
        ensures
            p == snapshot_params_of(self@, *registers),
            p.beam_scanline < MAX_LINES,
    {
        SnapshotParams {
            in_scan: self.char_row_control.is_in_scan(registers),
            beam_scanline: self.beam_control.get_scanline(),
            address: self.address_control.get_address(),
            raster_address_even: self.char_row_control.get_raster_address_even(registers),
            raster_address_odd: self.char_row_control.get_raster_address_odd(registers),
        }
    }

    /// CPU cycles from this scanline to the next.
    pub fn get_next_scanline_trigger(&self, registers: &VideoRegisters) -> (t: u16)
        ensures
            t == next_scanline_cycles(self@, *registers),
    {
        let mut next_scanline_trigger = registers.crtc_r0_horizontal_total as u16 + 1;
        if !registers.ula_is_high_frequency() {
            next_scanline_trigger *= 2;
        }
        // in interlace mode each field is offset by half a scanline, so
        // every other field starts with a delay for the two halves (an
        // approximation)
        if self.char_row_control.is_at_start() && self.odd_field && registers.r8_is_interlace() {
            next_scanline_trigger *= 2;
        }
        next_scanline_trigger
    }
}

impl Default for Crtc {
    fn default() -> (c: Self)
        ensures
            c@ == (CrtcState {
                char_row: 0,
                char_raster: 0,
                address: 0,
                vsync_lines: 0,
                beam_scanline: 0,
                odd_field: false,
            }),
    {
        Crtc::new()
    }
}

} // verus!
