use vstd::prelude::*;

use crate::video::video_registers::VideoRegisters;

verus! {

/// Points of a field at which the CRTC acts.
#[derive(Clone, Copy, Debug, PartialEq, Eq, Structural)]
pub enum CharRowPosition {
    StartOfField,
    StartOfCharRow,
    VsyncStart,
}

/// Counts the character rows of a field and the scanlines (rasters)
/// within the current row.
pub struct CharRowControl {
    char_row: u8,
    char_raster: u8,
}

/// The character row and raster after one more scanline: the raster moves
/// on; at the end of a row (R9 rasters, see `rasters_per_char`) the next
/// row starts, while rows up to R4 remain; past R4 come R5 adjust
/// scanlines, after which the field starts again.
pub open spec fn char_row_step(row: u8, raster: u8, r: VideoRegisters) -> (u8, u8) {
    let next_raster = raster + 1;
    let row_ends = row <= r.crtc_r4_vertical_total && next_raster >= r.rasters_per_char();
    let row1: int = if row_ends {
        row + 1
    } else {
        row as int
    };
    let raster1: int = if row_ends {
        0
    } else {
        next_raster
    };
    if row1 > r.crtc_r4_vertical_total && raster1 >= r.crtc_r5_vertical_total_adjust {
        (0, 0)
    } else {
        (row1 as u8, raster1 as u8)
    }
}

/// The point of the field at a row and raster: the field starts at row 0,
/// raster 0; a row starts at raster 0; the vertical sync starts at the
/// second raster of row R7.
pub open spec fn char_row_position(row: u8, raster: u8, r: VideoRegisters) -> Option<CharRowPosition> {
    if row == 0 && raster == 0 {
        Some(CharRowPosition::StartOfField)
    } else if raster == 0 {
        Some(CharRowPosition::StartOfCharRow)
    } else if row == r.crtc_r7_vertical_sync_position && raster == 1 {
        Some(CharRowPosition::VsyncStart)
    } else {
        None
    }
}

/// The raster address that the CRTC puts out for the even field: doubled
/// in interlace sync and video mode.
pub open spec fn raster_address_even(raster: u8, r: VideoRegisters) -> u8 {
    if r.interlace_sync_and_video() {
        ((raster * 2) % 256) as u8
    } else {
        raster
    }
}

/// The raster address for the odd field: one more than the even one in
/// interlace sync and video mode, else the same.
pub open spec fn raster_address_odd(raster: u8, r: VideoRegisters) -> u8 {
    if r.interlace_sync_and_video() {
        (raster_address_even(raster, r) + 1) as u8
    } else {
        raster_address_even(raster, r)
    }
}

/// The registers meet the range that the CRTC hardware gives R4 and R5.
pub open spec fn vertical_registers_in_range(r: VideoRegisters) -> bool {
    r.crtc_r4_vertical_total <= 0x7f && r.crtc_r5_vertical_total_adjust <= 0x1f
}

/// The character row and raster `n` scanlines after the start of a field,
/// with the registers unchanged.
pub open spec fn char_row_after(r: VideoRegisters, n: nat) -> (u8, u8)
    decreases n,
{
    if n == 0 {
        (0, 0)
    } else {
        let prev = char_row_after(r, (n - 1) as nat);
        char_row_step(prev.0, prev.1, r)
    }
}

/// Scanlines in a field: R4 + 1 character rows, then R5 adjust scanlines.
pub open spec fn field_length(r: VideoRegisters) -> int {
    (r.crtc_r4_vertical_total + 1) * r.rasters_per_char() + r.crtc_r5_vertical_total_adjust
}

proof fn lemma_char_rows(r: VideoRegisters, q: int, k: int)
    requires
        vertical_registers_in_range(r),
        r.rasters_per_char() <= 255,
        0 <= q <= r.crtc_r4_vertical_total,
        0 <= k < r.rasters_per_char(),
    ensures
        q * r.rasters_per_char() + k >= 0,
        char_row_after(r, (q * r.rasters_per_char() + k) as nat) == (q as u8, k as u8),
    decreases q, k,
{
    let rpc = r.rasters_per_char();
    assert(q * rpc >= 0) by (nonlinear_arith)
        requires
            q >= 0,
            rpc >= 1,
    ;
    let n = q * rpc + k;
    if k > 0 {
        lemma_char_rows(r, q, k - 1);
        assert(char_row_after(r, n as nat) == char_row_step(q as u8, (k - 1) as u8, r));
    } else if q > 0 {
        lemma_char_rows(r, q - 1, rpc - 1);
        assert((q - 1) * rpc + (rpc - 1) + 1 == q * rpc) by (nonlinear_arith);
        assert(char_row_after(r, n as nat) == char_row_step((q - 1) as u8, (rpc - 1) as u8, r));
    } else {
        assert(q * rpc == 0) by (nonlinear_arith)
            requires
                q == 0,
        ;
    }
}

proof fn lemma_adjust_rows(r: VideoRegisters, k: int)
    requires
        vertical_registers_in_range(r),
        r.rasters_per_char() <= 255,
        0 <= k < r.crtc_r5_vertical_total_adjust,
    ensures
        (r.crtc_r4_vertical_total + 1) * r.rasters_per_char() + k >= 0,
        char_row_after(r, ((r.crtc_r4_vertical_total + 1) * r.rasters_per_char() + k) as nat) == (
        (r.crtc_r4_vertical_total + 1) as u8, k as u8),
    decreases k,
{
    let rpc = r.rasters_per_char();
    let r4 = r.crtc_r4_vertical_total as int;
    let n = (r4 + 1) * rpc + k;
    assert((r4 + 1) * rpc >= 0) by (nonlinear_arith)
        requires
            r4 >= 0,
            rpc >= 1,
    ;
    if k > 0 {
        lemma_adjust_rows(r, k - 1);
        assert(char_row_after(r, n as nat) == char_row_step((r4 + 1) as u8, (k - 1) as u8, r));
    } else {
        lemma_char_rows(r, r4, rpc - 1);
        assert(r4 * rpc + (rpc - 1) + 1 == (r4 + 1) * rpc) by (nonlinear_arith);
        assert(char_row_after(r, n as nat) == char_row_step(r4 as u8, (rpc - 1) as u8, r));
    }
}

/// With unchanged registers (R4 and R5 in range, at most 255 rasters per
/// character row), a field is `field_length` scanlines long: the CRTC is
/// back at row 0, raster 0 exactly `field_length` scanlines after the start
/// of a field, and at no scanline in between.
pub proof fn lemma_field_length(r: VideoRegisters)
    requires
        vertical_registers_in_range(r),
        r.rasters_per_char() <= 255,
    ensures
        field_length(r) > 0,
        char_row_after(r, field_length(r) as nat) == (0u8, 0u8),
        forall|n: nat| 0 < n < field_length(r) ==> #[trigger] char_row_after(r, n) != (0u8, 0u8),
{
    let rpc = r.rasters_per_char();
    let r4 = r.crtc_r4_vertical_total as int;
    let r5 = r.crtc_r5_vertical_total_adjust as int;
    assert((r4 + 1) * rpc >= rpc) by (nonlinear_arith)
        requires
            r4 >= 0,
            rpc >= 1,
    ;
    let len = field_length(r);
    if r5 == 0 {
        lemma_char_rows(r, r4, rpc - 1);
        assert(r4 * rpc + (rpc - 1) + 1 == (r4 + 1) * rpc) by (nonlinear_arith);
        assert(char_row_after(r, len as nat) == char_row_step(r4 as u8, (rpc - 1) as u8, r));
    } else {
        lemma_adjust_rows(r, r5 - 1);
        assert(char_row_after(r, len as nat) == char_row_step((r4 + 1) as u8, (r5 - 1) as u8, r));
    }
    assert forall|n: nat| 0 < n < field_length(r) implies #[trigger] char_row_after(r, n) != (
    0u8,
    0u8,
    ) by {
        if n < (r4 + 1) * rpc {
            let q = n as int / rpc;
            let k = n as int % rpc;
            vstd::arithmetic::div_mod::lemma_fundamental_div_mod(n as int, rpc);
            assert(q <= r4) by (nonlinear_arith)
                requires
                    n == rpc * q + k,
                    0 <= k,
                    n < (r4 + 1) * rpc,
                    rpc >= 1,
            ;
            assert(q >= 0) by (nonlinear_arith)
                requires
                    n == rpc * q + k,
                    k < rpc,
                    n >= 0,
                    rpc >= 1,
            ;
            lemma_char_rows(r, q, k);
            assert(q * rpc == rpc * q) by (nonlinear_arith);
            assert(q * rpc + k == n);
            if q == 0 {
                assert(q * rpc == 0) by (nonlinear_arith)
                    requires
                        q == 0,
                ;
            }
        } else {
            lemma_adjust_rows(r, n - (r4 + 1) * rpc);
        }
    }
}

impl CharRowControl {
    /// The character row and the raster within it.
    pub closed spec fn view(&self) -> (u8, u8) {
        (self.char_row, self.char_raster)
    }

    pub fn new() -> (c: Self)
        ensures
            c@ == (0u8, 0u8),
    {
        CharRowControl { char_row: 0, char_raster: 0 }
    }

    pub fn reset(&mut self)
        ensures
            final(self)@ == (0u8, 0u8),
    {
        self.char_row = 0;
        self.char_raster = 0;
    }

    /// Moves on by one scanline.
    pub fn advance_scanline(&mut self, registers: &VideoRegisters)
        requires
            vertical_registers_in_range(*registers),
            old(self)@.1 < 255,
        ensures
            final(self)@ == char_row_step(old(self)@.0, old(self)@.1, *registers),
    {
        self.char_raster += 1;
        if self.char_row <= registers.crtc_r4_vertical_total && self.char_raster as u16
            >= registers.r8_r9_rasters_per_char() {
            self.char_row += 1;
            self.char_raster = 0;
        }
        if self.char_row > registers.crtc_r4_vertical_total && self.char_raster
            >= registers.crtc_r5_vertical_total_adjust {
            self.reset();
        }
    }

    pub fn get_position(&self, registers: &VideoRegisters) -> (p: Option<CharRowPosition>)
        ensures
            p == char_row_position(self@.0, self@.1, *registers),
    {
        if self.char_row == 0 && self.char_raster == 0 {
            Some(CharRowPosition::StartOfField)
        } else if self.char_raster == 0 {
            Some(CharRowPosition::StartOfCharRow)
        } else if self.char_row == registers.crtc_r7_vertical_sync_position
        // after the first raster of the vertical sync row
        && self.char_raster == 1 {
            Some(CharRowPosition::VsyncStart)
        } else {
            None
        }
    }

    pub fn is_at_start(&self) -> (r: bool)
        ensures
            r == (self@.0 == 0 && self@.1 == 0),
    {
        self.char_row == 0 && self.char_raster == 0
    }

    /// The row is one of the R6 displayed rows.
    pub fn is_in_scan(&self, registers: &VideoRegisters) -> (r: bool)
        ensures
            r == (self@.0 < registers.crtc_r6_vertical_displayed),
    {
        self.char_row < registers.crtc_r6_vertical_displayed
    }

    pub fn get_raster_address_even(&self, registers: &VideoRegisters) -> (a: u8)
        ensures
            a == raster_address_even(self@.1, *registers),
    {
        if registers.r8_is_interlace_sync_and_video() {
            let raster = self.char_raster;
            assert(raster << 1 == ((raster * 2) % 256) as u8) by (bit_vector);
            raster << 1
        } else {
            self.char_raster
        }
    }

    pub fn get_raster_address_odd(&self, registers: &VideoRegisters) -> (a: u8)
        ensures
            a == raster_address_odd(self@.1, *registers),
    {
        if registers.r8_is_interlace_sync_and_video() {
            let even = self.get_raster_address_even(registers);
            assert(even % 2 == 0);
            even + 1
        } else {
            self.get_raster_address_even(registers)
        }
    }
}

impl Default for CharRowControl {
    fn default() -> (c: Self)
        ensures
            c@ == (0u8, 0u8),
    {
        CharRowControl::new()
    }
}

/// A field is R4 + 1 character rows of R9 + 1 scanlines each (R9 / 2 + 1
/// when R8 bits 0 and 1 are both set, interlace sync and video), then R5
/// adjust scanlines.
pub proof fn lemma_field_length_by_registers(r: VideoRegisters)
    ensures
        field_length(r) == (r.crtc_r4_vertical_total + 1) * (if r.crtc_r8_interlace_and_skew % 4
            == 3 {
            r.crtc_r9_maximum_raster_address / 2 + 1
        } else {
            r.crtc_r9_maximum_raster_address + 1
        }) + r.crtc_r5_vertical_total_adjust,
{
    let r8 = r.crtc_r8_interlace_and_skew;
    assert(r8 & 0x03 == 0x03 <==> r8 % 4 == 3) by (bit_vector);
}

/// The raster addresses put out for a raster: in interlace sync and video
/// mode (R8 bits 0 and 1 both set) twice the raster (as a byte) for the even
/// field and one more for the odd field; otherwise the raster itself for
/// both.
pub proof fn lemma_raster_addresses(raster: u8, r: VideoRegisters)
    ensures
        r.crtc_r8_interlace_and_skew % 4 == 3 ==> raster_address_even(raster, r) == (2 * raster)
            % 256 && raster_address_odd(raster, r) == (2 * raster) % 256 + 1,
        r.crtc_r8_interlace_and_skew % 4 != 3 ==> raster_address_even(raster, r) == raster
            && raster_address_odd(raster, r) == raster,
{
    let r8 = r.crtc_r8_interlace_and_skew;
    assert(r8 & 0x03 == 0x03 <==> r8 % 4 == 3) by (bit_vector);
    assert((2 * raster) % 256 % 2 == 0);
}

} // verus!
