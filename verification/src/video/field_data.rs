use core::ops::Range;
use vstd::prelude::*;

use crate::video::field_line::flags::{
    CURSOR_RASTER_EVEN, CURSOR_RASTER_ODD, DISPLAYED, HAS_BYTES, INTERLACE_VIDEO_AND_SYNC,
    INVALID_RANGE,
};
use crate::video::field_line::{
    is_empty_line, opt_bytes, opt_len, overwrite, stride_8, with_cursor_flags, FieldLine, MAX_CHARS,
};
use crate::video::video_memory_access::{
    crtc_range_type, hires_ranges, hires_translation, latch_of, teletext_ranges,
    teletext_translation, CRTCRangeType, VideoMemoryAccess, VideoMemoryRanges, IC32_5_4,
};
use crate::video::video_registers::{
    blink_mode_of, R10CursorBlinkMode, VideoRegisters, R8_CURSOR_DELAY_HIDDEN,
};

verus! {

/// Scanlines in one field.
pub const MAX_LINES: usize = 320;

/// The scanlines of one video field, as the display reads them.
pub struct Field {
    pub lines: [FieldLine; MAX_LINES],
}

/// What a scanline's character data is taken from.
pub enum ScanlineData {
    /// No character data is taken.
    Nothing,
    /// The CRTC addresses do not translate into video RAM.
    Invalid,
    /// One byte per character (teletext) from these RAM ranges.
    Bytes(VideoMemoryRanges),
    /// One raster of each 8-byte character cell (hi-res) from these ranges.
    RasterBytes(VideoMemoryRanges),
}

/// Characters from the end of horizontal sync to the end of the line:
/// the sync width is the low four bits of R3, at least 1, and the sync
/// ends no later than the end of the line.
pub open spec fn back_porch_of(r: VideoRegisters) -> int {
    let full = r.crtc_r0_horizontal_total + 1;
    let sync_width = if r.crtc_r3_sync_width % 16 >= 1 {
        r.crtc_r3_sync_width % 16
    } else {
        1
    };
    let sync_end = if r.crtc_r2_horizontal_sync_position + sync_width < full {
        r.crtc_r2_horizontal_sync_position + sync_width
    } else {
        full
    };
    full - sync_end
}

/// The line marked as displayed, with the line metrics of the registers.
pub open spec fn with_metrics(line: FieldLine, r: VideoRegisters) -> FieldLine {
    FieldLine {
        flags: if r.interlace_sync_and_video() {
            line.flags | DISPLAYED | INTERLACE_VIDEO_AND_SYNC
        } else {
            line.flags | DISPLAYED
        },
        total_chars: r.crtc_r1_horizontal_displayed,
        back_porch: back_porch_of(r) as u8,
        ..line
    }
}

/// The line with the ULA control and palette of the registers.
pub open spec fn with_ula(line: FieldLine, r: VideoRegisters) -> FieldLine {
    FieldLine { ula_control: r.ula_control, ula_palette: r.ula_palette, ..line }
}

/// The raster lies in the cursor's raster range, R10 (low five bits) to R11.
pub open spec fn raster_in_cursor(r: VideoRegisters, raster: u8) -> bool {
    r.crtc_r10_cursor_start_raster % 32 <= raster <= r.crtc_r11_cursor_end_raster
}

/// The cursor shows in this field: always when solid, never when hidden,
/// and when bit 3 (fast) or bit 4 (slow) of the field counter is set.
pub open spec fn blink_visible(mode: R10CursorBlinkMode, field_counter: u8) -> bool {
    match mode {
        R10CursorBlinkMode::Solid => true,
        R10CursorBlinkMode::Hidden => false,
        R10CursorBlinkMode::Fast => (field_counter / 8) % 2 == 1,
        R10CursorBlinkMode::Slow => (field_counter / 16) % 2 == 1,
    }
}

/// The cursor shows on this line: one of its rasters is in the cursor
/// range, the blink phase shows it, the delay does not hide it, and the
/// cursor address lies among the displayed characters of the line.
pub open spec fn cursor_shown(
    r: VideoRegisters,
    raster_even: u8,
    raster_odd: u8,
    field_counter: u8,
    address: u16,
) -> bool {
    &&& raster_in_cursor(r, raster_even) || raster_in_cursor(r, raster_odd)
    &&& blink_visible(blink_mode_of(r.crtc_r10_cursor_start_raster), field_counter)
    &&& r.crtc_r8_interlace_and_skew / 64 != R8_CURSOR_DELAY_HIDDEN
    &&& address <= r.cursor_address()
    &&& r.cursor_address() - address < r.crtc_r1_horizontal_displayed
}

/// The character position of the cursor: the cursor delay plus the cursor
/// address relative to the line's start address.
pub open spec fn cursor_position(r: VideoRegisters, address: u16) -> int {
    r.crtc_r8_interlace_and_skew / 64 + (r.cursor_address() - address)
}

/// The line with the cursor set, when the cursor shows on it.
pub open spec fn with_cursor(
    line: FieldLine,
    r: VideoRegisters,
    raster_even: u8,
    raster_odd: u8,
    field_counter: u8,
    address: u16,
) -> FieldLine {
    if cursor_shown(r, raster_even, raster_odd, field_counter, address) {
        FieldLine {
            cursor_char: cursor_position(r, address) as u8,
            flags: with_cursor_flags(
                line.flags,
                raster_in_cursor(r, raster_even),
                raster_in_cursor(r, raster_odd),
            ),
            ..line
        }
    } else {
        line
    }
}

/// Where the character data of a scanline comes from. Teletext takes the
/// R1 characters at the line's address; hi-res takes the raster of each of
/// the R1 character cells, unless the raster is past the cell or R8 turns
/// the display off.
pub open spec fn scanline_data(
    address: u16,
    raster_even: u8,
    ic32_latch: u8,
    r: VideoRegisters,
) -> ScanlineData {
    let length = r.crtc_r1_horizontal_displayed;
    if r.ula_control & 0x02 != 0 {
        if length == 0 {
            ScanlineData::Nothing
        } else {
            match teletext_ranges(address, length) {
                Some(ranges) => ScanlineData::Bytes(ranges),
                None => ScanlineData::Invalid,
            }
        }
    } else {
        if length == 0 || raster_even >= 8 || r.crtc_r8_interlace_and_skew & 0x30 == 0x30 {
            ScanlineData::Nothing
        } else {
            match hires_ranges(address, length, ic32_latch) {
                Some(ranges) => ScanlineData::RasterBytes(ranges),
                None => ScanlineData::Invalid,
            }
        }
    }
}

/// The end of the line's CRTC span is translated too: the line takes data,
/// and its start address translates into RAM.
pub open spec fn translates_span(address: u16, raster_even: u8, ic32_latch: u8, r: VideoRegisters) -> bool {
    let length = r.crtc_r1_horizontal_displayed;
    if r.ula_control & 0x02 != 0 {
        length != 0 && teletext_translation(address) is Some
    } else {
        length != 0 && raster_even < 8 && r.crtc_r8_interlace_and_skew & 0x30 != 0x30
            && hires_translation(address, ic32_latch) is Some
    }
}

/// `get_buffer` can be asked for any range of video RAM (addresses below
/// 0x8000); ranges beyond it are never asked for.
pub open spec fn serves_ram_ranges<'a, F: Fn(Range<u16>) -> &'a [u8]>(get_buffer: F) -> bool {
    forall|range: Range<u16>|
        range.start <= range.end <= 0x8000 ==> #[trigger] call_requires(get_buffer, (range,))
}

/// `first` and `second` are what `get_buffer` can give for the ranges.
pub open spec fn fetched<'a, F: Fn(Range<u16>) -> &'a [u8]>(
    get_buffer: F,
    ranges: VideoMemoryRanges,
    first: &'a [u8],
    second: Option<&'a [u8]>,
) -> bool {
    &&& call_ensures(get_buffer, (ranges.0,), first)
    &&& match ranges.1 {
        Some(range) => second matches Some(s) && call_ensures(get_buffer, (range,), s),
        None => second is None,
    }
}

/// Whatever `get_buffer` gives for the ranges fits in a line, one byte
/// per character.
pub open spec fn bytes_fit<'a, F: Fn(Range<u16>) -> &'a [u8]>(
    get_buffer: F,
    ranges: VideoMemoryRanges,
) -> bool {
    forall|first: &'a [u8], second: Option<&'a [u8]>|
        #[trigger] fetched(get_buffer, ranges, first, second) ==> first@.len() + opt_len(second)
            <= MAX_CHARS
}

/// Whatever `get_buffer` gives for the ranges is made of whole 8-byte
/// character cells, and one raster of them fits in a line.
pub open spec fn raster_bytes_fit<'a, F: Fn(Range<u16>) -> &'a [u8]>(
    get_buffer: F,
    ranges: VideoMemoryRanges,
) -> bool {
    forall|first: &'a [u8], second: Option<&'a [u8]>|
        #[trigger] fetched(get_buffer, ranges, first, second) ==> first@.len() % 8 == 0 && opt_len(
            second,
        ) % 8 == 0 && first@.len() / 8 + opt_len(second) / 8 <= MAX_CHARS
}

/// Whatever `get_buffer` gives for the line's ranges fits in the line.
pub open spec fn buffers_fit<'a, F: Fn(Range<u16>) -> &'a [u8]>(
    get_buffer: F,
    data: ScanlineData,
) -> bool {
    match data {
        ScanlineData::Bytes(ranges) => bytes_fit(get_buffer, ranges),
        ScanlineData::RasterBytes(ranges) => raster_bytes_fit(get_buffer, ranges),
        _ => true,
    }
}

/// `new` is `old` after a snapshot of the scanline, where `first` and
/// `second` are the bytes that were read for its character data.
pub open spec fn is_snapshot(
    new: FieldLine,
    old: FieldLine,
    address: u16,
    raster_even: u8,
    raster_odd: u8,
    ic32_latch: u8,
    field_counter: u8,
    r: VideoRegisters,
    first: Seq<u8>,
    second: Seq<u8>,
) -> bool {
    let base = with_cursor(
        with_ula(with_metrics(old, r), r),
        r,
        raster_even,
        raster_odd,
        field_counter,
        address,
    );
    match scanline_data(address, raster_even, ic32_latch, r) {
        ScanlineData::Nothing => new == base,
        ScanlineData::Invalid => new == FieldLine { flags: base.flags | INVALID_RANGE, ..base },
        ScanlineData::Bytes(_) => {
            &&& new == FieldLine { flags: base.flags | HAS_BYTES, char_data: new.char_data, ..base }
            &&& new.char_data@ == overwrite(base.char_data@, 0, first + second)
        },
        ScanlineData::RasterBytes(_) => {
            &&& new == FieldLine { flags: base.flags | HAS_BYTES, char_data: new.char_data, ..base }
            &&& new.char_data@ == overwrite(
                base.char_data@,
                0,
                stride_8(first, raster_even as int) + stride_8(second, raster_even as int),
            )
        },
    }
}

/// The RAM ranges that a line's data is read from, if it reads any.
pub open spec fn data_ranges(data: ScanlineData) -> Option<VideoMemoryRanges> {
    match data {
        ScanlineData::Bytes(ranges) => Some(ranges),
        ScanlineData::RasterBytes(ranges) => Some(ranges),
        _ => None,
    }
}

/// `new` is `old` after a snapshot whose data was read through
/// `get_buffer` from `ranges`.
pub open spec fn snapshot_from_fetch<'a, F: Fn(Range<u16>) -> &'a [u8]>(
    new: FieldLine,
    old: FieldLine,
    address: u16,
    raster_even: u8,
    raster_odd: u8,
    ic32_latch: u8,
    field_counter: u8,
    r: VideoRegisters,
    get_buffer: F,
    ranges: VideoMemoryRanges,
) -> bool {
    exists|first: &'a [u8], second: Option<&'a [u8]>|
        #[trigger] fetched(get_buffer, ranges, first, second) && is_snapshot(
            new,
            old,
            address,
            raster_even,
            raster_odd,
            ic32_latch,
            field_counter,
            r,
            first@,
            opt_bytes(second),
        )
}

/// `new` is `old` after a snapshot of the scanline, its data (if any)
/// read through `get_buffer`.
pub open spec fn snapshot_done<'a, F: Fn(Range<u16>) -> &'a [u8]>(
    new: FieldLine,
    old: FieldLine,
    address: u16,
    raster_even: u8,
    raster_odd: u8,
    ic32_latch: u8,
    field_counter: u8,
    r: VideoRegisters,
    get_buffer: F,
) -> bool {
    match data_ranges(scanline_data(address, raster_even, ic32_latch, r)) {
        Some(ranges) => snapshot_from_fetch(
            new,
            old,
            address,
            raster_even,
            raster_odd,
            ic32_latch,
            field_counter,
            r,
            get_buffer,
            ranges,
        ),
        None => is_snapshot(
            new,
            old,
            address,
            raster_even,
            raster_odd,
            ic32_latch,
            field_counter,
            r,
            Seq::empty(),
            Seq::empty(),
        ),
    }
}

/// Setting the cursor raster flags and marking a line as holding bytes or
/// an invalid range leave the displayed and interlace flags as they were.
proof fn lemma_later_flags_keep_line_flags(f: u8, extra: u8, even: bool, odd: bool)
    requires
        extra == 0 || extra == HAS_BYTES || extra == INVALID_RANGE,
    ensures
        (with_cursor_flags(f, even, odd) | extra) & (DISPLAYED | INTERLACE_VIDEO_AND_SYNC) == f & (
        DISPLAYED | INTERLACE_VIDEO_AND_SYNC),
        (f | extra) & (DISPLAYED | INTERLACE_VIDEO_AND_SYNC) == f & (DISPLAYED
            | INTERLACE_VIDEO_AND_SYNC),
{
    let e: u8 = if even {
        CURSOR_RASTER_EVEN
    } else {
        0
    };
    let o: u8 = if odd {
        CURSOR_RASTER_ODD
    } else {
        0
    };
    assert(with_cursor_flags(f, even, odd) == (f & !(0x10u8 | 0x20u8)) | e | o);
    assert((e == 0 || e == 0x10) && (o == 0 || o == 0x20));
    assert(((f & !(0x10u8 | 0x20u8)) | e | o | extra) & (0x01u8 | 0x08u8) == f & (0x01u8 | 0x08u8))
        by (bit_vector)
        requires
            e == 0 || e == 0x10,
            o == 0 || o == 0x20,
            extra == 0 || extra == 2 || extra == 4,
    ;
    assert((f | extra) & (0x01u8 | 0x08u8) == f & (0x01u8 | 0x08u8)) by (bit_vector)
        requires
            extra == 0 || extra == 2 || extra == 4,
    ;
}

/// A recorded scanline is the line with its metrics, ULA state and cursor
/// set, and with `extra` (no flag, HAS_BYTES or INVALID_RANGE) added to its
/// flags.
proof fn lemma_snapshot_base<'a, F: Fn(Range<u16>) -> &'a [u8]>(
    new: FieldLine,
    old: FieldLine,
    address: u16,
    raster_even: u8,
    raster_odd: u8,
    ic32_latch: u8,
    field_counter: u8,
    r: VideoRegisters,
    get_buffer: F,
) -> (extra: u8)
    requires
        snapshot_done(
            new,
            old,
            address,
            raster_even,
            raster_odd,
            ic32_latch,
            field_counter,
            r,
            get_buffer,
        ),
    ensures
        extra == 0 || extra == HAS_BYTES || extra == INVALID_RANGE,
        ({
            let base = with_cursor(
                with_ula(with_metrics(old, r), r),
                r,
                raster_even,
                raster_odd,
                field_counter,
                address,
            );
            &&& new.flags == base.flags | extra
            &&& new.total_chars == base.total_chars
            &&& new.back_porch == base.back_porch
            &&& new.ula_control == base.ula_control
            &&& new.ula_palette == base.ula_palette
            &&& new.cursor_char == base.cursor_char
        }),
{
    let m = with_ula(with_metrics(old, r), r);
    let base = with_cursor(m, r, raster_even, raster_odd, field_counter, address);
    let data = scanline_data(address, raster_even, ic32_latch, r);
    let (first, second): (Seq<u8>, Seq<u8>) = match data_ranges(data) {
        Some(ranges) => {
            let (f, g) = choose|f: &'a [u8], g: Option<&'a [u8]>|
                #[trigger] fetched(get_buffer, ranges, f, g) && is_snapshot(
                    new,
                    old,
                    address,
                    raster_even,
                    raster_odd,
                    ic32_latch,
                    field_counter,
                    r,
                    f@,
                    opt_bytes(g),
                );
            (f@, opt_bytes(g))
        },
        None => (Seq::empty(), Seq::empty()),
    };
    assert(is_snapshot(
        new,
        old,
        address,
        raster_even,
        raster_odd,
        ic32_latch,
        field_counter,
        r,
        first,
        second,
    ));
    let extra: u8 = match data {
        ScanlineData::Nothing => 0,
        ScanlineData::Invalid => INVALID_RANGE,
        _ => HAS_BYTES,
    };
    assert(new.flags == base.flags | extra) by {
        let b = base.flags;
        assert(b | 0 == b) by (bit_vector);
    }
    extra
}

/// A recorded scanline is marked displayed, and it is marked as interlace
/// sync and video exactly when both R8 bit 0 (interlace) and bit 1 (video)
/// are set, or the line was marked so before.
pub proof fn lemma_snapshot_line_flags<'a, F: Fn(Range<u16>) -> &'a [u8]>(
    new: FieldLine,
    old: FieldLine,
    address: u16,
    raster_even: u8,
    raster_odd: u8,
    ic32_latch: u8,
    field_counter: u8,
    r: VideoRegisters,
    get_buffer: F,
)
    requires
        snapshot_done(
            new,
            old,
            address,
            raster_even,
            raster_odd,
            ic32_latch,
            field_counter,
            r,
            get_buffer,
        ),
    ensures
        new.flags & DISPLAYED != 0,
        new.flags & INTERLACE_VIDEO_AND_SYNC != 0 <==> (old.flags & INTERLACE_VIDEO_AND_SYNC != 0
            || r.crtc_r8_interlace_and_skew % 4 == 3),
{
    let extra = lemma_snapshot_base(new, old, address, raster_even, raster_odd, ic32_latch, field_counter, r, get_buffer);
    let m = with_ula(with_metrics(old, r), r);
    let even_in = raster_in_cursor(r, raster_even);
    let odd_in = raster_in_cursor(r, raster_odd);
    lemma_later_flags_keep_line_flags(m.flags, extra, even_in, odd_in);
    let of = old.flags;
    let r8 = r.crtc_r8_interlace_and_skew;
    assert(new.flags & (DISPLAYED | INTERLACE_VIDEO_AND_SYNC) == m.flags & (DISPLAYED
        | INTERLACE_VIDEO_AND_SYNC));
    assert(m.flags == if r8 & 0x03 == 0x03 {
        of | DISPLAYED | INTERLACE_VIDEO_AND_SYNC
    } else {
        of | DISPLAYED
    });
    let nf = new.flags;
    let mf = m.flags;
    assert(nf & 0x01 != 0 && (nf & 0x08 != 0 <==> (of & 0x08 != 0 || r8 % 4 == 3))) by (bit_vector)
        requires
            nf & (0x01u8 | 0x08u8) == mf & (0x01u8 | 0x08u8),
            mf == if r8 & 0x03 == 0x03 {
                of | 0x01u8 | 0x08u8
            } else {
                of | 0x01u8
            },
    ;
}

/// A recorded scanline holds R1 as its character count, the ULA control
/// and palette registers, and as its back porch the characters from the
/// end of horizontal sync to the end of the line: the line has R0 + 1
/// characters and the sync, R3's low four bits wide (at least 1), starts
/// at R2 and ends no later than the line.
pub proof fn lemma_snapshot_line_metrics<'a, F: Fn(Range<u16>) -> &'a [u8]>(
    new: FieldLine,
    old: FieldLine,
    address: u16,
    raster_even: u8,
    raster_odd: u8,
    ic32_latch: u8,
    field_counter: u8,
    r: VideoRegisters,
    get_buffer: F,
)
    requires
        snapshot_done(
            new,
            old,
            address,
            raster_even,
            raster_odd,
            ic32_latch,
            field_counter,
            r,
            get_buffer,
        ),
    ensures
        new.total_chars == r.crtc_r1_horizontal_displayed,
        new.ula_control == r.ula_control,
        new.ula_palette == r.ula_palette,
        ({
            let line_end = r.crtc_r0_horizontal_total + 1;
            let sync_end = r.crtc_r2_horizontal_sync_position + if r.crtc_r3_sync_width % 16 == 0 {
                1
            } else {
                r.crtc_r3_sync_width % 16
            };
            &&& sync_end < line_end ==> new.back_porch == line_end - sync_end
            &&& sync_end >= line_end ==> new.back_porch == 0
        }),
{
    lemma_snapshot_base(new, old, address, raster_even, raster_odd, ic32_latch, field_counter, r, get_buffer);
}

/// The cursor fields of a line that holds `base`'s cursor position and
/// `base`'s flags with `extra` added, in terms of the register bits.
proof fn lemma_cursor_of_base(
    old: FieldLine,
    address: u16,
    raster_even: u8,
    raster_odd: u8,
    field_counter: u8,
    r: VideoRegisters,
    extra: u8,
    flags: u8,
    cursor_char: u8,
)
    requires
        extra == 0 || extra == HAS_BYTES || extra == INVALID_RANGE,
        ({
            let base = with_cursor(
                with_ula(with_metrics(old, r), r),
                r,
                raster_even,
                raster_odd,
                field_counter,
                address,
            );
            flags == base.flags | extra && cursor_char == base.cursor_char
        }),
    ensures
        ({
            let r10 = r.crtc_r10_cursor_start_raster;
            let even_in = r10 % 32 <= raster_even <= r.crtc_r11_cursor_end_raster;
            let odd_in = r10 % 32 <= raster_odd <= r.crtc_r11_cursor_end_raster;
            let blink = r10 / 32 % 4;
            let shows = blink == 0 || (blink == 2 && field_counter / 8 % 2 == 1) || (blink == 3
                && field_counter / 16 % 2 == 1);
            let cursor = r.crtc_r14_cursor_h * 256 + r.crtc_r15_cursor_l;
            let drawn = (even_in || odd_in) && shows && r.crtc_r8_interlace_and_skew / 64 != 3
                && address <= cursor < address + r.crtc_r1_horizontal_displayed;
            &&& drawn ==> cursor_char == (r.crtc_r8_interlace_and_skew / 64 + (cursor
                - address)) as u8
            &&& drawn ==> (flags & CURSOR_RASTER_EVEN != 0 <==> even_in)
            &&& drawn ==> (flags & CURSOR_RASTER_ODD != 0 <==> odd_in)
            &&& !drawn ==> cursor_char == old.cursor_char
            &&& !drawn ==> flags & (CURSOR_RASTER_EVEN | CURSOR_RASTER_ODD) == old.flags & (
            CURSOR_RASTER_EVEN | CURSOR_RASTER_ODD)
        }),
{
    let r10 = r.crtc_r10_cursor_start_raster;
    assert(r10 & 0x60 == 0x00 <==> r10 / 32 % 4 == 0) by (bit_vector);
    assert(r10 & 0x60 == 0x20 <==> r10 / 32 % 4 == 1) by (bit_vector);
    assert(r10 & 0x60 == 0x40 <==> r10 / 32 % 4 == 2) by (bit_vector);
    let m = with_ula(with_metrics(old, r), r);
    let of = old.flags;
    let mf = m.flags;
    let nf = flags;
    let r8 = r.crtc_r8_interlace_and_skew;
    let even_in = r10 % 32 <= raster_even <= r.crtc_r11_cursor_end_raster;
    let odd_in = r10 % 32 <= raster_odd <= r.crtc_r11_cursor_end_raster;
    let blink = r10 / 32 % 4;
    let shows = blink == 0 || (blink == 2 && field_counter / 8 % 2 == 1) || (blink == 3
        && field_counter / 16 % 2 == 1);
    assert(shows == blink_visible(blink_mode_of(r10), field_counter));
    assert(even_in == raster_in_cursor(r, raster_even));
    assert(odd_in == raster_in_cursor(r, raster_odd));
    let cursor = r.crtc_r14_cursor_h * 256 + r.crtc_r15_cursor_l;
    assert(cursor == r.cursor_address());
    let drawn = (even_in || odd_in) && shows && r.crtc_r8_interlace_and_skew / 64 != 3
        && address <= cursor < address + r.crtc_r1_horizontal_displayed;
    assert(drawn == cursor_shown(r, raster_even, raster_odd, field_counter, address));
    assert(mf == if r8 & 0x03 == 0x03 {
        of | DISPLAYED | INTERLACE_VIDEO_AND_SYNC
    } else {
        of | DISPLAYED
    });
    if cursor_shown(r, raster_even, raster_odd, field_counter, address) {
        let e = raster_in_cursor(r, raster_even);
        let o = raster_in_cursor(r, raster_odd);
        let ev: u8 = if e {
            0x10
        } else {
            0
        };
        let ov: u8 = if o {
            0x20
        } else {
            0
        };
        assert(nf == ((mf & !(0x10u8 | 0x20u8)) | ev | ov) | extra);
        assert((nf & 0x10 != 0 <==> ev == 0x10) && (nf & 0x20 != 0 <==> ov == 0x20)) by (bit_vector)
            requires
                nf == ((mf & !(0x10u8 | 0x20u8)) | ev | ov) | extra,
                ev == 0 || ev == 0x10,
                ov == 0 || ov == 0x20,
                extra == 0 || extra == 2 || extra == 4,
        ;
    } else {
        assert(nf == mf | extra);
        assert(nf & (0x10u8 | 0x20u8) == of & (0x10u8 | 0x20u8)) by (bit_vector)
            requires
                nf == mf | extra,
                mf == of | 0x01u8 | 0x08u8 || mf == of | 0x01u8,
                extra == 0 || extra == 2 || extra == 4,
        ;
    }
}

/// The cursor is drawn on a recorded scanline exactly when one of its two
/// rasters lies from R10's low five bits to R11; the blink mode in R10 bits
/// 6 and 5 shows it (0: always, 1: never, 2: when field counter bit 3 is
/// set, 3: when bit 4 is set); R8 bits 7 and 6 (the cursor delay) are not
/// both set; and the cursor address R14:R15 is one of the R1 characters
/// from the line's address. It is then at the delay plus its offset into
/// the line (as a byte), with a cursor flag for each raster in range. Otherwise the
/// line's cursor position and cursor flags are left as they were.
pub proof fn lemma_snapshot_cursor<'a, F: Fn(Range<u16>) -> &'a [u8]>(
    new: FieldLine,
    old: FieldLine,
    address: u16,
    raster_even: u8,
    raster_odd: u8,
    ic32_latch: u8,
    field_counter: u8,
    r: VideoRegisters,
    get_buffer: F,
)
    requires
        snapshot_done(
            new,
            old,
            address,
            raster_even,
            raster_odd,
            ic32_latch,
            field_counter,
            r,
            get_buffer,
        ),
    ensures
        ({
            let r10 = r.crtc_r10_cursor_start_raster;
            let even_in = r10 % 32 <= raster_even <= r.crtc_r11_cursor_end_raster;
            let odd_in = r10 % 32 <= raster_odd <= r.crtc_r11_cursor_end_raster;
            let blink = r10 / 32 % 4;
            let shows = blink == 0 || (blink == 2 && field_counter / 8 % 2 == 1) || (blink == 3
                && field_counter / 16 % 2 == 1);
            let cursor = r.crtc_r14_cursor_h * 256 + r.crtc_r15_cursor_l;
            let drawn = (even_in || odd_in) && shows && r.crtc_r8_interlace_and_skew / 64 != 3
                && address <= cursor < address + r.crtc_r1_horizontal_displayed;
            &&& drawn ==> new.cursor_char == (r.crtc_r8_interlace_and_skew / 64 + (cursor
                - address)) as u8
            &&& drawn ==> (new.flags & CURSOR_RASTER_EVEN != 0 <==> even_in)
            &&& drawn ==> (new.flags & CURSOR_RASTER_ODD != 0 <==> odd_in)
            &&& !drawn ==> new.cursor_char == old.cursor_char
            &&& !drawn ==> new.flags & (CURSOR_RASTER_EVEN | CURSOR_RASTER_ODD) == old.flags & (
            CURSOR_RASTER_EVEN | CURSOR_RASTER_ODD)
        }),
{
    let extra = lemma_snapshot_base(new, old, address, raster_even, raster_odd, ic32_latch, field_counter, r, get_buffer);
    lemma_cursor_of_base(
        old,
        address,
        raster_even,
        raster_odd,
        field_counter,
        r,
        extra,
        new.flags,
        new.cursor_char,
    );
}

/// The RAM ranges of a CRTC span that lies in one kind of video memory:
/// hi-res with the screen start that `ic32_5_4` selects, or teletext.
pub open spec fn char_data_ranges(crtc_address: u16, crtc_length: u8, ic32_5_4: IC32_5_4) -> Option<
    VideoMemoryRanges,
> {
    match crtc_range_type(crtc_address, crtc_length) {
        CRTCRangeType::HiRes => hires_ranges(crtc_address, crtc_length, latch_of(ic32_5_4)),
        CRTCRangeType::Teletext => teletext_ranges(crtc_address, crtc_length),
        CRTCRangeType::Mixed => None,
    }
}

/// A character row is copied: its span is not empty and lies in the kind of
/// video memory asked for. Any other row is blanked.
pub open spec fn copies_char_data(
    crtc_address: u16,
    crtc_length: u8,
    required_type: CRTCRangeType,
) -> bool {
    crtc_length != 0 && crtc_range_type(crtc_address, crtc_length) == required_type
}

/// `new` is `old` holding the bytes that `get_buffer` gave for `ranges`, one
/// per character, from the start of its character data.
pub open spec fn holds_fetched_bytes<'a, F: Fn(Range<u16>) -> &'a [u8]>(
    new: FieldLine,
    old: FieldLine,
    get_buffer: F,
    ranges: VideoMemoryRanges,
) -> bool {
    exists|first: &'a [u8], second: Option<&'a [u8]>|
        #[trigger] fetched(get_buffer, ranges, first, second) && new == (FieldLine {
            flags: old.flags | HAS_BYTES,
            char_data: new.char_data,
            ..old
        }) && new.char_data@ == overwrite(old.char_data@, 0, first@ + opt_bytes(second))
}

impl Field {
    /// A field of empty lines.
    pub fn new() -> (field: Self)
        ensures
            forall|i: int| 0 <= i < MAX_LINES ==> is_empty_line(#[trigger] field.lines[i]),
    {
        let field = Field { lines: [FieldLine::new(); MAX_LINES] };
        field
    }

    /// Marks every line as empty.
    pub fn clear(&mut self)
        ensures
            forall|i: int|
                0 <= i < MAX_LINES ==> #[trigger] final(self).lines[i] == (FieldLine {
                    flags: 0,
                    ..old(self).lines[i]
                }),
    {
        let mut i: usize = 0;
        while i < MAX_LINES
            invariant
                i <= MAX_LINES,
                forall|j: int|
                    0 <= j < i ==> #[trigger] self.lines[j] == (FieldLine {
                        flags: 0,
                        ..old(self).lines[j]
                    }),
                forall|j: int| i <= j < MAX_LINES ==> #[trigger] self.lines[j] == old(self).lines[j],
            decreases MAX_LINES - i,
        {
            let mut line = self.lines[i];
            line.clear();
            self.lines[i] = line;
            i = i + 1;
        }
    }

    /// Records scanline `line_index`: the line metrics, ULA state and cursor
    /// from the registers, and its character data read through
    /// `get_buffer` from the RAM ranges of its CRTC address.
    #[allow(clippy::too_many_arguments)]
    pub fn snapshot_scanline<'a>(
        &mut self,
        line_index: usize,
        crtc_memory_address: u16,
        crtc_raster_address_even: u8,
        crtc_raster_address_odd: u8,
        ic32_latch: u8,
        field_counter: u8,
        video_registers: &VideoRegisters,
        get_buffer: impl Fn(Range<u16>) -> &'a [u8],
    )
        requires
            line_index < MAX_LINES,
            translates_span(
                crtc_memory_address,
                crtc_raster_address_even,
                ic32_latch,
                *video_registers,
            ) ==> crtc_memory_address
                + video_registers.crtc_r1_horizontal_displayed <= u16::MAX,
            cursor_shown(
                *video_registers,
                crtc_raster_address_even,
                crtc_raster_address_odd,
                field_counter,
                crtc_memory_address,
            ) ==> cursor_position(*video_registers, crtc_memory_address) <= u8::MAX,
            serves_ram_ranges(get_buffer),
            buffers_fit(
                get_buffer,
                scanline_data(
                    crtc_memory_address,
                    crtc_raster_address_even,
                    ic32_latch,
                    *video_registers,
                ),
            ),
        ensures
            forall|i: int|
                0 <= i < MAX_LINES && i != line_index ==> #[trigger] final(self).lines[i] == old(
                    self,
                ).lines[i],
            snapshot_done(
                final(self).lines[line_index as int],
                old(self).lines[line_index as int],
                crtc_memory_address,
                crtc_raster_address_even,
                crtc_raster_address_odd,
                ic32_latch,
                field_counter,
                *video_registers,
                get_buffer,
            ),
    {
        let mut line = self.lines[line_index];
        set_line_metrics(&mut line, video_registers);
        set_line_ula_fields(&mut line, video_registers);
        set_line_cursor_fields(
            &mut line,
            crtc_raster_address_even,
            crtc_raster_address_odd,
            field_counter,
            crtc_memory_address,
            video_registers,
        );
        if video_registers.ula_is_teletext() {
            snapshot_teletext_scanline_data(
                &mut line,
                crtc_memory_address,
                video_registers,
                get_buffer,
            );
        } else {
            snapshot_hires_scanline_raster_data(
                &mut line,
                crtc_memory_address,
                crtc_raster_address_even,
                ic32_latch,
                video_registers,
                get_buffer,
            );
        }
        self.lines[line_index] = line;
    }
}

impl Field {
    /// Records the character data of one character row: a row whose span is
    /// empty or does not lie in the kind of video memory asked for is
    /// blanked (its flags cleared); otherwise the span is translated into
    /// RAM ranges and the bytes that `get_buffer` gives for them are copied
    /// into the row, one per character.
    pub fn snapshot_char_data<'a>(
        &mut self,
        row_index: usize,
        crtc_address: u16,
        crtc_length: u8,
        ic32_5_4: IC32_5_4,
        required_type: CRTCRangeType,
        get_buffer: impl Fn(Range<u16>) -> &'a [u8],
    )
        requires
            row_index < MAX_LINES,
            required_type != CRTCRangeType::Mixed,
            crtc_length != 0 ==> crtc_address + crtc_length <= u16::MAX,
            serves_ram_ranges(get_buffer),
            copies_char_data(crtc_address, crtc_length, required_type) ==> bytes_fit(
                get_buffer,
                char_data_ranges(crtc_address, crtc_length, ic32_5_4)->0,
            ),
        ensures
            forall|i: int|
                0 <= i < MAX_LINES && i != row_index ==> #[trigger] final(self).lines[i]
                    == old(self).lines[i],
            !copies_char_data(crtc_address, crtc_length, required_type)
                ==> final(self).lines[row_index as int] == (FieldLine {
                flags: 0,
                ..old(self).lines[row_index as int]
            }),
            copies_char_data(crtc_address, crtc_length, required_type) ==> holds_fetched_bytes(
                final(self).lines[row_index as int],
                old(self).lines[row_index as int],
                get_buffer,
                char_data_ranges(crtc_address, crtc_length, ic32_5_4)->0,
            ),
    {
        let mut line = self.lines[row_index];
        if crtc_length == 0 {
            line.clear();
            self.lines[row_index] = line;
            return;
        }
        let video_type = VideoMemoryAccess::get_crtc_range_type(crtc_address, crtc_length);
        if video_type != required_type {
            line.clear();
            self.lines[row_index] = line;
            return;
        }
        let ranges = VideoMemoryAccess::translate_crtc_range(crtc_address, crtc_length, ic32_5_4);
        let ghost all = ranges;
        let first = get_buffer(ranges.0);
        let second = match ranges.1 {
            Some(range) => Some(get_buffer(range)),
            None => None,
        };
        assert(fetched(get_buffer, all, first, second));
        assert(bytes_fit(get_buffer, all));
        line.set_char_data(first, second);
        self.lines[row_index] = line;
    }
}

fn snapshot_teletext_scanline_data<'a>(
    field_line: &mut FieldLine,
    crtc_memory_address: u16,
    video_registers: &VideoRegisters,
    get_buffer: impl Fn(Range<u16>) -> &'a [u8],
)
    requires
        video_registers.ula_control & 0x02 != 0,
        translates_span(crtc_memory_address, 0, 0, *video_registers) ==> crtc_memory_address
            + video_registers.crtc_r1_horizontal_displayed <= u16::MAX,
        serves_ram_ranges(get_buffer),
        buffers_fit(get_buffer, scanline_data(crtc_memory_address, 0, 0, *video_registers)),
    ensures
        ({
            let data = scanline_data(crtc_memory_address, 0, 0, *video_registers);
            match data {
                ScanlineData::Nothing => *final(field_line) == *old(field_line),
                ScanlineData::Invalid => *final(field_line) == (FieldLine {
                    flags: old(field_line).flags | INVALID_RANGE,
                    ..*old(field_line)
                }),
                ScanlineData::Bytes(ranges) => exists|first: &'a [u8], second: Option<&'a [u8]>|
                    fetched(get_buffer, ranges, first, second) && *final(field_line) == (FieldLine {
                        flags: old(field_line).flags | HAS_BYTES,
                        char_data: final(field_line).char_data,
                        ..*old(field_line)
                    }) && final(field_line).char_data@ == overwrite(
                        old(field_line).char_data@,
                        0,
                        first@ + opt_bytes(second),
                    ),
                ScanlineData::RasterBytes(_) => false,
            }
        }),
{
    let crtc_length = video_registers.crtc_r1_horizontal_displayed;
    if crtc_length == 0 {
        return;
    }
    match VideoMemoryAccess::translate_crtc_teletext_range(crtc_memory_address, crtc_length) {
        None => field_line.set_invalid_range(),
        Some(ranges) => {
            let ghost all = ranges;
            let first = get_buffer(ranges.0);
            let second = match ranges.1 {
                Some(range) => Some(get_buffer(range)),
                None => None,
            };
            assert(fetched(get_buffer, all, first, second));
            assert(scanline_data(crtc_memory_address, 0, 0, *video_registers)
                == ScanlineData::Bytes(all));
            assert(bytes_fit(get_buffer, all));
            field_line.set_char_data(first, second);
        },
    }
}

fn snapshot_hires_scanline_raster_data<'a>(
    field_line: &mut FieldLine,
    crtc_memory_address: u16,
    crtc_raster_address_even: u8,
    ic32_latch: u8,
    video_registers: &VideoRegisters,
    get_buffer: impl Fn(Range<u16>) -> &'a [u8],
)
    requires
        video_registers.ula_control & 0x02 == 0,
        translates_span(
            crtc_memory_address,
            crtc_raster_address_even,
            ic32_latch,
            *video_registers,
        ) ==> crtc_memory_address
            + video_registers.crtc_r1_horizontal_displayed <= u16::MAX,
        serves_ram_ranges(get_buffer),
        buffers_fit(
            get_buffer,
            scanline_data(crtc_memory_address, crtc_raster_address_even, ic32_latch, *video_registers),
        ),
    ensures
        ({
            let data = scanline_data(
                crtc_memory_address,
                crtc_raster_address_even,
                ic32_latch,
                *video_registers,
            );
            match data {
                ScanlineData::Nothing => *final(field_line) == *old(field_line),
                ScanlineData::Invalid => *final(field_line) == (FieldLine {
                    flags: old(field_line).flags | INVALID_RANGE,
                    ..*old(field_line)
                }),
                ScanlineData::RasterBytes(ranges) => exists|
                    first: &'a [u8],
                    second: Option<&'a [u8]>,
                |
                    fetched(get_buffer, ranges, first, second) && *final(field_line) == (FieldLine {
                        flags: old(field_line).flags | HAS_BYTES,
                        char_data: final(field_line).char_data,
                        ..*old(field_line)
                    }) && final(field_line).char_data@ == overwrite(
                        old(field_line).char_data@,
                        0,
                        stride_8(first@, crtc_raster_address_even as int) + stride_8(
                            opt_bytes(second),
                            crtc_raster_address_even as int,
                        ),
                    ),
                ScanlineData::Bytes(_) => false,
            }
        }),
{
    let crtc_length = video_registers.crtc_r1_horizontal_displayed;
    if crtc_length == 0 || crtc_raster_address_even >= 8
        || video_registers.r8_is_crtc_screen_delay_no_output() {
        return;
    }
    match VideoMemoryAccess::translate_crtc_hires_range(
        crtc_memory_address,
        crtc_length,
        ic32_latch,
    ) {
        None => field_line.set_invalid_range(),
        Some(ranges) => {
            let ghost all = ranges;
            let first = get_buffer(ranges.0);
            let second = match ranges.1 {
                Some(range) => Some(get_buffer(range)),
                None => None,
            };
            assert(fetched(get_buffer, all, first, second));
            assert(scanline_data(
                crtc_memory_address,
                crtc_raster_address_even,
                ic32_latch,
                *video_registers,
            ) == ScanlineData::RasterBytes(all));
            assert(raster_bytes_fit(get_buffer, all));
            field_line.set_char_data_for_raster(first, second, crtc_raster_address_even);
        },
    }
}

fn set_line_metrics(field_line: &mut FieldLine, video_registers: &VideoRegisters)
    ensures
        *final(field_line) == with_metrics(*old(field_line), *video_registers),
{
    field_line.set_displayed();
    field_line.total_chars = video_registers.crtc_r1_horizontal_displayed;
    field_line.back_porch = calc_back_porch(video_registers);
    if video_registers.r8_is_interlace_sync_and_video() {
        field_line.set_interlace_video_and_sync();
    }
}

fn set_line_ula_fields(field_line: &mut FieldLine, video_registers: &VideoRegisters)
    ensures
        *final(field_line) == with_ula(*old(field_line), *video_registers),
{
    field_line.ula_control = video_registers.ula_control;
    field_line.ula_palette = video_registers.ula_palette;
}

fn set_line_cursor_fields(
    field_line: &mut FieldLine,
    crtc_raster_address_even: u8,
    crtc_raster_address_odd: u8,
    field_counter: u8,
    crtc_memory_address: u16,
    video_registers: &VideoRegisters,
)
    requires
        cursor_shown(
            *video_registers,
            crtc_raster_address_even,
            crtc_raster_address_odd,
            field_counter,
            crtc_memory_address,
        ) ==> cursor_position(*video_registers, crtc_memory_address) <= u8::MAX,
    ensures
        *final(field_line) == with_cursor(
            *old(field_line),
            *video_registers,
            crtc_raster_address_even,
            crtc_raster_address_odd,
            field_counter,
            crtc_memory_address,
        ),
{
    let r10_r11_cursor_raster_range = video_registers.r10_r11_cursor_raster_range();
    let is_even_in_range = r10_r11_cursor_raster_range.contains(&crtc_raster_address_even);
    let is_odd_in_range = r10_r11_cursor_raster_range.contains(&crtc_raster_address_odd);
    if !is_even_in_range && !is_odd_in_range {
        return;
    }
    if !is_r10_cursor_blink_visible(video_registers.r10_cursor_blink_mode(), field_counter) {
        return;
    }
    let r8_cursor_delay = video_registers.r8_cursor_delay();
    if r8_cursor_delay == R8_CURSOR_DELAY_HIDDEN {
        return;
    }
    let r14_r15_cursor_address = video_registers.r14_r15_cursor_address();
    if r14_r15_cursor_address < crtc_memory_address {
        return;
    }
    let rel_address = r14_r15_cursor_address - crtc_memory_address;
    if rel_address >= video_registers.crtc_r1_horizontal_displayed as u16 {
        return;
    }
    field_line.cursor_char = r8_cursor_delay + rel_address as u8;
    field_line.set_cursor_raster_flags(is_even_in_range, is_odd_in_range);
}

fn is_r10_cursor_blink_visible(r10_cursor_blink_mode: R10CursorBlinkMode, field_counter: u8) -> (r:
    bool)
    ensures
        r == blink_visible(r10_cursor_blink_mode, field_counter),
{
    proof {
        assert(field_counter & 0x08 != 0 <==> (field_counter / 8) % 2 == 1) by (bit_vector);
        assert(field_counter & 0x10 != 0 <==> (field_counter / 16) % 2 == 1) by (bit_vector);
    }
    match r10_cursor_blink_mode {
        R10CursorBlinkMode::Solid => true,
        R10CursorBlinkMode::Hidden => false,
        R10CursorBlinkMode::Fast => field_counter & 0x08 != 0,
        R10CursorBlinkMode::Slow => field_counter & 0x10 != 0,
    }
}

fn calc_back_porch(video_registers: &VideoRegisters) -> (r: u8)
    ensures
        r == back_porch_of(*video_registers),
{
    let full_horizontal_total = (video_registers.crtc_r0_horizontal_total as u16) + 1;
    let r3 = video_registers.r3_h_sync_width();
    let h_sync_width = if r3 >= 1 {
        r3
    } else {
        1
    };
    let sync_end = video_registers.crtc_r2_horizontal_sync_position as u16 + h_sync_width as u16;
    let h_sync_end = if sync_end < full_horizontal_total {
        sync_end
    } else {
        full_horizontal_total
    };
    (full_horizontal_total - h_sync_end) as u8
}

impl Default for Field {
    fn default() -> (field: Self)
        ensures
            forall|i: int| 0 <= i < MAX_LINES ==> is_empty_line(#[trigger] field.lines[i]),
    {
        Field::new()
    }
}

} // verus!
