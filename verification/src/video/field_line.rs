pub mod flags;

use vstd::prelude::*;

use self::flags::{
    CURSOR_RASTER_EVEN, CURSOR_RASTER_ODD, DISPLAYED, HAS_BYTES, INTERLACE_VIDEO_AND_SYNC,
    INVALID_RANGE,
};

verus! {

/// Characters that one line can hold.
pub const MAX_CHARS: usize = 100;

/// Bytes in the flat form of a line: flags, character data, total
/// characters, back porch, ULA control, palette (8 bytes, little-endian)
/// and cursor character.
pub const RAW_LINE_SIZE: usize = 113;

/// What was scanned out on one scanline of a field.
#[derive(Clone, Copy)]
pub struct FieldLine {
    pub flags: u8,
    pub char_data: [u8; MAX_CHARS],
    pub total_chars: u8,
    pub back_porch: u8,
    pub ula_control: u8,
    pub ula_palette: u64,
    pub cursor_char: u8,
}

/// The line is empty: every byte of it is zero.
pub open spec fn is_empty_line(line: FieldLine) -> bool {
    &&& line.flags == 0
    &&& line.char_data@ == Seq::new(MAX_CHARS as nat, |i: int| 0u8)
    &&& line.total_chars == 0
    &&& line.back_porch == 0
    &&& line.ula_control == 0
    &&& line.ula_palette == 0
    &&& line.cursor_char == 0
}

/// Every eighth byte of `source`, starting at byte `offset`: the bytes of
/// one raster of a run of 8-byte character cells.
pub open spec fn stride_8(source: Seq<u8>, offset: int) -> Seq<u8> {
    Seq::new((source.len() / 8) as nat, |i: int| source[8 * i + offset])
}

/// `data` overwritten with `part` from index `start` on.
pub open spec fn overwrite(data: Seq<u8>, start: int, part: Seq<u8>) -> Seq<u8> {
    data.subrange(0, start) + part + data.subrange(start + part.len(), data.len() as int)
}

/// The length of an optional slice, 0 when there is none.
pub open spec fn opt_len(s: Option<&[u8]>) -> int {
    match s {
        Some(s) => s@.len() as int,
        None => 0,
    }
}

/// The bytes of an optional slice, none when there is no slice.
pub open spec fn opt_bytes(s: Option<&[u8]>) -> Seq<u8> {
    match s {
        Some(s) => s@,
        None => Seq::empty(),
    }
}

/// The byte of a little-endian 64-bit value at position `k` (0 to 7).
pub open spec fn le_byte(value: u64, k: u64) -> u8 {
    ((value >> (8 * k)) & 0xff) as u8
}

/// The new flags for the cursor rasters: both cursor bits replaced.
pub open spec fn with_cursor_flags(flags: u8, even: bool, odd: bool) -> u8 {
    (flags & !(CURSOR_RASTER_EVEN | CURSOR_RASTER_ODD)) | (if even {
        CURSOR_RASTER_EVEN
    } else {
        0
    }) | (if odd {
        CURSOR_RASTER_ODD
    } else {
        0
    })
}

impl FieldLine {
    /// The flat form of the line, byte by byte.
    pub open spec fn raw(self) -> Seq<u8> {
        seq![self.flags] + self.char_data@ + seq![self.total_chars, self.back_porch, self.ula_control]
            + Seq::new(8, |k: int| le_byte(self.ula_palette, k as u64)) + seq![self.cursor_char]
    }

    /// An empty line: all zero.
    pub fn new() -> (line: Self)
        ensures
            is_empty_line(line),
    {
        let line = FieldLine {
            flags: 0,
            char_data: [0; MAX_CHARS],
            total_chars: 0,
            back_porch: 0,
            ula_control: 0,
            ula_palette: 0,
            cursor_char: 0,
        };
        assert(line.char_data@ =~= Seq::new(MAX_CHARS as nat, |i: int| 0u8));
        line
    }

    /// Marks the line as empty; the rest of its content is left as it is.
    pub fn clear(&mut self)
        ensures
            *final(self) == (FieldLine { flags: 0, ..*old(self) }),
    {
        self.flags = 0;
    }

    pub fn set_displayed(&mut self)
        ensures
            *final(self) == (FieldLine { flags: old(self).flags | DISPLAYED, ..*old(self) }),
    {
        self.flags = self.flags | DISPLAYED;
    }

    pub fn set_invalid_range(&mut self)
        ensures
            *final(self) == (FieldLine { flags: old(self).flags | INVALID_RANGE, ..*old(self) }),
    {
        self.flags = self.flags | INVALID_RANGE;
    }

    pub fn set_interlace_video_and_sync(&mut self)
        ensures
            *final(self) == (FieldLine {
                flags: old(self).flags | INTERLACE_VIDEO_AND_SYNC,
                ..*old(self)
            }),
    {
        self.flags = self.flags | INTERLACE_VIDEO_AND_SYNC;
    }

    /// Sets the two cursor raster flags to `even` and `odd`.
    pub fn set_cursor_raster_flags(&mut self, even: bool, odd: bool)
        ensures
            *final(self) == (FieldLine {
                flags: with_cursor_flags(old(self).flags, even, odd),
                ..*old(self)
            }),
            final(self).flags & CURSOR_RASTER_EVEN != 0 <==> even,
            final(self).flags & CURSOR_RASTER_ODD != 0 <==> odd,
            final(self).flags & !(CURSOR_RASTER_EVEN | CURSOR_RASTER_ODD) == old(self).flags & !(
            CURSOR_RASTER_EVEN | CURSOR_RASTER_ODD),
    {
        let f = self.flags & !(CURSOR_RASTER_EVEN | CURSOR_RASTER_ODD);
        let e: u8 = if even {
            CURSOR_RASTER_EVEN
        } else {
            0
        };
        let o: u8 = if odd {
            CURSOR_RASTER_ODD
        } else {
            0
        };
        let old_flags = self.flags;
        proof {
            assert(f == old_flags & !(CURSOR_RASTER_EVEN | CURSOR_RASTER_ODD));
            assert((f | e | o) & CURSOR_RASTER_EVEN != 0 <==> e == CURSOR_RASTER_EVEN) by (bit_vector)
                requires
                    f == old_flags & !(CURSOR_RASTER_EVEN | CURSOR_RASTER_ODD),
                    e == 0 || e == CURSOR_RASTER_EVEN,
                    o == 0 || o == CURSOR_RASTER_ODD,
            ;
            assert((f | e | o) & CURSOR_RASTER_ODD != 0 <==> o == CURSOR_RASTER_ODD) by (bit_vector)
                requires
                    f == old_flags & !(CURSOR_RASTER_EVEN | CURSOR_RASTER_ODD),
                    e == 0 || e == CURSOR_RASTER_EVEN,
                    o == 0 || o == CURSOR_RASTER_ODD,
            ;
            assert((f | e | o) & !(CURSOR_RASTER_EVEN | CURSOR_RASTER_ODD) == old_flags & !(
            CURSOR_RASTER_EVEN | CURSOR_RASTER_ODD)) by (bit_vector)
                requires
                    f == old_flags & !(CURSOR_RASTER_EVEN | CURSOR_RASTER_ODD),
                    e == 0 || e == CURSOR_RASTER_EVEN,
                    o == 0 || o == CURSOR_RASTER_ODD,
            ;
        }
        self.flags = f | e | o;
    }

    /// Marks the line as holding bytes and copies `first_slice`, then
    /// `second_slice` when there is one, to the start of its character data.
    pub fn set_char_data(&mut self, first_slice: &[u8], second_slice: Option<&[u8]>)
        requires
            first_slice@.len() + opt_len(second_slice) <= MAX_CHARS,
        ensures
            *final(self) == (FieldLine {
                flags: old(self).flags | HAS_BYTES,
                char_data: final(self).char_data,
                ..*old(self)
            }),
            final(self).char_data@ == overwrite(
                old(self).char_data@,
                0,
                first_slice@ + opt_bytes(second_slice),
            ),
    {
        self.flags = self.flags | HAS_BYTES;
        let first_end = first_slice.len();
        copy_into(&mut self.char_data, 0, first_slice);
        if let Some(second_slice) = second_slice {
            copy_into(&mut self.char_data, first_end, second_slice);
        }
        assert(self.char_data@ =~= overwrite(
            old(self).char_data@,
            0,
            first_slice@ + opt_bytes(second_slice),
        ));
    }

    /// Marks the line as holding bytes and copies one raster of the
    /// character cells in `first_slice`, then in `second_slice` when there
    /// is one: byte `raster_line` of every 8-byte cell.
    pub fn set_char_data_for_raster(
        &mut self,
        first_slice: &[u8],
        second_slice: Option<&[u8]>,
        raster_line: u8,
    )
        requires
            raster_line < 8,
            first_slice@.len() % 8 == 0,
            opt_len(second_slice) % 8 == 0,
            first_slice@.len() / 8 + opt_len(second_slice) / 8 <= MAX_CHARS,
        ensures
            *final(self) == (FieldLine {
                flags: old(self).flags | HAS_BYTES,
                char_data: final(self).char_data,
                ..*old(self)
            }),
            final(self).char_data@ == overwrite(
                old(self).char_data@,
                0,
                stride_8(first_slice@, raster_line as int) + stride_8(
                    opt_bytes(second_slice),
                    raster_line as int,
                ),
            ),
    {
        self.flags = self.flags | HAS_BYTES;
        let first_end = copy_into_stride_8(&mut self.char_data, 0, first_slice, raster_line);
        if let Some(second_slice) = second_slice {
            copy_into_stride_8(&mut self.char_data, first_end, second_slice, raster_line);
        }
        assert(self.char_data@ =~= overwrite(
            old(self).char_data@,
            0,
            stride_8(first_slice@, raster_line as int) + stride_8(
                opt_bytes(second_slice),
                raster_line as int,
            ),
        ));
    }

    /// The line in its flat form, as the display reads it.
    pub fn get_raw_data(&self) -> (raw: Vec<u8>)
        ensures
            raw@ == self.raw(),
            raw@.len() == RAW_LINE_SIZE,
    {
        let mut raw: Vec<u8> = Vec::new();
        raw.push(self.flags);
        let mut i: usize = 0;
        while i < MAX_CHARS
            invariant
                i <= MAX_CHARS,
                raw@ == seq![self.flags] + self.char_data@.subrange(0, i as int),
            decreases MAX_CHARS - i,
        {
            raw.push(self.char_data[i]);
            i = i + 1;
            assert(raw@ =~= seq![self.flags] + self.char_data@.subrange(0, i as int));
        }
        raw.push(self.total_chars);
        raw.push(self.back_porch);
        raw.push(self.ula_control);
        let ghost prefix = raw@;
        let mut k: u64 = 0;
        while k < 8
            invariant
                k <= 8,
                raw@ == prefix + Seq::new(k as nat, |j: int| le_byte(self.ula_palette, j as u64)),
            decreases 8 - k,
        {
            raw.push(((self.ula_palette >> (8 * k)) & 0xff) as u8);
            k = k + 1;
            assert(raw@ =~= prefix + Seq::new(k as nat, |j: int| le_byte(self.ula_palette, j as u64)));
        }
        raw.push(self.cursor_char);
        assert(self.char_data@.subrange(0, MAX_CHARS as int) =~= self.char_data@);
        assert(raw@ =~= self.raw());
        raw
    }
}

/// Copies `source` into `dest` from index `dest_start` on.
fn copy_into(dest: &mut [u8; MAX_CHARS], dest_start: usize, source: &[u8])
    requires
        dest_start + source@.len() <= MAX_CHARS,
    ensures
        final(dest)@ == overwrite(old(dest)@, dest_start as int, source@),
{
    let mut i: usize = 0;
    while i < source.len()
        invariant
            dest_start + source@.len() <= MAX_CHARS,
            i <= source@.len(),
            dest@.len() == MAX_CHARS,
            dest@ == old(dest)@.subrange(0, dest_start as int) + source@.subrange(0, i as int)
                + old(dest)@.subrange(dest_start + i, MAX_CHARS as int),
        decreases source@.len() - i,
    {
        dest[dest_start + i] = source[i];
        i = i + 1;
        assert(dest@ =~= old(dest)@.subrange(0, dest_start as int) + source@.subrange(0, i as int)
            + old(dest)@.subrange(dest_start + i, MAX_CHARS as int));
    }
    assert(source@.subrange(0, i as int) =~= source@);
    assert(dest@ =~= overwrite(old(dest)@, dest_start as int, source@));
}

/// Copies byte `source_offset` of every 8-byte cell of `source` into `dest`
/// from index `dest_start` on, and returns the index after the last byte
/// written.
fn copy_into_stride_8(
    dest: &mut [u8; MAX_CHARS],
    dest_start: usize,
    source: &[u8],
    source_offset: u8,
) -> (new_length: usize)
    requires
        source_offset < 8,
        source@.len() % 8 == 0,
        dest_start + source@.len() / 8 <= MAX_CHARS,
    ensures
        new_length == dest_start + source@.len() / 8,
        final(dest)@ == overwrite(old(dest)@, dest_start as int, stride_8(source@, source_offset as int)),
{
    let count = source.len() / 8;
    let new_length = dest_start + count;
    let ghost stride = stride_8(source@, source_offset as int);
    let mut i: usize = 0;
    while i < count
        invariant
            count == source@.len() / 8,
            source@.len() % 8 == 0,
            source_offset < 8,
            dest_start + count <= MAX_CHARS,
            stride == stride_8(source@, source_offset as int),
            i <= count,
            dest@.len() == MAX_CHARS,
            dest@ == old(dest)@.subrange(0, dest_start as int) + stride.subrange(0, i as int)
                + old(dest)@.subrange(dest_start + i, MAX_CHARS as int),
        decreases count - i,
    {
        assert(8 * i + source_offset < source@.len()) by (nonlinear_arith)
            requires
                i < count,
                count == source@.len() / 8,
                source_offset < 8,
                source@.len() % 8 == 0,
        ;
        dest[dest_start + i] = source[8 * i + source_offset as usize];
        i = i + 1;
        assert(dest@ =~= old(dest)@.subrange(0, dest_start as int) + stride.subrange(0, i as int)
            + old(dest)@.subrange(dest_start + i, MAX_CHARS as int));
    }
    assert(stride.subrange(0, i as int) =~= stride);
    assert(dest@ =~= overwrite(old(dest)@, dest_start as int, stride));
    new_length
}

impl Default for FieldLine {
    fn default() -> (line: Self)
        ensures
            is_empty_line(line),
    {
        FieldLine::new()
    }
}

} // verus!
