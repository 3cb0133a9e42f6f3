use core::ops::Range;
use vstd::prelude::*;

verus! {

/// Translation of CRTC memory addresses into addresses in the 32K of RAM
/// that the video circuits read.
pub struct VideoMemoryAccess {}

/// One or two RAM ranges: the second is there when the screen wraps.
pub type VideoMemoryRanges = (Range<u16>, Option<Range<u16>>);

/// Which kind of video memory a span of CRTC addresses lies in.
#[derive(Clone, Copy, Debug, PartialEq, Eq, Structural)]
pub enum CRTCRangeType {
    HiRes,
    Teletext,
    /// The span starts in one kind and ends in the other.
    Mixed,
}

/// Bits 5 and 4 of the IC32 latch, which select where a hi-res screen
/// starts: 0x4000, 0x6000, 0x3000 or 0x5800.
#[allow(non_camel_case_types)]
#[derive(Clone, Copy, Debug, PartialEq, Eq, Structural)]
pub enum IC32_5_4 {
    _00,
    _01,
    _10,
    _11,
}

/// The IC32 latch value with bits 5 and 4 as given and the others clear.
pub open spec fn latch_of(ic32_5_4: IC32_5_4) -> u8 {
    match ic32_5_4 {
        IC32_5_4::_00 => 0x00,
        IC32_5_4::_01 => 0x10,
        IC32_5_4::_10 => 0x20,
        IC32_5_4::_11 => 0x30,
    }
}

/// A masked CRTC address is a teletext address: 0x2000 or above.
pub open spec fn is_teletext_address(crtc_address: int) -> bool {
    crtc_address % 0x4000 >= 0x2000
}

/// The kind of video memory of a span, from the kinds of its first and
/// last address.
pub open spec fn crtc_range_type(crtc_start: u16, crtc_length: u8) -> CRTCRangeType {
    let first = is_teletext_address(crtc_start as int);
    let last = is_teletext_address(crtc_start + crtc_length - 1);
    if !first && !last {
        CRTCRangeType::HiRes
    } else if first && last {
        CRTCRangeType::Teletext
    } else {
        CRTCRangeType::Mixed
    }
}

/// A translated RAM address together with the RAM region (of the screen
/// layout) that it lies in.
pub struct TranslatedAddressAndRegion {
    pub address: u16,
    pub region: Range<u16>,
}

/// The RAM range from `start` to `end`.
pub open spec fn ram_range(start: int, end: int) -> Range<u16> {
    Range { start: start as u16, end: end as u16 }
}

/// Bits 4 and 5 of the IC32 latch select where a hi-res screen starts.
pub open spec fn hires_screen_start(ic32_latch_value: u8) -> int {
    let mode = (ic32_latch_value / 16) % 4;
    if mode == 0 {
        0x4000
    } else if mode == 1 {
        0x6000
    } else if mode == 2 {
        0x3000
    } else {
        0x5800
    }
}

/// The CRTC address (masked to 14 bits) at which a hi-res screen has run
/// past the top of RAM and continues from its start.
pub open spec fn hires_wrap_point(ic32_latch_value: u8) -> int {
    0x1000 + (0x8000 - hires_screen_start(ic32_latch_value)) / 8
}

/// Hi-res translation: each CRTC address stands for 8 bytes of RAM.
/// Masked addresses below 0x1000 cover all 32K; from 0x1000 the screen
/// starts at the latch-selected start address, runs to the top of RAM and
/// wraps to address 0. Addresses from 0x2000 are not hi-res.
pub open spec fn hires_translation(crtc_address: u16, ic32_latch_value: u8) -> Option<
    TranslatedAddressAndRegion,
> {
    let m = crtc_address % 0x4000;
    let start = hires_screen_start(ic32_latch_value);
    let wrap = hires_wrap_point(ic32_latch_value);
    if m < 0x1000 {
        Some(TranslatedAddressAndRegion { address: (m * 8) as u16, region: ram_range(0, 0x8000) })
    } else if m < wrap {
        Some(
            TranslatedAddressAndRegion {
                address: (start + (m - 0x1000) * 8) as u16,
                region: ram_range(start, 0x8000),
            },
        )
    } else if m < 0x2000 {
        Some(
            TranslatedAddressAndRegion {
                address: ((m - wrap) * 8) as u16,
                region: ram_range(0, start),
            },
        )
    } else {
        None
    }
}

/// Teletext translation: masked addresses from 0x2000 to 0x3fff stand for
/// one byte each in one of two 1K regions, chosen by address bit 11.
pub open spec fn teletext_translation(crtc_address: u16) -> Option<TranslatedAddressAndRegion> {
    let m = crtc_address % 0x4000;
    let region_start: int = if (m / 0x800) % 2 == 0 {
        0x3c00
    } else {
        0x7c00
    };
    if 0x2000 <= m {
        Some(
            TranslatedAddressAndRegion {
                address: (region_start + crtc_address % 0x400) as u16,
                region: ram_range(region_start, region_start + 0x400),
            },
        )
    } else {
        None
    }
}

/// The translation moved on by `offset` bytes within the same region.
pub open spec fn offset_by(t: TranslatedAddressAndRegion, offset: int) -> TranslatedAddressAndRegion {
    TranslatedAddressAndRegion { address: (t.address + offset) as u16, region: t.region }
}

/// The ranges from a translated start to a translated end (exclusive):
/// one range when `joined`, else the start to the end of its region and the
/// start of the end's region to the end.
pub open spec fn ranges_between(
    start: TranslatedAddressAndRegion,
    end: TranslatedAddressAndRegion,
    joined: bool,
) -> VideoMemoryRanges {
    if joined {
        (ram_range(start.address as int, end.address as int), None)
    } else {
        (
            ram_range(start.address as int, start.region.end as int),
            Some(ram_range(end.region.start as int, end.address as int)),
        )
    }
}

/// The RAM ranges of a hi-res span of `crtc_length` characters.
pub open spec fn hires_ranges(crtc_start: u16, crtc_length: u8, ic32_latch_value: u8) -> Option<
    VideoMemoryRanges,
> {
    match (
        hires_translation(crtc_start, ic32_latch_value),
        hires_translation((crtc_start + crtc_length - 1) as u16, ic32_latch_value),
    ) {
        (Some(s), Some(e)) => Some(ranges_between(s, offset_by(e, 8), s.region == e.region)),
        _ => None,
    }
}

/// The RAM ranges of a teletext span of `crtc_length` characters.
pub open spec fn teletext_ranges(crtc_start: u16, crtc_length: u8) -> Option<VideoMemoryRanges> {
    match (
        teletext_translation(crtc_start),
        teletext_translation((crtc_start + crtc_length - 1) as u16),
    ) {
        (Some(s), Some(e)) => Some(
            ranges_between(s, offset_by(e, 1), s.region == e.region && s.address < e.address + 1),
        ),
        _ => None,
    }
}

/// Number of bytes that a pair of ranges covers.
pub open spec fn ranges_len(r: VideoMemoryRanges) -> int {
    (r.0.end - r.0.start) + match r.1 {
        Some(second) => second.end - second.start,
        None => 0,
    }
}

/// Both ranges are ordered and lie inside the 32K of RAM.
pub open spec fn ranges_within_ram(r: VideoMemoryRanges) -> bool {
    &&& r.0.start <= r.0.end <= 0x8000
    &&& match r.1 {
        Some(second) => second.start <= second.end <= 0x8000,
        None => true,
    }
}

impl TranslatedAddressAndRegion {
    fn offsetted(&self, offset: u16) -> (r: Self)
        requires
            self.address + offset <= u16::MAX,
        ensures
            r == offset_by(*self, offset as int),
    {
        TranslatedAddressAndRegion {
            address: self.address + offset,
            region: Range { start: self.region.start, end: self.region.end },
        }
    }
}

proof fn lemma_mask_14(c: u16)
    ensures
        c & 0x3fff == c % 0x4000,
        c & 0x3ff == c % 0x400,
{
    assert(c & 0x3fff == c % 0x4000) by (bit_vector);
    assert(c & 0x3ff == c % 0x400) by (bit_vector);
}

impl VideoMemoryAccess {
    /// The kind of video memory that a span of `crtc_length` characters
    /// from `crtc_start` lies in.
    pub fn get_crtc_range_type(crtc_start: u16, crtc_length: u8) -> (t: CRTCRangeType)
        requires
            crtc_length > 0,
            crtc_start + crtc_length <= u16::MAX,
        ensures
            t == crtc_range_type(crtc_start, crtc_length),
    {
        let last = crtc_start + crtc_length as u16 - 1;
        proof {
            lemma_mask_14(crtc_start);
            lemma_mask_14(last);
        }
        let first_teletext = crtc_start & 0x3fff >= 0x2000;
        let last_teletext = last & 0x3fff >= 0x2000;
        if !first_teletext && !last_teletext {
            CRTCRangeType::HiRes
        } else if first_teletext && last_teletext {
            CRTCRangeType::Teletext
        } else {
            CRTCRangeType::Mixed
        }
    }

    /// Translates a span that lies in one kind of video memory into RAM
    /// ranges: hi-res spans with the screen start that `ic32_5_4` selects,
    /// teletext spans in the teletext regions.
    pub fn translate_crtc_range(crtc_start: u16, crtc_length: u8, ic32_5_4: IC32_5_4) -> (r:
        VideoMemoryRanges)
        requires
            crtc_length > 0,
            crtc_start + crtc_length <= u16::MAX,
            crtc_range_type(crtc_start, crtc_length) != CRTCRangeType::Mixed,
        ensures
            crtc_range_type(crtc_start, crtc_length) == CRTCRangeType::HiRes ==> Some(r)
                == hires_ranges(crtc_start, crtc_length, latch_of(ic32_5_4)),
            crtc_range_type(crtc_start, crtc_length) == CRTCRangeType::Teletext ==> Some(r)
                == teletext_ranges(crtc_start, crtc_length),
            ranges_within_ram(r),
            ranges_len(r) == if crtc_range_type(crtc_start, crtc_length) == CRTCRangeType::HiRes {
                8 * crtc_length
            } else {
                crtc_length as int
            },
    {
        let latch: u8 = match ic32_5_4 {
            IC32_5_4::_00 => 0x00,
            IC32_5_4::_01 => 0x10,
            IC32_5_4::_10 => 0x20,
            IC32_5_4::_11 => 0x30,
        };
        let translated = match Self::get_crtc_range_type(crtc_start, crtc_length) {
            CRTCRangeType::Teletext => Self::translate_crtc_teletext_range(crtc_start, crtc_length),
            _ => Self::translate_crtc_hires_range(crtc_start, crtc_length, latch),
        };
        // a span in one kind of memory always translates
        translated.unwrap()
    }

    /// Translates a hi-res span of `crtc_length` characters starting at CRTC
    /// address `crtc_start` into one or two RAM ranges, or `None` when
    /// either end is not a hi-res address. The ranges lie in RAM and
    /// cover 8 bytes per character.
    pub fn translate_crtc_hires_range(crtc_start: u16, crtc_length: u8, ic32_latch_value: u8) -> (r:
        Option<VideoMemoryRanges>)
        requires
            hires_translation(crtc_start, ic32_latch_value) is Some ==> crtc_length > 0
                && crtc_start + crtc_length <= u16::MAX,
        ensures
            r == hires_ranges(crtc_start, crtc_length, ic32_latch_value),
            r matches Some(ranges) ==> ranges_within_ram(ranges) && ranges_len(ranges) == 8
                * crtc_length,
    {
        let start = match Self::translate_crtc_hires_address(crtc_start, ic32_latch_value) {
            Some(t) => t,
            None => return None,
        };
        let end = match Self::translate_crtc_hires_address_end(
            crtc_start,
            crtc_length,
            ic32_latch_value,
        ) {
            Some(t) => t,
            None => return None,
        };
        proof {
            Self::lemma_hires_span(crtc_start, crtc_length, ic32_latch_value);
        }
        // hi-res ranges always change region when the screen wraps
        if start.region.start == end.region.start && start.region.end == end.region.end {
            Some((Range { start: start.address, end: end.address }, None))
        } else {
            Some(
                (
                    Range { start: start.address, end: start.region.end },
                    Some(Range { start: end.region.start, end: end.address }),
                ),
            )
        }
    }

    proof fn lemma_hires_span(crtc_start: u16, crtc_length: u8, ic32_latch_value: u8)
        requires
            hires_translation(crtc_start, ic32_latch_value) is Some ==> crtc_length > 0
                && crtc_start + crtc_length <= u16::MAX,
        ensures
            hires_ranges(crtc_start, crtc_length, ic32_latch_value) matches Some(ranges)
                ==> ranges_within_ram(ranges) && ranges_len(ranges) == 8 * crtc_length,
    {
        let e = (crtc_start + crtc_length - 1) as u16;
        let m = crtc_start % 0x4000;
        let me = e % 0x4000;
        if m < 0x2000 {
            assert(me == m + crtc_length - 1);
        }
    }

    fn translate_crtc_hires_address_end(crtc_address: u16, crtc_length: u8, ic32_latch_value: u8) -> (r:
        Option<TranslatedAddressAndRegion>)
        requires
            crtc_length > 0,
            crtc_address + crtc_length <= u16::MAX,
        ensures
            r == match hires_translation(
                (crtc_address + crtc_length - 1) as u16,
                ic32_latch_value,
            ) {
                Some(t) => Some(offset_by(t, 8)),
                None => None,
            },
    {
        match Self::translate_crtc_hires_address(
            crtc_address + crtc_length as u16 - 1,
            ic32_latch_value,
        ) {
            Some(t) => Some(t.offsetted(8)),
            None => None,
        }
    }

    fn translate_crtc_hires_address(crtc_address: u16, ic32_latch_value: u8) -> (r: Option<
        TranslatedAddressAndRegion,
    >)
        ensures
            r == hires_translation(crtc_address, ic32_latch_value),
            r matches Some(t) ==> t.address % 8 == 0 && t.region.start <= t.address
                < t.region.end <= 0x8000,
    {
        // https://beebwiki.mdfs.net/Address_translation
        let mode = (ic32_latch_value >> 4) & 0x03;
        let m = crtc_address & 0x3fff;
        proof {
            lemma_mask_14(crtc_address);
            let l = ic32_latch_value;
            assert(mode == (l / 16) % 4) by (bit_vector)
                requires
                    mode == (l >> 4) & 0x03,
            ;
        }
        if m < 0x1000 {
            Some(TranslatedAddressAndRegion { region: Range { start: 0x0000, end: 0x8000 }, address: m * 8 })
        } else if m < 0x2000 {
            // where the screen starts in RAM, and the masked CRTC address
            // at which it reaches the top of RAM and wraps to address 0
            let (region_start, wrap): (u16, u16) = if mode == 0b00 {
                (0x4000, 0x1800)
            } else if mode == 0b01 {
                (0x6000, 0x1400)
            } else if mode == 0b10 {
                (0x3000, 0x1a00)
            } else {
                (0x5800, 0x1500)
            };
            if m < wrap {
                Some(
                    TranslatedAddressAndRegion {
                        region: Range { start: region_start, end: 0x8000 },
                        address: region_start + (m - 0x1000) * 8,
                    },
                )
            } else {
                Some(
                    TranslatedAddressAndRegion {
                        region: Range { start: 0x0000, end: region_start },
                        address: (m - wrap) * 8,
                    },
                )
            }
        } else {
            None
        }
    }

    /// Translates a teletext span of `crtc_length` characters starting at
    /// CRTC address `crtc_start` into one or two RAM ranges, or `None` when
    /// either end is not a teletext address. The ranges lie in RAM and
    /// cover one byte per character.
    pub fn translate_crtc_teletext_range(crtc_start: u16, crtc_length: u8) -> (r: Option<
        VideoMemoryRanges,
    >)
        requires
            teletext_translation(crtc_start) is Some ==> crtc_length > 0 && crtc_start
                + crtc_length <= u16::MAX,
        ensures
            r == teletext_ranges(crtc_start, crtc_length),
            r matches Some(ranges) ==> ranges_within_ram(ranges) && ranges_len(ranges)
                == crtc_length,
    {
        let start = match Self::translate_crtc_teletext_address(crtc_start) {
            Some(t) => t,
            None => return None,
        };
        let end = match Self::translate_crtc_teletext_address_end(crtc_start, crtc_length) {
            Some(t) => t,
            None => return None,
        };
        proof {
            Self::lemma_teletext_span(crtc_start, crtc_length);
        }
        // teletext ranges can wrap inside one region: the end then comes
        // before the start, as a span is never longer than a region
        if start.region.start == end.region.start && start.region.end == end.region.end
            && start.address < end.address {
            Some((Range { start: start.address, end: end.address }, None))
        } else {
            Some(
                (
                    Range { start: start.address, end: start.region.end },
                    Some(Range { start: end.region.start, end: end.address }),
                ),
            )
        }
    }

    proof fn lemma_teletext_span(crtc_start: u16, crtc_length: u8)
        requires
            teletext_translation(crtc_start) is Some ==> crtc_length > 0 && crtc_start
                + crtc_length <= u16::MAX,
        ensures
            teletext_ranges(crtc_start, crtc_length) matches Some(ranges) ==> ranges_within_ram(
                ranges,
            ) && ranges_len(ranges) == crtc_length,
    {
        if teletext_translation(crtc_start) is Some {
            let e = (crtc_start + crtc_length - 1) as u16;
            assert(e == crtc_start + crtc_length - 1);
            if teletext_translation(e) is Some {
                let m = crtc_start % 0x4000;
                let me = e % 0x4000;
                assert(me == m + crtc_length - 1);
                assert(e % 0x400 == (crtc_start % 0x400 + crtc_length - 1) % 0x400);
            }
        }
    }

    fn translate_crtc_teletext_address_end(crtc_address: u16, crtc_length: u8) -> (r: Option<
        TranslatedAddressAndRegion,
    >)
        requires
            crtc_length > 0,
            crtc_address + crtc_length <= u16::MAX,
        ensures
            r == match teletext_translation((crtc_address + crtc_length - 1) as u16) {
                Some(t) => Some(offset_by(t, 1)),
                None => None,
            },
    {
        match Self::translate_crtc_teletext_address(crtc_address + crtc_length as u16 - 1) {
            Some(t) => Some(t.offsetted(1)),
            None => None,
        }
    }

    fn translate_crtc_teletext_address(crtc_address: u16) -> (r: Option<TranslatedAddressAndRegion>)
        ensures
            r == teletext_translation(crtc_address),
            r matches Some(t) ==> t.region.start <= t.address < t.region.end <= 0x8000
                && t.region.end == t.region.start + 0x400,
    {
        // https://beebwiki.mdfs.net/Address_translation
        let m = crtc_address & 0x3fff;
        proof {
            lemma_mask_14(crtc_address);
            assert(m & 0x800 == 0 <==> (m / 0x800) % 2 == 0) by (bit_vector);
        }
        if m < 0x2000 {
            return None;
        }
        let region_start: u16 = if m & 0x800 == 0 {
            0x3c00
        } else {
            0x7c00
        };
        Some(
            TranslatedAddressAndRegion {
                region: Range { start: region_start, end: region_start + 0x400 },
                address: region_start + (crtc_address & 0x3ff),
            },
        )
    }
}


/// A hi-res CRTC address (masked to 14 bits) below 0x1000 stands for the
/// 8 bytes at eight times the address. From 0x1000 to 0x1fff the screen
/// runs on from the start that IC32 latch bits 5 and 4 select (0x4000,
/// 0x6000, 0x3000 or 0x5800), 8 bytes per address, wrapping round the 32K
/// of RAM. Addresses from 0x2000 are not hi-res.
pub proof fn lemma_hires_translation_by_address(crtc_address: u16, ic32_latch_value: u8)
    ensures
        ({
            let m = crtc_address % 0x4000;
            let bits = ic32_latch_value / 16 % 4;
            let start = if bits == 0 {
                0x4000int
            } else if bits == 1 {
                0x6000int
            } else if bits == 2 {
                0x3000int
            } else {
                0x5800int
            };
            &&& m < 0x1000 ==> (hires_translation(crtc_address, ic32_latch_value) matches Some(t)
                && t.address == m * 8)
            &&& 0x1000 <= m < 0x2000 ==> (hires_translation(crtc_address, ic32_latch_value) matches Some(
                t,
            ) && t.address == (start + (m - 0x1000) * 8) % 0x8000)
            &&& m >= 0x2000 ==> hires_translation(crtc_address, ic32_latch_value) is None
        }),
{
}

/// A teletext CRTC address (masked to 14 bits, from 0x2000) stands for one
/// byte in the 1K at 0x3c00, or at 0x7c00 when address bit 11 is set, at
/// the address's offset within 1K. Addresses below 0x2000 are not teletext.
pub proof fn lemma_teletext_translation_by_address(crtc_address: u16)
    ensures
        crtc_address % 0x4000 >= 0x2000 ==> (teletext_translation(crtc_address) matches Some(t)
            && t.address == (if crtc_address / 0x800 % 2 == 0 {
            0x3c00int
        } else {
            0x7c00int
        }) + crtc_address % 0x400),
        crtc_address % 0x4000 < 0x2000 ==> teletext_translation(crtc_address) is None,
{
    assert(crtc_address % 0x4000 / 0x800 % 2 == crtc_address / 0x800 % 2);
}

} // verus!
