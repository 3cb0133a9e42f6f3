use ch22_core::video::video_memory_access::VideoMemoryAccess;

// ic32 latch values for the four hi-res screen starts (latch bits 4 and 5)
const _00: u8 = 0b0000_0000;
const _01: u8 = 0b0001_0000;
const _10: u8 = 0b0010_0000;
const _11: u8 = 0b0011_0000;

#[test]
fn translates_hires_ranges() {
    let test_cases = [
        (0x0000, 1, _00, ((0x0000..0x0008), None)),
        // offset
        (0x0001, 1, _00, ((0x0008..0x0010), None)),
        // multi-byte
        (0x0100, 2, _00, ((0x0800..0x0810), None)),
        // end of the linear part
        (0x0fff, 1, _00, ((0x7ff8..0x8000), None)),
        // screen start for each latch setting, and its wrap to address 0
        (0x1000, 1, _00, ((0x4000..0x4008), None)),
        (0x1800, 1, _00, ((0x0000..0x0008), None)),
        (0x1000, 1, _01, ((0x6000..0x6008), None)),
        (0x1400, 1, _01, ((0x0000..0x0008), None)),
        (0x1000, 1, _10, ((0x3000..0x3008), None)),
        (0x1a00, 1, _10, ((0x0000..0x0008), None)),
        (0x1000, 1, _11, ((0x5800..0x5808), None)),
        (0x1500, 1, _11, ((0x0000..0x0008), None)),
        // spans that change region
        (0x0ffe, 4, _00, ((0x7ff0..0x8000), Some(0x4000..0x4010))),
        (0x17fe, 4, _00, ((0x7ff0..0x8000), Some(0x0000..0x0010))),
        // the top two address bits are ignored
        (0x4000, 1, _00, ((0x0000..0x0008), None)),
        // one address in each latch setting
        (0x1200, 1, _00, ((0x5000..0x5008), None)),
        (0x1200, 1, _01, ((0x7000..0x7008), None)),
        (0x1200, 1, _10, ((0x4000..0x4008), None)),
        (0x1200, 1, _11, ((0x6800..0x6808), None)),
    ];

    for (crtc_start, length, latch, expected) in test_cases {
        let result = VideoMemoryAccess::translate_crtc_hires_range(crtc_start, length, latch);
        assert_eq!(result, Some(expected), "addr=0x{:04x}, len={}, latch={:#04x}", crtc_start, length, latch);
    }
}

#[test]
fn translates_teletext_ranges() {
    let test_cases = [
        (0x2000, 1, ((0x3c00..0x3c01), None)),
        (0x2100, 2, ((0x3d00..0x3d02), None)),
        (0x2800, 1, ((0x7c00..0x7c01), None)),
        (0x3000, 1, ((0x3c00..0x3c01), None)),
        (0x3800, 1, ((0x7c00..0x7c01), None)),
        (0x27fe, 4, ((0x3ffe..0x4000), Some(0x7c00..0x7c02))),
        (0x6000, 1, ((0x3c00..0x3c01), None)),
        // wraps inside one region
        (0x23fe, 4, ((0x3ffe..0x4000), Some(0x3c00..0x3c02))),
    ];

    for (crtc_start, length, expected) in test_cases {
        let result = VideoMemoryAccess::translate_crtc_teletext_range(crtc_start, length);
        assert_eq!(result, Some(expected), "addr=0x{:04x}, len={}", crtc_start, length);
    }
}

#[test]
fn rejects_addresses_of_the_other_mode() {
    // teletext addresses are not hi-res, and the other way round
    assert_eq!(VideoMemoryAccess::translate_crtc_hires_range(0x2000, 1, _00), None);
    assert_eq!(VideoMemoryAccess::translate_crtc_hires_range(0x1fff, 8, _00), None);
    assert_eq!(VideoMemoryAccess::translate_crtc_teletext_range(0x1000, 16), None);
    assert_eq!(VideoMemoryAccess::translate_crtc_teletext_range(0x3fff, 8), None);
}

#[test]
fn ranges_cover_the_span_inside_ram() {
    for latch in [_00, _01, _10, _11] {
        for start in (0u16..0x2000).step_by(0x3d) {
            for length in [1u8, 7, 40, 80, 100, 255] {
                if let Some((first, second)) =
                    VideoMemoryAccess::translate_crtc_hires_range(start, length, latch)
                {
                    let second_len = second.as_ref().map_or(0, |r| r.end - r.start);
                    assert!(first.start <= first.end && first.end <= 0x8000);
                    assert_eq!((first.end - first.start) + second_len, 8 * length as u16);
                }
            }
        }
    }
    for start in (0x2000u16..0x4000).step_by(0x1f) {
        for length in [1u8, 7, 40, 80, 100, 255] {
            if let Some((first, second)) =
                VideoMemoryAccess::translate_crtc_teletext_range(start, length)
            {
                let second_len = second.as_ref().map_or(0, |r| r.end - r.start);
                assert!(first.start <= first.end && first.end <= 0x8000);
                assert_eq!((first.end - first.start) + second_len, length as u16);
            }
        }
    }
}
