use ch22_core::video::field_line::flags::{DISPLAYED, HAS_BYTES};
use ch22_core::video::video_crtc_registers_device::VideoCRTCRegistersDevice;
use ch22_core::video::Video;
use ch22_core::word::Word;

fn test_ram() -> Vec<u8> {
    (0..0x8000u32).map(|a| (a % 251) as u8).collect()
}

#[test]
fn init_sets_power_on_registers() {
    let mut video = Video::new();
    video.init();
    let registers = video.registers();
    assert_eq!(registers.ula_control, 0x9c);
    assert_eq!(registers.crtc_r0_horizontal_total, 0x7f);
    assert_eq!(registers.crtc_r1_horizontal_displayed, 0x50);
    assert_eq!(registers.r12_r13_screen_address(), 0x0600);
    assert_eq!(video.get_next_scanline_trigger(), 0);
}

#[test]
fn processes_a_field_of_scanlines() {
    let ram = test_ram();
    let mut video = Video::new();
    video.init();

    let mut first_complete = None;
    let mut second_complete = None;
    let mut vsync_changes = Vec::new();
    for call in 1..=600u64 {
        let outcome = video.process_scanline(0, |range| {
            // only ranges of video RAM are ever asked for
            assert!(range.start <= range.end && range.end <= 0x8000);
            &ram[range.start as usize..range.end as usize]
        });
        if let Some(vsync) = outcome.vsync_change {
            vsync_changes.push((call, vsync));
        }
        if outcome.field_complete {
            if first_complete.is_none() {
                first_complete = Some(call);
            } else if second_complete.is_none() {
                second_complete = Some(call);
            }
        }
        // 128 cycles per scanline at the high character clock
        assert_eq!(video.get_next_scanline_trigger(), 128 * call);
        if call == 1 {
            // the first scanline is displayed with the bytes of raster 0
            // from the screen start (CRTC 0x0600 is RAM 0x3000)
            let line = &video.get_field_start().lines[0];
            assert_eq!(line.flags, DISPLAYED | HAS_BYTES);
            assert_eq!(line.total_chars, 0x50);
            for i in 0..0x50usize {
                assert_eq!(line.char_data[i], ram[0x3000 + 8 * i]);
            }
        }
    }
    // vertical sync starts at the second raster of row 0x22 and the beam
    // goes back to the top there; a field is 0x27 rows of 8 scanlines
    assert_eq!(first_complete, Some(0x22 * 8 + 1));
    assert_eq!(second_complete, Some(0x22 * 8 + 1 + 0x27 * 8));
    // the vertical sync lasts the two scanlines that R3 gives
    assert_eq!(vsync_changes[0], (0x22 * 8 + 1, true));
    assert_eq!(vsync_changes[1], (0x22 * 8 + 3, false));
}

#[test]
fn register_writes_through_the_device_reach_the_video() {
    let mut video = Video::new();
    video.init();
    let mut device: VideoCRTCRegistersDevice = video.create_crtc_registers_device();
    device.write(video.registers_mut(), Word::from(0xfe00), 1, 0);
    device.write(video.registers_mut(), Word::from(0xfe01), 40, 0);
    assert_eq!(video.registers().crtc_r1_horizontal_displayed, 40);
    let mut ula = video.create_ula_registers_device();
    ula.write(video.registers_mut(), Word::from(0xfe20), 0x4b, 0);
    assert_eq!(video.registers().ula_control, 0x4b);
}
