use vstd::prelude::*;

verus! {

/// The line was scanned out while the CRTC was in its display area.
pub const DISPLAYED: u8 = 0b0000_0001;

/// The line holds character data.
pub const HAS_BYTES: u8 = 0b0000_0010;

/// The CRTC addresses of the line did not translate into video RAM.
pub const INVALID_RANGE: u8 = 0b0000_0100;

/// The CRTC was in interlace sync and video mode.
pub const INTERLACE_VIDEO_AND_SYNC: u8 = 0b0000_1000;

/// The cursor shows on the even raster of the line.
pub const CURSOR_RASTER_EVEN: u8 = 0b0001_0000;

/// The cursor shows on the odd raster of the line.
pub const CURSOR_RASTER_ODD: u8 = 0b0010_0000;

} // verus!
