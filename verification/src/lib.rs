//! Core of an emulated 8-bit microcomputer: 16-bit address words, the
//! memory map and RAM, timer devices, and the video subsystem (CRTC timing,
//! video and ULA registers, video memory translation and the per-field
//! scanline buffer).

pub mod memory;
pub mod system;
pub mod timer_devices;
pub mod video;
pub mod word;
