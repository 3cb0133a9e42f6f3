# ch22-core

The core of an emulated 8-bit microcomputer, written in Verus: the
executable code carries `requires`/`ensures` contracts and Verus proves them.

- `src/word.rs` — 16-bit address words: page-relative arithmetic and
  conversions, with their arithmetic meaning proved.
- `src/memory.rs` — RAM over the whole address space with the ROM and I/O
  windows read through a fallback.
- `src/system/` — the memory map (where reads and writes go) and the
  decoding of script device flags.
- `src/timer_devices/` — the list of timer devices, known by id.
- `src/video/` — the video subsystem: the video registers and the two
  register devices, the CRTC state machine (character rows, rasters,
  address, vertical sync, beam), the translation of CRTC addresses into
  RAM ranges, and the field buffer that scanlines and character rows are
  recorded into.
- `tests/` — scenario tests run against the compiled library.
- `app/` — the wasm-bindgen surface that exposes RAM to JavaScript.
