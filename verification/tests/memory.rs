use ch22_core::memory::{Ch22Memory, RAM_SIZE};

fn fallback(address: u16, cycles: u32) -> u8 {
    ((address >> 8) as u8) ^ (cycles as u8)
}

#[test]
fn new_memory_is_zero() {
    let memory = Ch22Memory::new(fallback);
    assert_eq!(memory.ram_size(), RAM_SIZE);
    assert!(memory.ram().iter().all(|b| *b == 0));
}

#[test]
fn reads_ram_or_fallback_by_address() {
    let mut memory = Ch22Memory::new(fallback);
    for (address, expected) in [
        (0x0000u16, 0u8),
        (0x7fff, 0),
        (0x8000, 0x80 ^ 3),
        (0xbfff, 0xbf ^ 3),
        (0xc000, 0),
        (0xfbff, 0),
        (0xfc00, 0xfc ^ 3),
        (0xfeff, 0xfe ^ 3),
        (0xff00, 0),
        (0xffff, 0),
    ] {
        assert_eq!(memory.read(address, 3), expected, "address 0x{:04x}", address);
    }
}

#[test]
fn writes_reach_ram_only_below_0x8000() {
    let mut memory = Ch22Memory::new(fallback);
    assert!(!memory.write(0x1234, 0x56, 0));
    assert!(!memory.write(0xc123, 0x78, 0));
    assert!(!memory.write(0xff10, 0x9a, 0));
    assert_eq!(memory.read(0x1234, 0), 0x56);
    assert_eq!(memory.read(0xc123, 0), 0);
    assert_eq!(memory.read(0xff10, 0), 0);
    assert!(!memory.is_slow(0x1234));
    memory.phase_2(7);
    assert_eq!(memory.read(0x1234, 0), 0x56);
}
