use vstd::prelude::*;

verus! {

/// Bytes of RAM: the whole 16-bit address space.
pub const RAM_SIZE: usize = 0x10000;

/// The machine's memory: RAM over the whole address space, with the paged
/// ROM window (0x8000 to 0xbfff) and the I/O pages (0xfc00 to 0xfeff) read
/// through a fallback, and writes reaching RAM only below 0x8000.
pub struct Ch22Memory<F: Fn(u16, u32) -> u8> {
    ram: [u8; RAM_SIZE],
    read_fallback: F,
}

/// The address is read through the fallback rather than from RAM.
pub open spec fn reads_through_fallback(address: u16) -> bool {
    (0x8000 <= address < 0xc000) || (0xfc00 <= address < 0xff00)
}

impl<F: Fn(u16, u32) -> u8> Ch22Memory<F> {
    /// The bytes of RAM.
    pub closed spec fn view(&self) -> Seq<u8> {
        self.ram@
    }

    /// The fallback that reads the addresses outside RAM.
    pub closed spec fn fallback(&self) -> F {
        self.read_fallback
    }

    /// Memory with all of RAM zero.
    pub fn new(read_fallback: F) -> (m: Self)
        ensures
            m@ == Seq::new(RAM_SIZE as nat, |i: int| 0u8),
            m.fallback() == read_fallback,
    {
        let m = Ch22Memory { ram: [0; RAM_SIZE], read_fallback };
        assert(m.ram@ =~= Seq::new(RAM_SIZE as nat, |i: int| 0u8));
        m
    }

    /// The bytes of RAM.
    pub fn ram(&self) -> (ram: &[u8; RAM_SIZE])
        ensures
            ram@ == self@,
    {
        &self.ram
    }

    pub fn ram_size(&self) -> (size: usize)
        ensures
            size == RAM_SIZE,
    {
        RAM_SIZE
    }

    /// Reads a byte: from RAM, or through the fallback in the paged ROM
    /// window and the I/O pages. RAM is not changed.
    pub fn read(&mut self, address: u16, cycles: u32) -> (value: u8)
        requires
            reads_through_fallback(address) ==> call_requires(
                old(self).fallback(),
                (address, cycles),
            ),
        ensures
            final(self)@ == old(self)@,
            final(self).fallback() == old(self).fallback(),
            reads_through_fallback(address) ==> call_ensures(
                old(self).fallback(),
                (address, cycles),
                value,
            ),
            !reads_through_fallback(address) ==> value == old(self)@[address as int],
    {
        if address < 0x8000 {
            self.ram[address as usize]
        } else if address < 0xc000 {
            (self.read_fallback)(address, cycles)
        } else if address < 0xfc00 {
            self.ram[address as usize]
        } else if address < 0xff00 {
            (self.read_fallback)(address, cycles)
        } else {
            self.ram[address as usize]
        }
    }

    /// Memory is never slow to reach.
    pub fn is_slow(&self, address: u16) -> (slow: bool)
        ensures
            !slow,
    {
        false
    }

    /// Writes a byte to RAM below 0x8000; writes elsewhere are ignored.
    /// Memory never asks for an interrupt.
    pub fn write(&mut self, address: u16, value: u8, cycles: u32) -> (interrupt: bool)
        ensures
            !interrupt,
            final(self).fallback() == old(self).fallback(),
            final(self)@ == if address < 0x8000 {
                old(self)@.update(address as int, value)
            } else {
                old(self)@
            },
    {
        if address < 0x8000 {
            self.ram[address as usize] = value;
        }
        false
    }

    /// Memory has nothing to do in the second phase of a cycle.
    pub fn phase_2(&mut self, cycles: u32)
        ensures
            final(self)@ == old(self)@,
            final(self).fallback() == old(self).fallback(),
    {
    }
}

/// What a write to RAM stores is what a later read gives, below 0x8000;
/// other addresses read as before.
pub proof fn lemma_ram_write_read(ram: Seq<u8>, address: u16, value: u8, other: u16)
    requires
        ram.len() == RAM_SIZE,
        address < 0x8000,
        !reads_through_fallback(other),
    ensures
        ram.update(address as int, value)[other as int] == if other == address {
            value
        } else {
            ram[other as int]
        },
{
}

} // verus!
