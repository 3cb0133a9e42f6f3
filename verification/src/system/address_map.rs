use vstd::prelude::*;

use crate::word::Word;

verus! {

/// The ROM bank that holds the operating system.
pub const OS_ROM: usize = 16;

/// ROM banks: sixteen paged ROMs and the operating system ROM.
pub const ROMS_LEN: usize = 17;

/// Where a read from the CPU's address space goes.
#[derive(Clone, Copy, Debug, PartialEq, Eq, Structural)]
pub enum ReadTarget {
    /// RAM, at the same address.
    Ram(Word),
    /// A ROM bank, at an offset from the start of the bank's window.
    Rom { bank: usize, offset: Word },
    /// The I/O space, at the same address.
    Io(Word),
}

/// Where a write to the CPU's address space goes.
#[derive(Clone, Copy, Debug, PartialEq, Eq, Structural)]
pub enum WriteTarget {
    Ram(Word),
    Io(Word),
    /// The address is ROM: the write has no effect.
    Ignored,
}

/// The memory map for reads: RAM below 0x8000, the selected paged ROM from
/// 0x8000, the OS ROM from 0xc000, the I/O pages 0xfc00 to 0xfeff, and the
/// OS ROM again from 0xff00.
pub open spec fn read_target_of(address: Word, rom_select: usize) -> ReadTarget {
    if address.1 < 0x80 {
        ReadTarget::Ram(address)
    } else if address.1 < 0xc0 {
        ReadTarget::Rom { bank: rom_select, offset: Word(address.0, (address.1 - 0x80) as u8) }
    } else if address.1 < 0xfc {
        ReadTarget::Rom { bank: OS_ROM, offset: Word(address.0, (address.1 - 0xc0) as u8) }
    } else if address.1 < 0xff {
        ReadTarget::Io(address)
    } else {
        ReadTarget::Rom { bank: OS_ROM, offset: Word(address.0, (address.1 - 0xc0) as u8) }
    }
}

/// The memory map for writes: RAM below 0x8000 and the I/O pages; writes
/// to the ROM regions have no effect.
pub open spec fn write_target_of(address: Word) -> WriteTarget {
    if address.1 < 0x80 {
        WriteTarget::Ram(address)
    } else if 0xfc <= address.1 < 0xff {
        WriteTarget::Io(address)
    } else {
        WriteTarget::Ignored
    }
}

/// Decodes where a read from `address` goes, with paged ROM `rom_select`
/// selected.
pub fn read_target(address: Word, rom_select: usize) -> (target: ReadTarget)
    requires
        rom_select < ROMS_LEN,
    ensures
        target == read_target_of(address, rom_select),
{
    if address.1 < 0x80 {
        ReadTarget::Ram(address)
    } else if address.1 < 0xc0 {
        ReadTarget::Rom { bank: rom_select, offset: address.rebased_to(0x80) }
    } else if address.1 < 0xfc {
        ReadTarget::Rom { bank: OS_ROM, offset: address.rebased_to(0xc0) }
    } else if address.1 < 0xff {
        ReadTarget::Io(address)
    } else {
        ReadTarget::Rom { bank: OS_ROM, offset: address.rebased_to(0xc0) }
    }
}

/// Decodes where a write to `address` goes.
pub fn write_target(address: Word) -> (target: WriteTarget)
    ensures
        target == write_target_of(address),
{
    if address.1 < 0x80 {
        WriteTarget::Ram(address)
    } else if address.1 < 0xc0 {
        // paged ROM
        WriteTarget::Ignored
    } else if address.1 < 0xfc {
        // OS ROM
        WriteTarget::Ignored
    } else if address.1 < 0xff {
        WriteTarget::Io(address)
    } else {
        // OS ROM
        WriteTarget::Ignored
    }
}

/// Reads and writes agree on the map: an address that reads RAM or I/O
/// writes to the same place at the same address, an address that reads
/// ROM ignores writes, and a ROM offset lies within the bank's 16K.
pub proof fn lemma_read_write_agree(address: Word, rom_select: usize)
    requires
        rom_select < ROMS_LEN,
    ensures
        read_target_of(address, rom_select) == ReadTarget::Ram(address) <==> write_target_of(address)
            == WriteTarget::Ram(address),
        read_target_of(address, rom_select) == ReadTarget::Io(address) <==> write_target_of(address)
            == WriteTarget::Io(address),
        read_target_of(address, rom_select) is Rom <==> write_target_of(address) is Ignored,
        read_target_of(address, rom_select) matches ReadTarget::Rom { bank, offset } ==> bank
            < ROMS_LEN && offset.value() < 0x4000,
{
}

/// The memory map by address value: RAM below 0x8000; the selected paged
/// ROM from 0x8000 and the OS ROM from 0xc000, each read at the address's
/// offset into its 16K window; the I/O pages 0xfc00 to 0xfeff; and the OS
/// ROM again from 0xff00. Reads and writes of RAM and I/O go to the same
/// address, and no other address reaches RAM or I/O; writes to ROM are
/// ignored.
pub proof fn lemma_memory_map(address: Word, rom_select: usize)
    requires
        rom_select < ROMS_LEN,
    ensures
        address.value() < 0x8000 <==> read_target_of(address, rom_select) == ReadTarget::Ram(
            address,
        ),
        address.value() < 0x8000 <==> write_target_of(address) == WriteTarget::Ram(address),
        0xfc00 <= address.value() < 0xff00 <==> read_target_of(address, rom_select)
            == ReadTarget::Io(address),
        0xfc00 <= address.value() < 0xff00 <==> write_target_of(address) == WriteTarget::Io(
            address,
        ),
        read_target_of(address, rom_select) is Ram ==> address.value() < 0x8000,
        read_target_of(address, rom_select) is Io ==> 0xfc00 <= address.value() < 0xff00,
        write_target_of(address) is Ram ==> address.value() < 0x8000,
        write_target_of(address) is Io ==> 0xfc00 <= address.value() < 0xff00,
        0x8000 <= address.value() < 0xc000 ==> (read_target_of(address, rom_select) matches ReadTarget::Rom {
            bank,
            offset,
        } && bank == rom_select && offset.value() == address.value() - 0x8000),
        (0xc000 <= address.value() < 0xfc00 || 0xff00 <= address.value()) ==> (read_target_of(
            address,
            rom_select,
        ) matches ReadTarget::Rom { bank, offset } && bank == OS_ROM && offset.value()
            == address.value() - 0xc000),
        0x8000 <= address.value() < 0xfc00 || 0xff00 <= address.value() ==> write_target_of(address)
            == WriteTarget::Ignored,
{
}

} // verus!
