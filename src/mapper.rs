//! Cartridge mappers. Only mapper 0 (NROM) is implemented: a fixed mirroring
//! scheme with no bank switching.
use vstd::prelude::*;

verus! {

/// First CPU address of the PRG-RAM window.
pub const PRG_RAM_START: u16 = 0x6000;

/// First CPU address of the PRG-ROM window.
pub const PRG_ROM_START: u16 = 0x8000;

/// True when `address` lies in the PRG-RAM window `0x6000..=0x7FFF`.
pub open spec fn in_prg_ram(address: u16) -> bool {
    0x6000 <= address && address <= 0x7FFF
}

/// True when `address` lies in the PRG-ROM window `0x8000..=0xFFFF`.
pub open spec fn in_prg_rom(address: u16) -> bool {
    0x8000 <= address
}

/// A read through NROM can be served: the bank that backs `address` is not empty.
pub open spec fn nrom_readable(rom_len: nat, ram_len: nat, address: u16) -> bool {
    &&& in_prg_ram(address) ==> ram_len > 0
    &&& in_prg_rom(address) ==> rom_len > 0
}

/// The byte that NROM returns for a CPU read: PRG-RAM and PRG-ROM are
/// mirrored to fill their windows, every other address reads as zero.
pub open spec fn nrom_read(rom: Seq<u8>, ram: Seq<u8>, address: u16) -> u8
    recommends
        nrom_readable(rom.len(), ram.len(), address),
{
    if in_prg_ram(address) {
        ram[(address - 0x6000) % (ram.len() as int)]
    } else if in_prg_rom(address) {
        rom[(address - 0x8000) % (rom.len() as int)]
    } else {
        0
    }
}

/// PRG-RAM after NROM handles a CPU write: only the RAM window is writable.
pub open spec fn nrom_write(ram: Seq<u8>, address: u16, value: u8) -> Seq<u8>
    recommends
        in_prg_ram(address) ==> ram.len() > 0,
{
    if in_prg_ram(address) {
        ram.update((address - 0x6000) % (ram.len() as int), value)
    } else {
        ram
    }
}

/// The cartridge-side address decoder, selected by the iNES mapper number.
pub struct Mapper {
    mapper: usize,
}

impl Mapper {
    /// The mapper number this decoder was built for.
    pub closed spec fn id(&self) -> usize {
        self.mapper
    }

    /// What a CPU read returns through this mapper; unknown mappers read zero.
    pub open spec fn read_spec(&self, rom: Seq<u8>, ram: Seq<u8>, address: u16) -> u8 {
        if self.id() == 0 {
            nrom_read(rom, ram, address)
        } else {
            0
        }
    }

    /// PRG-RAM after a CPU write through this mapper; unknown mappers drop writes.
    pub open spec fn write_spec(&self, ram: Seq<u8>, address: u16, value: u8) -> Seq<u8> {
        if self.id() == 0 {
            nrom_write(ram, address, value)
        } else {
            ram
        }
    }

    /// A read of `address` can be served with banks of these lengths.
    pub open spec fn can_read(&self, rom_len: nat, ram_len: nat, address: u16) -> bool {
        self.id() == 0 ==> nrom_readable(rom_len, ram_len, address)
    }

    /// A write to `address` can be served with a PRG-RAM of this length.
    pub open spec fn can_write(&self, ram_len: nat, address: u16) -> bool {
        self.id() == 0 && in_prg_ram(address) ==> ram_len > 0
    }

    /// A decoder for the given mapper number.
    pub fn new(mapper: usize) -> (r: Self)
        ensures
            r.id() == mapper,
    {
        Self { mapper }
    }

    /// Whether a read of `address` can be served with banks of these lengths.
    pub fn readable(&self, rom_len: usize, ram_len: usize, address: u16) -> (r: bool)
        ensures
            r == self.can_read(rom_len as nat, ram_len as nat, address),
    {
        if self.mapper != 0 {
            true
        } else if PRG_RAM_START <= address && address < PRG_ROM_START {
            ram_len > 0
        } else if address >= PRG_ROM_START {
            rom_len > 0
        } else {
            true
        }
    }

    /// Whether a write to `address` can be served with a PRG-RAM of this length.
    pub fn writable(&self, ram_len: usize, address: u16) -> (r: bool)
        ensures
            r == self.can_write(ram_len as nat, address),
    {
        self.mapper != 0 || !(PRG_RAM_START <= address && address < PRG_ROM_START) || ram_len > 0
    }

    /// A CPU read, served from the cartridge banks.
    pub fn cpu_read(&self, prg_rom: &[u8], prg_ram: &[u8], address: u16) -> (r: u8)
        requires
            self.can_read(prg_rom@.len(), prg_ram@.len(), address),
        ensures
            r == self.read_spec(prg_rom@, prg_ram@, address),
    {
        if self.mapper == 0 {
            self.cpu_read_mapper_0(prg_rom, prg_ram, address)
        } else {
            0
        }
    }

    /// A CPU write; only PRG-RAM takes it.
    pub fn cpu_write(&self, prg_ram: &mut [u8], address: u16, value: u8)
        requires
            self.can_write(old(prg_ram)@.len(), address),
        ensures
            final(prg_ram)@ == self.write_spec(old(prg_ram)@, address, value),
    {
        if self.mapper == 0 {
            self.cpu_write_mapper_0(prg_ram, address, value);
        }
    }

    /// NROM read.
    fn cpu_read_mapper_0(&self, prg_rom: &[u8], prg_ram: &[u8], address: u16) -> (r: u8)
        requires
            nrom_readable(prg_rom@.len(), prg_ram@.len(), address),
        ensures
            r == nrom_read(prg_rom@, prg_ram@, address),
    {
        if PRG_RAM_START <= address && address < PRG_ROM_START {
            let index: usize = (address - PRG_RAM_START) as usize % prg_ram.len();
            prg_ram[index]
        } else if address >= PRG_ROM_START {
            let index: usize = (address - PRG_ROM_START) as usize % prg_rom.len();
            prg_rom[index]
        } else {
            0
        }
    }

    /// NROM write.
    fn cpu_write_mapper_0(&self, prg_ram: &mut [u8], address: u16, value: u8)
        requires
            in_prg_ram(address) ==> old(prg_ram)@.len() > 0,
        ensures
            final(prg_ram)@ == nrom_write(old(prg_ram)@, address, value),
    {
        if PRG_RAM_START <= address && address < PRG_ROM_START {
            let index: usize = (address - PRG_RAM_START) as usize % prg_ram.len();
            prg_ram[index] = value;
        }
    }
}

} // verus!
