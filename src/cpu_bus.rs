//! The CPU-side bus: the two operations the CPU drives, and the cartridge
//! bus that routes them to the mapper.
use vstd::prelude::*;
use crate::mapper::{Mapper, in_prg_ram, in_prg_rom};

verus! {

/// What the CPU needs of a bus: a byte read and a byte write over the full
/// 16-bit address space. A bus is modelled by what a read of each address
/// returns, and by how a write changes that; a read changes neither.
pub trait CpuBus: Sized {
    /// The byte that a read of each address returns in this state. A bus
    /// that does not describe itself leaves it unspecified.
    closed spec fn memory(&self) -> Map<u16, u8> {
        arbitrary()
    }

    /// What `mem` becomes when `value` is written to `address`. This is the
    /// bus's wiring (mirrors, read-only ranges), which no access changes. A bus
    /// that does not describe itself leaves it unspecified.
    closed spec fn store(&self, mem: Map<u16, u8>, address: u16, value: u8) -> Map<u16, u8> {
        arbitrary()
    }

    fn cpu_read(&mut self, address: u16) -> (r: u8)
        ensures
            r == old(self).memory()[address],
            final(self).memory() == old(self).memory(),
            forall|mem: Map<u16, u8>, at: u16, value: u8| #[trigger]
                final(self).store(mem, at, value) == old(self).store(mem, at, value),
    ;

    fn cpu_write(&mut self, address: u16, value: u8)
        ensures
            final(self).memory() == old(self).store(old(self).memory(), address, value),
            forall|mem: Map<u16, u8>, at: u16, v: u8| #[trigger]
                final(self).store(mem, at, v) == old(self).store(mem, at, v),
    ;
}

/// Two states of a bus handle writes alike.
pub open spec fn same_wiring<B: CpuBus>(a: B, b: B) -> bool {
    forall|mem: Map<u16, u8>, address: u16, value: u8| #[trigger]
        b.store(mem, address, value) == a.store(mem, address, value)
}

/// The bus of the console: `0x6000..=0xFFFF` goes to the cartridge through its
/// mapper; every other address reads as zero and drops writes.
pub struct CPUBus {
    mapper: Mapper,
    prg_rom: Vec<u8>,
    prg_ram: Vec<u8>,
}

impl CPUBus {
    /// The mapper that decodes cartridge addresses.
    pub closed spec fn mapper_spec(&self) -> Mapper {
        self.mapper
    }

    /// Contents of PRG-ROM.
    pub closed spec fn rom(&self) -> Seq<u8> {
        self.prg_rom@
    }

    /// Contents of PRG-RAM.
    pub closed spec fn ram(&self) -> Seq<u8> {
        self.prg_ram@
    }

    /// The byte that a CPU read of `address` returns. A cartridge bank that
    /// holds no byte reads as zero.
    pub open spec fn read_spec(&self, address: u16) -> u8 {
        if (in_prg_ram(address) || in_prg_rom(address)) && self.mapper_spec().can_read(
            self.rom().len(),
            self.ram().len(),
            address,
        ) {
            self.mapper_spec().read_spec(self.rom(), self.ram(), address)
        } else {
            0
        }
    }

    /// PRG-RAM after a CPU write of `value` to `address`.
    pub open spec fn ram_after_write(&self, address: u16, value: u8) -> Seq<u8> {
        if (in_prg_ram(address) || in_prg_rom(address)) && self.mapper_spec().can_write(
            self.ram().len(),
            address,
        ) {
            self.mapper_spec().write_spec(self.ram(), address, value)
        } else {
            self.ram()
        }
    }

    /// A bus over a cartridge's banks.
    pub fn new(mapper: Mapper, prg_rom: Vec<u8>, prg_ram: Vec<u8>) -> (r: Self)
        ensures
            r.mapper_spec() == mapper,
            r.rom() == prg_rom@,
            r.ram() == prg_ram@,
    {
        CPUBus { mapper, prg_rom, prg_ram }
    }

    /// The current contents of PRG-RAM.
    pub fn prg_ram(&self) -> (r: &[u8])
        ensures
            r@ == self.ram(),
    {
        self.prg_ram.as_slice()
    }

    /// A CPU read: cartridge space through the mapper, zero elsewhere.
    pub fn cpu_read(&self, address: u16) -> (r: u8)
        ensures
            r == self.read_spec(address),
    {
        if address >= 0x6000 && self.mapper.readable(self.prg_rom.len(), self.prg_ram.len(), address) {
            self.mapper.cpu_read(self.prg_rom.as_slice(), self.prg_ram.as_slice(), address)
        } else {
            0
        }
    }

    /// A CPU write: cartridge space through the mapper, dropped elsewhere.
    pub fn cpu_write(&mut self, address: u16, value: u8)
        ensures
            final(self).mapper_spec() == old(self).mapper_spec(),
            final(self).rom() == old(self).rom(),
            final(self).ram() == old(self).ram_after_write(address, value),
    {
        if address >= 0x6000 && self.mapper.writable(self.prg_ram.len(), address) {
            self.mapper.cpu_write(self.prg_ram.as_mut_slice(), address, value);
        }
    }
}

impl CpuBus for CPUBus {
    open spec fn memory(&self) -> Map<u16, u8> {
        Map::new(|address: u16| true, |address: u16| self.read_spec(address))
    }

    open spec fn store(&self, mem: Map<u16, u8>, address: u16, value: u8) -> Map<u16, u8> {
        Map::new(
            |at: u16| true,
            |at: u16|
                if self.mapper_spec().id() == 0 && self.ram().len() > 0 && in_prg_ram(address)
                    && in_prg_ram(at)
                    && (at - 0x6000) % (self.ram().len() as int) == (address - 0x6000) % (
                    self.ram().len() as int) {
                    value
                } else {
                    mem[at]
                },
        )
    }

    fn cpu_read(&mut self, address: u16) -> (r: u8) {
        let r = CPUBus::cpu_read(&*self, address);
        assert(final(self).memory() =~= old(self).memory());
        r
    }

    fn cpu_write(&mut self, address: u16, value: u8) {
        CPUBus::cpu_write(self, address, value);
        assert(self.memory() =~= old(self).store(old(self).memory(), address, value));
    }
}

} // verus!
