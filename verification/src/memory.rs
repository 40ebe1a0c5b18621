//! The memory substrate: a read-only instruction store and a read/write data
//! store, each a flat array of `MEM_WORDS` 32-bit words. Addresses handed to
//! the accessors are word indices into the stores, not byte offsets.
use vstd::prelude::*;

verus! {

/// The number of 32-bit words in each of the two stores.
pub const MEM_WORDS: u32 = 256;

pub struct Memory {
    ram: Vec<u32>,
    rom: Vec<u32>,
}

impl Memory {
    /// The data store.
    pub closed spec fn ram_spec(&self) -> Seq<u32> {
        self.ram@
    }

    /// The instruction store.
    pub closed spec fn rom_spec(&self) -> Seq<u32> {
        self.rom@
    }

    /// A well-formed memory holds exactly `MEM_WORDS` words in each store.
    pub open spec fn wf(&self) -> bool {
        self.ram_spec().len() == MEM_WORDS && self.rom_spec().len() == MEM_WORDS
    }

    /// A fresh memory: both stores all zero.
    pub fn new() -> (m: Memory)
        ensures
            m.wf(),
            forall|i: int| 0 <= i < MEM_WORDS ==> m.ram_spec()[i] == 0,
            forall|i: int| 0 <= i < MEM_WORDS ==> m.rom_spec()[i] == 0,
    {
        let mut ram: Vec<u32> = Vec::new();
        let mut rom: Vec<u32> = Vec::new();
        let mut i: u32 = 0;
        while i < MEM_WORDS
            invariant
                i <= MEM_WORDS,
                ram@.len() == i,
                rom@.len() == i,
                forall|j: int| 0 <= j < i ==> ram@[j] == 0,
                forall|j: int| 0 <= j < i ==> rom@[j] == 0,
            decreases MEM_WORDS - i,
        {
            ram.push(0);
            rom.push(0);
            i = i + 1;
        }
        Memory { ram, rom }
    }

    /// Reads the data word at index `addr`.
    pub fn readRAM(&self, addr: u32) -> (r: u32)
        requires
            self.wf(),
            addr < MEM_WORDS,
        ensures
            r == self.ram_spec()[addr as int],
    {
        self.ram[addr as usize]
    }

    /// Reads the low half-word of the data word at index `addr`.
    pub fn readRAM16Bit(&self, addr: u32) -> (r: u16)
        requires
            self.wf(),
            addr < MEM_WORDS,
        ensures
            r == (self.ram_spec()[addr as int] & 0xFFFF) as u16,
    {
        (self.readRAM(addr) & 0x0000_FFFF) as u16
    }

    /// Reads the low byte of the data word at index `addr`.
    pub fn readRAM8Bit(&self, addr: u32) -> (r: u8)
        requires
            self.wf(),
            addr < MEM_WORDS,
        ensures
            r == (self.ram_spec()[addr as int] & 0xFF) as u8,
    {
        (self.readRAM(addr) & 0x0000_00FF) as u8
    }

    /// Writes `val` to the data word at index `addr`.
    pub fn writeRAM(&mut self, addr: u32, val: u32)
        requires
            old(self).wf(),
            addr < MEM_WORDS,
        ensures
            final(self).wf(),
            final(self).ram_spec() == old(self).ram_spec().update(addr as int, val),
            final(self).rom_spec() == old(self).rom_spec(),
    {
        self.ram.set(addr as usize, val);
    }

    /// Writes `val`, widened with zeros, over the data word at index `addr`.
    pub fn writeRAM16Bit(&mut self, addr: u32, val: u16)
        requires
            old(self).wf(),
            addr < MEM_WORDS,
        ensures
            final(self).wf(),
            final(self).ram_spec() == old(self).ram_spec().update(addr as int, val as u32),
            final(self).rom_spec() == old(self).rom_spec(),
    {
        self.writeRAM(addr, val as u32);
    }

    /// Writes `val`, widened with zeros, over the data word at index `addr`.
    pub fn writeRAM8Bit(&mut self, addr: u32, val: u8)
        requires
            old(self).wf(),
            addr < MEM_WORDS,
        ensures
            final(self).wf(),
            final(self).ram_spec() == old(self).ram_spec().update(addr as int, val as u32),
            final(self).rom_spec() == old(self).rom_spec(),
    {
        self.writeRAM(addr, val as u32);
    }

    /// Reads the instruction word at index `addr`.
    pub fn readROM(&self, addr: u32) -> (r: u32)
        requires
            self.wf(),
            addr < MEM_WORDS,
        ensures
            r == self.rom_spec()[addr as int],
    {
        self.rom[addr as usize]
    }

    /// Populates the instruction store before a run: the program-loading hook
    /// for an external loader.
    pub fn writeROM(&mut self, addr: u32, val: u32)
        requires
            old(self).wf(),
            addr < MEM_WORDS,
        ensures
            final(self).wf(),
            final(self).rom_spec() == old(self).rom_spec().update(addr as int, val),
            final(self).ram_spec() == old(self).ram_spec(),
    {
        self.rom.set(addr as usize, val);
    }
}

} // verus!
