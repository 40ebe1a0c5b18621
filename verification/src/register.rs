//! The register file: 32 general-purpose 32-bit registers and the program
//! counter. Register 0 is architecturally hardwired to zero; every write is
//! routed through `setReg`, which discards writes aimed at it.
use vstd::prelude::*;
use crate::bittools::wrap_add32;

verus! {

/// The effect of a register write: register 0 is hardwired to zero, so a
/// write aimed at index 0 leaves the file unchanged.
pub open spec fn reg_write(regs: Seq<u32>, idx: u32, val: u32) -> Seq<u32> {
    if idx == 0 {
        regs
    } else {
        regs.update(idx as int, val)
    }
}

/// A write never disturbs the hardwired zero register, whatever destination
/// index and value an instruction supplies.
pub proof fn lemma_reg_write_hardwired_zero(regs: Seq<u32>, idx: u32, val: u32)
    requires
        regs.len() == 32,
        idx < 32,
    ensures
        reg_write(regs, idx, val).len() == 32,
        reg_write(regs, idx, val)[0] == regs[0],
{
}

pub struct Register {
    pc: u32,
    reg: Vec<u32>,
}

impl Register {
    /// The program counter.
    pub closed spec fn pc_spec(&self) -> u32 {
        self.pc
    }

    /// The general-purpose registers, indexed 0 to 31.
    pub closed spec fn regs(&self) -> Seq<u32> {
        self.reg@
    }

    /// A well-formed register file holds exactly 32 registers and keeps
    /// register 0 at zero.
    pub open spec fn wf(&self) -> bool {
        self.regs().len() == 32 && self.regs()[0] == 0
    }

    /// A fresh register file: all registers zero and the program counter at 0.
    pub fn new() -> (r: Register)
        ensures
            r.wf(),
            r.pc_spec() == 0,
            forall|i: int| 0 <= i < 32 ==> r.regs()[i] == 0,
    {
        let mut reg: Vec<u32> = Vec::new();
        let mut i: usize = 0;
        while i < 32
            invariant
                i <= 32,
                reg@.len() == i,
                forall|j: int| 0 <= j < i ==> reg@[j] == 0,
            decreases 32 - i,
        {
            reg.push(0);
            i = i + 1;
        }
        Register { pc: 0, reg }
    }

    pub fn getPC(&self) -> (r: u32)
        ensures
            r == self.pc_spec(),
    {
        self.pc
    }

    pub fn setPC(&mut self, target_pc: u32)
        ensures
            final(self).pc_spec() == target_pc,
            final(self).regs() == old(self).regs(),
    {
        self.pc = target_pc;
    }

    /// Advances the program counter past the current instruction, modulo 2^32.
    pub fn incPC(&mut self)
        ensures
            final(self).pc_spec() == wrap_add32(old(self).pc_spec(), 4),
            final(self).regs() == old(self).regs(),
    {
        self.pc = self.pc.wrapping_add(4);
    }

    pub fn getReg(&self, idx: u32) -> (r: u32)
        requires
            self.wf(),
            idx < 32,
        ensures
            r == self.regs()[idx as int],
    {
        self.reg[idx as usize]
    }

    /// Writes `imm` to register `idx`; a write to register 0 is discarded, so
    /// the hardwired zero is preserved.
    pub fn setReg(&mut self, idx: u32, imm: u32)
        requires
            old(self).wf(),
            idx < 32,
        ensures
            final(self).wf(),
            final(self).pc_spec() == old(self).pc_spec(),
            final(self).regs() == reg_write(old(self).regs(), idx, imm),
    {
        if idx != 0 {
            self.reg.set(idx as usize, imm);
        }
    }
}

} // verus!
