//! The instruction format decoders: one record per format (Opcode, R, I, S,
//! B, U, J), each a pure constructor from a 32-bit instruction word to its
//! named subfields. Any word decodes under every format; validity is
//! established later by the operation catalogs, not here. The behaviors of
//! the decoded instructions live on the decoder records as methods.
use vstd::prelude::*;
use crate::bittools::sign_extend_spec;
use crate::bittools::signExtend;
use crate::bittools::shamt5;
use crate::bittools::sra32;
use crate::bittools::to_signed32;
use crate::bittools::wrap_add32;
use crate::bittools::wrap_sub32;
use crate::bittools::lemma_shamt5_bound;
use crate::bittools::lemma_signed_cmp;
use crate::bittools::lemma_u16_round;
use crate::bittools::lemma_u8_round;
use crate::bittools::lemma_u32_to_u16;
use crate::bittools::lemma_u32_to_u8;
use crate::register::Register;
use crate::register::reg_write;
use crate::memory::Memory;
use crate::memory::MEM_WORDS;

verus! {

/// Bits 6:0, the opcode.
pub open spec fn opcode_field(inst: u32) -> u32 {
    inst & 0x0000_007F
}

/// Bits 11:7, the destination register.
pub open spec fn rd_field(inst: u32) -> u32 {
    (inst & 0x0000_0F80) >> 7
}

/// Bits 14:12, the funct3 selector.
pub open spec fn funct3_field(inst: u32) -> u32 {
    (inst & 0x0000_7000) >> 12
}

/// Bits 19:15, the first source register.
pub open spec fn rs1_field(inst: u32) -> u32 {
    (inst & 0x000F_8000) >> 15
}

/// Bits 24:20, the second source register.
pub open spec fn rs2_field(inst: u32) -> u32 {
    (inst & 0x01F0_0000) >> 20
}

/// Bits 31:25, the funct7 selector.
pub open spec fn funct7_field(inst: u32) -> u32 {
    (inst & 0xFE00_0000) >> 25
}

/// Bits 31:20, the I-type immediate imm[11:0].
pub open spec fn i_imm_field(inst: u32) -> u32 {
    (inst & 0xFFF0_0000) >> 20
}

/// Bits 24:20, the low immediate half imm[4:0] (the shift amount of the
/// shift-immediate instructions).
pub open spec fn i_imm_4_0_field(inst: u32) -> u32 {
    (inst & 0x01F0_0000) >> 20
}

/// Bits 31:25, the high immediate half imm[11:5] (the selector between the
/// logical and arithmetic right shift immediates).
pub open spec fn i_imm_11_5_field(inst: u32) -> u32 {
    (inst & 0xFE00_0000) >> 25
}

/// Bits 11:7, the S-type immediate half imm[4:0].
pub open spec fn s_imm_4_0_field(inst: u32) -> u32 {
    (inst & 0x0000_0F80) >> 7
}

/// Bits 31:25, the S-type immediate half imm[11:5].
pub open spec fn s_imm_11_5_field(inst: u32) -> u32 {
    (inst & 0xFE00_0000) >> 25
}

/// Bit 7, the B-type immediate bit imm[11].
pub open spec fn b_imm_11_field(inst: u32) -> u32 {
    (inst & 0x0000_0080) >> 7
}

/// Bits 11:8, the B-type immediate bits imm[4:1].
pub open spec fn b_imm_4_1_field(inst: u32) -> u32 {
    (inst & 0x0000_0F00) >> 8
}

/// Bits 30:25, the B-type immediate bits imm[10:5].
pub open spec fn b_imm_10_5_field(inst: u32) -> u32 {
    (inst & 0x7E00_0000) >> 25
}

/// Bit 31, the B-type immediate bit imm[12].
pub open spec fn b_imm_12_field(inst: u32) -> u32 {
    (inst & 0x8000_0000) >> 31
}

/// Bits 31:12, the U-type immediate imm[31:12].
pub open spec fn u_imm_field(inst: u32) -> u32 {
    (inst & 0xFFFF_F000) >> 12
}

/// Bits 19:12, the J-type immediate bits imm[19:12].
pub open spec fn j_imm_19_12_field(inst: u32) -> u32 {
    (inst & 0x000F_F000) >> 12
}

/// Bit 20, the J-type immediate bit imm[11].
pub open spec fn j_imm_11_field(inst: u32) -> u32 {
    (inst & 0x0010_0000) >> 20
}

/// Bits 30:21, the J-type immediate bits imm[10:1].
pub open spec fn j_imm_10_1_field(inst: u32) -> u32 {
    (inst & 0x7FE0_0000) >> 21
}

/// Bit 31, the J-type immediate bit imm[20].
pub open spec fn j_imm_20_field(inst: u32) -> u32 {
    (inst & 0x8000_0000) >> 31
}

/// The S-type immediate reassembled from its two halves: a 12-bit value.
pub open spec fn s_imm_value(imm_11_5: u32, imm_4_0: u32) -> u32 {
    (imm_11_5 << 5) | imm_4_0
}

/// The B-type branch offset reassembled from its scattered bits as
/// {imm[12], imm[11], imm[10:5], imm[4:1], 0} and sign-extended from 13 bits:
/// the encoded offset counts multiples of 2 bytes, so bit 0 is implicitly 0.
pub open spec fn b_offset_value(imm_12: u32, imm_11: u32, imm_10_5: u32, imm_4_1: u32) -> u32 {
    sign_extend_spec((imm_12 << 12) | (imm_11 << 11) | (imm_10_5 << 5) | (imm_4_1 << 1), 13)
}

/// The J-type jump offset reassembled from its scattered bits as
/// {imm[20], imm[19:12], imm[11], imm[10:1], 0} and sign-extended from 21
/// bits: as for branches, bit 0 is implicitly 0.
pub open spec fn j_offset_value(imm_20: u32, imm_19_12: u32, imm_11: u32, imm_10_1: u32) -> u32 {
    sign_extend_spec((imm_20 << 20) | (imm_19_12 << 12) | (imm_11 << 11) | (imm_10_1 << 1), 21)
}

/// The opcode field of an instruction word.
pub struct OpcodeDecoder {
    pub opcode: u32,
}

impl OpcodeDecoder {
    pub open spec fn wf(&self) -> bool {
        self.opcode < 128
    }

    pub fn new(inst: u32) -> (d: OpcodeDecoder)
        ensures
            d.opcode == opcode_field(inst),
            d.wf(),
    {
        proof {
            assert(inst & 0x0000_007F < 128) by (bit_vector);
        }
        OpcodeDecoder { opcode: inst & 0x0000_007F }
    }
}

/// The fields of an R-type instruction word.
pub struct RTypeDecoder {
    pub rd: u32,
    pub funct3: u32,
    pub rs1: u32,
    pub rs2: u32,
    pub funct7: u32,
}

impl RTypeDecoder {
    pub open spec fn wf(&self) -> bool {
        self.rd < 32 && self.funct3 < 8 && self.rs1 < 32 && self.rs2 < 32 && self.funct7 < 128
    }

    pub fn new(inst: u32) -> (d: RTypeDecoder)
        ensures
            d.rd == rd_field(inst),
            d.funct3 == funct3_field(inst),
            d.rs1 == rs1_field(inst),
            d.rs2 == rs2_field(inst),
            d.funct7 == funct7_field(inst),
            d.wf(),
    {
        proof {
            assert((inst & 0x0000_0F80) >> 7 < 32 && (inst & 0x0000_7000) >> 12 < 8 && (inst
                & 0x000F_8000) >> 15 < 32 && (inst & 0x01F0_0000) >> 20 < 32 && (inst
                & 0xFE00_0000) >> 25 < 128) by (bit_vector);
        }
        RTypeDecoder {
            rd: (inst & 0x0000_0F80) >> 7,
            funct3: (inst & 0x0000_7000) >> 12,
            rs1: (inst & 0x000F_8000) >> 15,
            rs2: (inst & 0x01F0_0000) >> 20,
            funct7: (inst & 0xFE00_0000) >> 25,
        }
    }

    /// ADD: rd = rs1 + rs2, low 32 bits kept, overflow ignored.
    pub fn behaviorADD(&self, r: &mut Register)
        requires
            old(r).wf(),
            self.wf(),
        ensures
            final(r).wf(),
            final(r).pc_spec() == old(r).pc_spec(),
            final(r).regs() == reg_write(
                old(r).regs(),
                self.rd,
                wrap_add32(old(r).regs()[self.rs1 as int], old(r).regs()[self.rs2 as int]),
            ),
    {
        let t1: u32 = r.getReg(self.rs1).wrapping_add(r.getReg(self.rs2));
        r.setReg(self.rd, t1);
    }

    /// SUB: rd = rs1 - rs2, low 32 bits kept, overflow ignored.
    pub fn behaviorSUB(&self, r: &mut Register)
        requires
            old(r).wf(),
            self.wf(),
        ensures
            final(r).wf(),
            final(r).pc_spec() == old(r).pc_spec(),
            final(r).regs() == reg_write(
                old(r).regs(),
                self.rd,
                wrap_sub32(old(r).regs()[self.rs1 as int], old(r).regs()[self.rs2 as int]),
            ),
    {
        let t1: u32 = r.getReg(self.rs1).wrapping_sub(r.getReg(self.rs2));
        r.setReg(self.rd, t1);
    }

    /// SLT: rd = 1 if rs1 < rs2 under signed comparison, else 0.
    pub fn behaviorSLT(&self, r: &mut Register)
        requires
            old(r).wf(),
            self.wf(),
        ensures
            final(r).wf(),
            final(r).pc_spec() == old(r).pc_spec(),
            final(r).regs() == reg_write(
                old(r).regs(),
                self.rd,
                if to_signed32(old(r).regs()[self.rs1 as int]) < to_signed32(
                    old(r).regs()[self.rs2 as int],
                ) {
                    1u32
                } else {
                    0u32
                },
            ),
    {
        proof {
            lemma_signed_cmp(old(r).regs()[self.rs1 as int], old(r).regs()[self.rs2 as int]);
        }
        if (r.getReg(self.rs1) as i32) < (r.getReg(self.rs2) as i32) {
            r.setReg(self.rd, 1);
        } else {
            r.setReg(self.rd, 0);
        }
    }

    /// SLTU: rd = 1 if rs1 < rs2 under unsigned comparison, else 0.
    pub fn behaviorSLTU(&self, r: &mut Register)
        requires
            old(r).wf(),
            self.wf(),
        ensures
            final(r).wf(),
            final(r).pc_spec() == old(r).pc_spec(),
            final(r).regs() == reg_write(
                old(r).regs(),
                self.rd,
                if old(r).regs()[self.rs1 as int] < old(r).regs()[self.rs2 as int] {
                    1u32
                } else {
                    0u32
                },
            ),
    {
        if r.getReg(self.rs1) < r.getReg(self.rs2) {
            r.setReg(self.rd, 1);
        } else {
            r.setReg(self.rd, 0);
        }
    }

    /// AND: rd = rs1 & rs2, bitwise, full width.
    pub fn behaviorAND(&self, r: &mut Register)
        requires
            old(r).wf(),
            self.wf(),
        ensures
            final(r).wf(),
            final(r).pc_spec() == old(r).pc_spec(),
            final(r).regs() == reg_write(
                old(r).regs(),
                self.rd,
                old(r).regs()[self.rs1 as int] & old(r).regs()[self.rs2 as int],
            ),
    {
        let t1: u32 = r.getReg(self.rs1) & r.getReg(self.rs2);
        r.setReg(self.rd, t1);
    }

    /// OR: rd = rs1 | rs2, bitwise, full width.
    pub fn behaviorOR(&self, r: &mut Register)
        requires
            old(r).wf(),
            self.wf(),
        ensures
            final(r).wf(),
            final(r).pc_spec() == old(r).pc_spec(),
            final(r).regs() == reg_write(
                old(r).regs(),
                self.rd,
                old(r).regs()[self.rs1 as int] | old(r).regs()[self.rs2 as int],
            ),
    {
        let t1: u32 = r.getReg(self.rs1) | r.getReg(self.rs2);
        r.setReg(self.rd, t1);
    }

    /// XOR: rd = rs1 ^ rs2, bitwise, full width.
    pub fn behaviorXOR(&self, r: &mut Register)
        requires
            old(r).wf(),
            self.wf(),
        ensures
            final(r).wf(),
            final(r).pc_spec() == old(r).pc_spec(),
            final(r).regs() == reg_write(
                old(r).regs(),
                self.rd,
                old(r).regs()[self.rs1 as int] ^ old(r).regs()[self.rs2 as int],
            ),
    {
        let t1: u32 = r.getReg(self.rs1) ^ r.getReg(self.rs2);
        r.setReg(self.rd, t1);
    }

    /// SLL: rd = rs1 shifted left by the low 5 bits of rs2, zero-filling.
    pub fn behaviorSLL(&self, r: &mut Register)
        requires
            old(r).wf(),
            self.wf(),
        ensures
            final(r).wf(),
            final(r).pc_spec() == old(r).pc_spec(),
            final(r).regs() == reg_write(
                old(r).regs(),
                self.rd,
                old(r).regs()[self.rs1 as int] << shamt5(old(r).regs()[self.rs2 as int]),
            ),
    {
        let s: u32 = r.getReg(self.rs2) & 0x1F;
        proof {
            lemma_shamt5_bound(old(r).regs()[self.rs2 as int]);
        }
        let t1: u32 = r.getReg(self.rs1) << s;
        r.setReg(self.rd, t1);
    }

    /// SRL: rd = rs1 shifted right by the low 5 bits of rs2, zero-filling.
    pub fn behaviorSRL(&self, r: &mut Register)
        requires
            old(r).wf(),
            self.wf(),
        ensures
            final(r).wf(),
            final(r).pc_spec() == old(r).pc_spec(),
            final(r).regs() == reg_write(
                old(r).regs(),
                self.rd,
                old(r).regs()[self.rs1 as int] >> shamt5(old(r).regs()[self.rs2 as int]),
            ),
    {
        let s: u32 = r.getReg(self.rs2) & 0x1F;
        proof {
            lemma_shamt5_bound(old(r).regs()[self.rs2 as int]);
        }
        let t1: u32 = r.getReg(self.rs1) >> s;
        r.setReg(self.rd, t1);
    }

    /// SRA: rd = rs1 shifted right by the low 5 bits of rs2, the sign bit of
    /// rs1 replicated into the vacated upper bits.
    pub fn behaviorSRA(&self, r: &mut Register)
        requires
            old(r).wf(),
            self.wf(),
        ensures
            final(r).wf(),
            final(r).pc_spec() == old(r).pc_spec(),
            final(r).regs() == reg_write(
                old(r).regs(),
                self.rd,
                sra32(old(r).regs()[self.rs1 as int], shamt5(old(r).regs()[self.rs2 as int])),
            ),
    {
        let s: u32 = r.getReg(self.rs2) & 0x1F;
        proof {
            lemma_shamt5_bound(old(r).regs()[self.rs2 as int]);
        }
        let t1: u32 = signExtend(r.getReg(self.rs1) >> s, 32 - s);
        r.setReg(self.rd, t1);
    }
}

/// The fields of an I-type instruction word, with the split immediate views
/// imm[4:0] and imm[11:5] that the shift-immediate instructions reuse.
pub struct ITypeDecoder {
    pub rd: u32,
    pub funct3: u32,
    pub rs1: u32,
    pub imm_11_0: u32,
    pub imm_4_0: u32,
    pub imm_11_5: u32,
}

impl ITypeDecoder {
    pub open spec fn wf(&self) -> bool {
        self.rd < 32 && self.funct3 < 8 && self.rs1 < 32 && self.imm_11_0 < 4096 && self.imm_4_0
            < 32 && self.imm_11_5 < 128
    }

    pub fn new(inst: u32) -> (d: ITypeDecoder)
        ensures
            d.rd == rd_field(inst),
            d.funct3 == funct3_field(inst),
            d.rs1 == rs1_field(inst),
            d.imm_11_0 == i_imm_field(inst),
            d.imm_4_0 == i_imm_4_0_field(inst),
            d.imm_11_5 == i_imm_11_5_field(inst),
            d.wf(),
    {
        proof {
            assert((inst & 0x0000_0F80) >> 7 < 32 && (inst & 0x0000_7000) >> 12 < 8 && (inst
                & 0x000F_8000) >> 15 < 32 && (inst & 0xFFF0_0000) >> 20 < 4096 && (inst
                & 0x01F0_0000) >> 20 < 32 && (inst & 0xFE00_0000) >> 25 < 128) by (bit_vector);
        }
        ITypeDecoder {
            rd: (inst & 0x0000_0F80) >> 7,
            funct3: (inst & 0x0000_7000) >> 12,
            rs1: (inst & 0x000F_8000) >> 15,
            imm_11_0: (inst & 0xFFF0_0000) >> 20,
            imm_4_0: (inst & 0x01F0_0000) >> 20,
            imm_11_5: (inst & 0xFE00_0000) >> 25,
        }
    }

    /// ADDI: rd = rs1 + sign-extended 12-bit immediate, overflow ignored.
    pub fn behaviorADDI(&self, r: &mut Register)
        requires
            old(r).wf(),
            self.wf(),
        ensures
            final(r).wf(),
            final(r).pc_spec() == old(r).pc_spec(),
            final(r).regs() == reg_write(
                old(r).regs(),
                self.rd,
                wrap_add32(old(r).regs()[self.rs1 as int], sign_extend_spec(self.imm_11_0, 12)),
            ),
    {
        let t: u32 = r.getReg(self.rs1).wrapping_add(signExtend(self.imm_11_0, 12));
        r.setReg(self.rd, t);
    }

    /// SLTI: rd = 1 if rs1 < sign-extended immediate under signed comparison,
    /// else 0.
    pub fn behaviorSLTI(&self, r: &mut Register)
        requires
            old(r).wf(),
            self.wf(),
        ensures
            final(r).wf(),
            final(r).pc_spec() == old(r).pc_spec(),
            final(r).regs() == reg_write(
                old(r).regs(),
                self.rd,
                if to_signed32(old(r).regs()[self.rs1 as int]) < to_signed32(
                    sign_extend_spec(self.imm_11_0, 12),
                ) {
                    1u32
                } else {
                    0u32
                },
            ),
    {
        let imm: u32 = signExtend(self.imm_11_0, 12);
        proof {
            lemma_signed_cmp(old(r).regs()[self.rs1 as int], sign_extend_spec(self.imm_11_0, 12));
        }
        if (r.getReg(self.rs1) as i32) < (imm as i32) {
            r.setReg(self.rd, 1);
        } else {
            r.setReg(self.rd, 0);
        }
    }

    /// SLTIU: the immediate is sign-extended to 32 bits, then rd = 1 if
    /// rs1 < immediate under unsigned comparison, else 0.
    pub fn behaviorSLTIU(&self, r: &mut Register)
        requires
            old(r).wf(),
            self.wf(),
        ensures
            final(r).wf(),
            final(r).pc_spec() == old(r).pc_spec(),
            final(r).regs() == reg_write(
                old(r).regs(),
                self.rd,
                if old(r).regs()[self.rs1 as int] < sign_extend_spec(self.imm_11_0, 12) {
                    1u32
                } else {
                    0u32
                },
            ),
    {
        let imm: u32 = signExtend(self.imm_11_0, 12);
        if r.getReg(self.rs1) < imm {
            r.setReg(self.rd, 1);
        } else {
            r.setReg(self.rd, 0);
        }
    }

    /// XORI: rd = rs1 ^ sign-extended immediate.
    pub fn behaviorXORI(&self, r: &mut Register)
        requires
            old(r).wf(),
            self.wf(),
        ensures
            final(r).wf(),
            final(r).pc_spec() == old(r).pc_spec(),
            final(r).regs() == reg_write(
                old(r).regs(),
                self.rd,
                old(r).regs()[self.rs1 as int] ^ sign_extend_spec(self.imm_11_0, 12),
            ),
    {
        let t1: u32 = r.getReg(self.rs1) ^ signExtend(self.imm_11_0, 12);
        r.setReg(self.rd, t1);
    }

    /// ORI: rd = rs1 | sign-extended immediate.
    pub fn behaviorORI(&self, r: &mut Register)
        requires
            old(r).wf(),
            self.wf(),
        ensures
            final(r).wf(),
            final(r).pc_spec() == old(r).pc_spec(),
            final(r).regs() == reg_write(
                old(r).regs(),
                self.rd,
                old(r).regs()[self.rs1 as int] | sign_extend_spec(self.imm_11_0, 12),
            ),
    {
        let t1: u32 = r.getReg(self.rs1) | signExtend(self.imm_11_0, 12);
        r.setReg(self.rd, t1);
    }

    /// ANDI: rd = rs1 & sign-extended immediate.
    pub fn behaviorANDI(&self, r: &mut Register)
        requires
            old(r).wf(),
            self.wf(),
        ensures
            final(r).wf(),
            final(r).pc_spec() == old(r).pc_spec(),
            final(r).regs() == reg_write(
                old(r).regs(),
                self.rd,
                old(r).regs()[self.rs1 as int] & sign_extend_spec(self.imm_11_0, 12),
            ),
    {
        let t1: u32 = r.getReg(self.rs1) & signExtend(self.imm_11_0, 12);
        r.setReg(self.rd, t1);
    }

    /// SLLI: rd = rs1 shifted left by the immediate's low 5 bits,
    /// zero-filling.
    pub fn behaviorSLLI(&self, r: &mut Register)
        requires
            old(r).wf(),
            self.wf(),
        ensures
            final(r).wf(),
            final(r).pc_spec() == old(r).pc_spec(),
            final(r).regs() == reg_write(
                old(r).regs(),
                self.rd,
                old(r).regs()[self.rs1 as int] << self.imm_4_0,
            ),
    {
        let t1: u32 = r.getReg(self.rs1) << self.imm_4_0;
        r.setReg(self.rd, t1);
    }

    /// SRLI: rd = rs1 shifted right by the immediate's low 5 bits,
    /// zero-filling.
    pub fn behaviorSRLI(&self, r: &mut Register)
        requires
            old(r).wf(),
            self.wf(),
        ensures
            final(r).wf(),
            final(r).pc_spec() == old(r).pc_spec(),
            final(r).regs() == reg_write(
                old(r).regs(),
                self.rd,
                old(r).regs()[self.rs1 as int] >> self.imm_4_0,
            ),
    {
        let t1: u32 = r.getReg(self.rs1) >> self.imm_4_0;
        r.setReg(self.rd, t1);
    }

    /// SRAI: rd = rs1 shifted right by the immediate's low 5 bits, the sign
    /// bit of rs1 replicated into the vacated upper bits.
    pub fn behaviorSRAI(&self, r: &mut Register)
        requires
            old(r).wf(),
            self.wf(),
        ensures
            final(r).wf(),
            final(r).pc_spec() == old(r).pc_spec(),
            final(r).regs() == reg_write(
                old(r).regs(),
                self.rd,
                sra32(old(r).regs()[self.rs1 as int], self.imm_4_0),
            ),
    {
        let t1: u32 = signExtend(r.getReg(self.rs1) >> self.imm_4_0, 32 - self.imm_4_0);
        r.setReg(self.rd, t1);
    }

    /// JALR: rd = PC + 4, then the PC is redirected to rs1 plus the
    /// sign-extended immediate, with bit 0 forced to 0. The target is
    /// computed from rs1 before rd is written, so rd may equal rs1.
    pub fn behaviorJALR(&self, r: &mut Register)
        requires
            old(r).wf(),
            self.wf(),
        ensures
            final(r).wf(),
            final(r).regs() == reg_write(
                old(r).regs(),
                self.rd,
                wrap_add32(old(r).pc_spec(), 4),
            ),
            final(r).pc_spec() == (wrap_add32(
                old(r).regs()[self.rs1 as int],
                sign_extend_spec(self.imm_11_0, 12),
            ) & 0xFFFF_FFFE),
    {
        let target: u32 = (r.getReg(self.rs1).wrapping_add(signExtend(self.imm_11_0, 12)))
            & 0xFFFF_FFFE;
        let link: u32 = r.getPC().wrapping_add(4);
        r.setReg(self.rd, link);
        r.setPC(target);
    }

    /// LW: rd = the memory word at rs1 plus the sign-extended offset; an
    /// address outside the data store is an addressing fault and leaves the
    /// registers unchanged.
    pub fn behaviorLW(&self, r: &mut Register, m: &Memory) -> (res: Result<(), ()>)
        requires
            old(r).wf(),
            m.wf(),
            self.wf(),
        ensures
            final(r).wf(),
            final(r).pc_spec() == old(r).pc_spec(),
            ({
                let ea = wrap_add32(
                    old(r).regs()[self.rs1 as int],
                    sign_extend_spec(self.imm_11_0, 12),
                );
                if ea < MEM_WORDS {
                    res is Ok && final(r).regs() == reg_write(
                        old(r).regs(),
                        self.rd,
                        m.ram_spec()[ea as int],
                    )
                } else {
                    res is Err && final(r).regs() == old(r).regs()
                }
            }),
    {
        let t1: u32 = r.getReg(self.rs1).wrapping_add(signExtend(self.imm_11_0, 12));
        if t1 < MEM_WORDS {
            let t2: u32 = m.readRAM(t1);
            r.setReg(self.rd, t2);
            Ok(())
        } else {
            Err(())
        }
    }

    /// LH: rd = the low half-word at the effective address, sign-extended to
    /// 32 bits; out-of-range addresses fault as for LW.
    pub fn behaviorLH(&self, r: &mut Register, m: &Memory) -> (res: Result<(), ()>)
        requires
            old(r).wf(),
            m.wf(),
            self.wf(),
        ensures
            final(r).wf(),
            final(r).pc_spec() == old(r).pc_spec(),
            ({
                let ea = wrap_add32(
                    old(r).regs()[self.rs1 as int],
                    sign_extend_spec(self.imm_11_0, 12),
                );
                if ea < MEM_WORDS {
                    res is Ok && final(r).regs() == reg_write(
                        old(r).regs(),
                        self.rd,
                        sign_extend_spec(m.ram_spec()[ea as int] & 0xFFFF, 16),
                    )
                } else {
                    res is Err && final(r).regs() == old(r).regs()
                }
            }),
    {
        let t1: u32 = r.getReg(self.rs1).wrapping_add(signExtend(self.imm_11_0, 12));
        if t1 < MEM_WORDS {
            let half: u16 = m.readRAM16Bit(t1);
            proof {
                lemma_u16_round(m.ram_spec()[t1 as int]);
            }
            let t2: u32 = signExtend(half as u32, 16);
            r.setReg(self.rd, t2);
            Ok(())
        } else {
            Err(())
        }
    }

    /// LHU: rd = the low half-word at the effective address, zero-extended to
    /// 32 bits; out-of-range addresses fault as for LW.
    pub fn behaviorLHU(&self, r: &mut Register, m: &Memory) -> (res: Result<(), ()>)
        requires
            old(r).wf(),
            m.wf(),
            self.wf(),
        ensures
            final(r).wf(),
            final(r).pc_spec() == old(r).pc_spec(),
            ({
                let ea = wrap_add32(
                    old(r).regs()[self.rs1 as int],
                    sign_extend_spec(self.imm_11_0, 12),
                );
                if ea < MEM_WORDS {
                    res is Ok && final(r).regs() == reg_write(
                        old(r).regs(),
                        self.rd,
                        m.ram_spec()[ea as int] & 0xFFFF,
                    )
                } else {
                    res is Err && final(r).regs() == old(r).regs()
                }
            }),
    {
        let t1: u32 = r.getReg(self.rs1).wrapping_add(signExtend(self.imm_11_0, 12));
        if t1 < MEM_WORDS {
            let half: u16 = m.readRAM16Bit(t1);
            proof {
                lemma_u16_round(m.ram_spec()[t1 as int]);
            }
            r.setReg(self.rd, half as u32);
            Ok(())
        } else {
            Err(())
        }
    }

    /// LB: rd = the low byte at the effective address, sign-extended to 32
    /// bits; out-of-range addresses fault as for LW.
    pub fn behaviorLB(&self, r: &mut Register, m: &Memory) -> (res: Result<(), ()>)
        requires
            old(r).wf(),
            m.wf(),
            self.wf(),
        ensures
            final(r).wf(),
            final(r).pc_spec() == old(r).pc_spec(),
            ({
                let ea = wrap_add32(
                    old(r).regs()[self.rs1 as int],
                    sign_extend_spec(self.imm_11_0, 12),
                );
                if ea < MEM_WORDS {
                    res is Ok && final(r).regs() == reg_write(
                        old(r).regs(),
                        self.rd,
                        sign_extend_spec(m.ram_spec()[ea as int] & 0xFF, 8),
                    )
                } else {
                    res is Err && final(r).regs() == old(r).regs()
                }
            }),
    {
        let t1: u32 = r.getReg(self.rs1).wrapping_add(signExtend(self.imm_11_0, 12));
        if t1 < MEM_WORDS {
            let byte: u8 = m.readRAM8Bit(t1);
            proof {
                lemma_u8_round(m.ram_spec()[t1 as int]);
            }
            let t2: u32 = signExtend(byte as u32, 8);
            r.setReg(self.rd, t2);
            Ok(())
        } else {
            Err(())
        }
    }

    /// LBU: rd = the low byte at the effective address, zero-extended to 32
    /// bits; out-of-range addresses fault as for LW.
    pub fn behaviorLBU(&self, r: &mut Register, m: &Memory) -> (res: Result<(), ()>)
        requires
            old(r).wf(),
            m.wf(),
            self.wf(),
        ensures
            final(r).wf(),
            final(r).pc_spec() == old(r).pc_spec(),
            ({
                let ea = wrap_add32(
                    old(r).regs()[self.rs1 as int],
                    sign_extend_spec(self.imm_11_0, 12),
                );
                if ea < MEM_WORDS {
                    res is Ok && final(r).regs() == reg_write(
                        old(r).regs(),
                        self.rd,
                        m.ram_spec()[ea as int] & 0xFF,
                    )
                } else {
                    res is Err && final(r).regs() == old(r).regs()
                }
            }),
    {
        let t1: u32 = r.getReg(self.rs1).wrapping_add(signExtend(self.imm_11_0, 12));
        if t1 < MEM_WORDS {
            let byte: u8 = m.readRAM8Bit(t1);
            proof {
                lemma_u8_round(m.ram_spec()[t1 as int]);
            }
            r.setReg(self.rd, byte as u32);
            Ok(())
        } else {
            Err(())
        }
    }
}

/// The fields of an S-type instruction word.
pub struct STypeDecoder {
    pub imm_4_0: u32,
    pub funct3: u32,
    pub rs1: u32,
    pub rs2: u32,
    pub imm_11_5: u32,
}

impl STypeDecoder {
    pub open spec fn wf(&self) -> bool {
        self.imm_4_0 < 32 && self.funct3 < 8 && self.rs1 < 32 && self.rs2 < 32 && self.imm_11_5
            < 128
    }

    pub fn new(inst: u32) -> (d: STypeDecoder)
        ensures
            d.imm_4_0 == s_imm_4_0_field(inst),
            d.funct3 == funct3_field(inst),
            d.rs1 == rs1_field(inst),
            d.rs2 == rs2_field(inst),
            d.imm_11_5 == s_imm_11_5_field(inst),
            d.wf(),
    {
        proof {
            assert((inst & 0x0000_0F80) >> 7 < 32 && (inst & 0x0000_7000) >> 12 < 8 && (inst
                & 0x000F_8000) >> 15 < 32 && (inst & 0x01F0_0000) >> 20 < 32 && (inst
                & 0xFE00_0000) >> 25 < 128) by (bit_vector);
        }
        STypeDecoder {
            imm_4_0: (inst & 0x0000_0F80) >> 7,
            funct3: (inst & 0x0000_7000) >> 12,
            rs1: (inst & 0x000F_8000) >> 15,
            rs2: (inst & 0x01F0_0000) >> 20,
            imm_11_5: (inst & 0xFE00_0000) >> 25,
        }
    }

    /// SW: the word in rs2 is stored at rs1 plus the sign-extended offset,
    /// the offset reassembled from the immediate's two halves; an address
    /// outside the data store is an addressing fault and leaves memory
    /// unchanged.
    pub fn behaviorSW(&self, r: &Register, m: &mut Memory) -> (res: Result<(), ()>)
        requires
            r.wf(),
            old(m).wf(),
            self.wf(),
        ensures
            final(m).wf(),
            final(m).rom_spec() == old(m).rom_spec(),
            ({
                let ea = wrap_add32(
                    r.regs()[self.rs1 as int],
                    sign_extend_spec(s_imm_value(self.imm_11_5, self.imm_4_0), 12),
                );
                if ea < MEM_WORDS {
                    res is Ok && final(m).ram_spec() == old(m).ram_spec().update(
                        ea as int,
                        r.regs()[self.rs2 as int],
                    )
                } else {
                    res is Err && final(m).ram_spec() == old(m).ram_spec()
                }
            }),
    {
        let t1: u32 = (self.imm_11_5 << 5) | self.imm_4_0;
        let t2: u32 = r.getReg(self.rs1).wrapping_add(signExtend(t1, 12));
        if t2 < MEM_WORDS {
            m.writeRAM(t2, r.getReg(self.rs2));
            Ok(())
        } else {
            Err(())
        }
    }

    /// SH: the low 16 bits of rs2, widened with zeros, are stored over the
    /// word at the effective address; out-of-range addresses fault as for SW.
    pub fn behaviorSH(&self, r: &Register, m: &mut Memory) -> (res: Result<(), ()>)
        requires
            r.wf(),
            old(m).wf(),
            self.wf(),
        ensures
            final(m).wf(),
            final(m).rom_spec() == old(m).rom_spec(),
            ({
                let ea = wrap_add32(
                    r.regs()[self.rs1 as int],
                    sign_extend_spec(s_imm_value(self.imm_11_5, self.imm_4_0), 12),
                );
                if ea < MEM_WORDS {
                    res is Ok && final(m).ram_spec() == old(m).ram_spec().update(
                        ea as int,
                        r.regs()[self.rs2 as int] & 0xFFFF,
                    )
                } else {
                    res is Err && final(m).ram_spec() == old(m).ram_spec()
                }
            }),
    {
        let t1: u32 = (self.imm_11_5 << 5) | self.imm_4_0;
        let t2: u32 = r.getReg(self.rs1).wrapping_add(signExtend(t1, 12));
        if t2 < MEM_WORDS {
            proof {
                lemma_u32_to_u16(r.regs()[self.rs2 as int]);
            }
            m.writeRAM16Bit(t2, r.getReg(self.rs2) as u16);
            Ok(())
        } else {
            Err(())
        }
    }

    /// SB: the low 8 bits of rs2, widened with zeros, are stored over the
    /// word at the effective address; out-of-range addresses fault as for SW.
    pub fn behaviorSB(&self, r: &Register, m: &mut Memory) -> (res: Result<(), ()>)
        requires
            r.wf(),
            old(m).wf(),
            self.wf(),
        ensures
            final(m).wf(),
            final(m).rom_spec() == old(m).rom_spec(),
            ({
                let ea = wrap_add32(
                    r.regs()[self.rs1 as int],
                    sign_extend_spec(s_imm_value(self.imm_11_5, self.imm_4_0), 12),
                );
                if ea < MEM_WORDS {
                    res is Ok && final(m).ram_spec() == old(m).ram_spec().update(
                        ea as int,
                        r.regs()[self.rs2 as int] & 0xFF,
                    )
                } else {
                    res is Err && final(m).ram_spec() == old(m).ram_spec()
                }
            }),
    {
        let t1: u32 = (self.imm_11_5 << 5) | self.imm_4_0;
        let t2: u32 = r.getReg(self.rs1).wrapping_add(signExtend(t1, 12));
        if t2 < MEM_WORDS {
            proof {
                lemma_u32_to_u8(r.regs()[self.rs2 as int]);
            }
            m.writeRAM8Bit(t2, r.getReg(self.rs2) as u8);
            Ok(())
        } else {
            Err(())
        }
    }
}

/// The fields of a B-type instruction word, its immediate stored in the four
/// scattered groups the encoding prescribes.
pub struct BTypeDecoder {
    pub imm_11: u32,
    pub imm_4_1: u32,
    pub funct3: u32,
    pub rs1: u32,
    pub rs2: u32,
    pub imm_10_5: u32,
    pub imm_12: u32,
}

impl BTypeDecoder {
    pub open spec fn wf(&self) -> bool {
        self.imm_11 < 2 && self.imm_4_1 < 16 && self.funct3 < 8 && self.rs1 < 32 && self.rs2 < 32
            && self.imm_10_5 < 64 && self.imm_12 < 2
    }

    pub fn new(inst: u32) -> (d: BTypeDecoder)
        ensures
            d.imm_11 == b_imm_11_field(inst),
            d.imm_4_1 == b_imm_4_1_field(inst),
            d.funct3 == funct3_field(inst),
            d.rs1 == rs1_field(inst),
            d.rs2 == rs2_field(inst),
            d.imm_10_5 == b_imm_10_5_field(inst),
            d.imm_12 == b_imm_12_field(inst),
            d.wf(),
    {
        proof {
            assert((inst & 0x0000_0080) >> 7 < 2 && (inst & 0x0000_0F00) >> 8 < 16 && (inst
                & 0x0000_7000) >> 12 < 8 && (inst & 0x000F_8000) >> 15 < 32 && (inst
                & 0x01F0_0000) >> 20 < 32 && (inst & 0x7E00_0000) >> 25 < 64 && (inst
                & 0x8000_0000) >> 31 < 2) by (bit_vector);
        }
        BTypeDecoder {
            imm_11: (inst & 0x0000_0080) >> 7,
            imm_4_1: (inst & 0x0000_0F00) >> 8,
            funct3: (inst & 0x0000_7000) >> 12,
            rs1: (inst & 0x000F_8000) >> 15,
            rs2: (inst & 0x01F0_0000) >> 20,
            imm_10_5: (inst & 0x7E00_0000) >> 25,
            imm_12: (inst & 0x8000_0000) >> 31,
        }
    }

    /// BEQ: the PC is redirected to PC plus the reassembled branch offset
    /// when rs1 equals rs2; the returned flag says whether the branch was
    /// taken and the PC already set.
    pub fn behaviorBEQ(&self, r: &mut Register) -> (redirected: bool)
        requires
            old(r).wf(),
            self.wf(),
        ensures
            final(r).wf(),
            final(r).regs() == old(r).regs(),
            redirected == (old(r).regs()[self.rs1 as int] == old(r).regs()[self.rs2 as int]),
            final(r).pc_spec() == if redirected {
                wrap_add32(
                    old(r).pc_spec(),
                    b_offset_value(self.imm_12, self.imm_11, self.imm_10_5, self.imm_4_1),
                )
            } else {
                old(r).pc_spec()
            },
    {
        let t1: u32 = (self.imm_12 << 12) | (self.imm_11 << 11) | (self.imm_10_5 << 5) | (
        self.imm_4_1 << 1);
        let t2: u32 = r.getPC().wrapping_add(signExtend(t1, 13));
        if r.getReg(self.rs1) == r.getReg(self.rs2) {
            r.setPC(t2);
            true
        } else {
            false
        }
    }

    /// BNE: as BEQ, but the branch is taken when rs1 differs from rs2.
    pub fn behaviorBNE(&self, r: &mut Register) -> (redirected: bool)
        requires
            old(r).wf(),
            self.wf(),
        ensures
            final(r).wf(),
            final(r).regs() == old(r).regs(),
            redirected == (old(r).regs()[self.rs1 as int] != old(r).regs()[self.rs2 as int]),
            final(r).pc_spec() == if redirected {
                wrap_add32(
                    old(r).pc_spec(),
                    b_offset_value(self.imm_12, self.imm_11, self.imm_10_5, self.imm_4_1),
                )
            } else {
                old(r).pc_spec()
            },
    {
        let t1: u32 = (self.imm_12 << 12) | (self.imm_11 << 11) | (self.imm_10_5 << 5) | (
        self.imm_4_1 << 1);
        let t2: u32 = r.getPC().wrapping_add(signExtend(t1, 13));
        if r.getReg(self.rs1) != r.getReg(self.rs2) {
            r.setPC(t2);
            true
        } else {
            false
        }
    }

    /// BLT: the branch is taken when rs1 < rs2 under signed comparison.
    pub fn behaviorBLT(&self, r: &mut Register) -> (redirected: bool)
        requires
            old(r).wf(),
            self.wf(),
        ensures
            final(r).wf(),
            final(r).regs() == old(r).regs(),
            redirected == (to_signed32(old(r).regs()[self.rs1 as int]) < to_signed32(
                old(r).regs()[self.rs2 as int],
            )),
            final(r).pc_spec() == if redirected {
                wrap_add32(
                    old(r).pc_spec(),
                    b_offset_value(self.imm_12, self.imm_11, self.imm_10_5, self.imm_4_1),
                )
            } else {
                old(r).pc_spec()
            },
    {
        let t1: u32 = (self.imm_12 << 12) | (self.imm_11 << 11) | (self.imm_10_5 << 5) | (
        self.imm_4_1 << 1);
        let t2: u32 = r.getPC().wrapping_add(signExtend(t1, 13));
        proof {
            lemma_signed_cmp(old(r).regs()[self.rs1 as int], old(r).regs()[self.rs2 as int]);
        }
        if (r.getReg(self.rs1) as i32) < (r.getReg(self.rs2) as i32) {
            r.setPC(t2);
            true
        } else {
            false
        }
    }

    /// BLTU: the branch is taken when rs1 < rs2 under unsigned comparison.
    pub fn behaviorBLTU(&self, r: &mut Register) -> (redirected: bool)
        requires
            old(r).wf(),
            self.wf(),
        ensures
            final(r).wf(),
            final(r).regs() == old(r).regs(),
            redirected == (old(r).regs()[self.rs1 as int] < old(r).regs()[self.rs2 as int]),
            final(r).pc_spec() == if redirected {
                wrap_add32(
                    old(r).pc_spec(),
                    b_offset_value(self.imm_12, self.imm_11, self.imm_10_5, self.imm_4_1),
                )
            } else {
                old(r).pc_spec()
            },
    {
        let t1: u32 = (self.imm_12 << 12) | (self.imm_11 << 11) | (self.imm_10_5 << 5) | (
        self.imm_4_1 << 1);
        let t2: u32 = r.getPC().wrapping_add(signExtend(t1, 13));
        if r.getReg(self.rs1) < r.getReg(self.rs2) {
            r.setPC(t2);
            true
        } else {
            false
        }
    }

    /// BGE: the branch is taken when rs1 >= rs2 under signed comparison.
    pub fn behaviorBGE(&self, r: &mut Register) -> (redirected: bool)
        requires
            old(r).wf(),
            self.wf(),
        ensures
            final(r).wf(),
            final(r).regs() == old(r).regs(),
            redirected == (to_signed32(old(r).regs()[self.rs1 as int]) >= to_signed32(
                old(r).regs()[self.rs2 as int],
            )),
            final(r).pc_spec() == if redirected {
                wrap_add32(
                    old(r).pc_spec(),
                    b_offset_value(self.imm_12, self.imm_11, self.imm_10_5, self.imm_4_1),
                )
            } else {
                old(r).pc_spec()
            },
    {
        let t1: u32 = (self.imm_12 << 12) | (self.imm_11 << 11) | (self.imm_10_5 << 5) | (
        self.imm_4_1 << 1);
        let t2: u32 = r.getPC().wrapping_add(signExtend(t1, 13));
        proof {
            lemma_signed_cmp(old(r).regs()[self.rs1 as int], old(r).regs()[self.rs2 as int]);
        }
        if (r.getReg(self.rs1) as i32) >= (r.getReg(self.rs2) as i32) {
            r.setPC(t2);
            true
        } else {
            false
        }
    }

    /// BGEU: the branch is taken when rs1 >= rs2 under unsigned comparison.
    pub fn behaviorBGEU(&self, r: &mut Register) -> (redirected: bool)
        requires
            old(r).wf(),
            self.wf(),
        ensures
            final(r).wf(),
            final(r).regs() == old(r).regs(),
            redirected == (old(r).regs()[self.rs1 as int] >= old(r).regs()[self.rs2 as int]),
            final(r).pc_spec() == if redirected {
                wrap_add32(
                    old(r).pc_spec(),
                    b_offset_value(self.imm_12, self.imm_11, self.imm_10_5, self.imm_4_1),
                )
            } else {
                old(r).pc_spec()
            },
    {
        let t1: u32 = (self.imm_12 << 12) | (self.imm_11 << 11) | (self.imm_10_5 << 5) | (
        self.imm_4_1 << 1);
        let t2: u32 = r.getPC().wrapping_add(signExtend(t1, 13));
        if r.getReg(self.rs1) >= r.getReg(self.rs2) {
            r.setPC(t2);
            true
        } else {
            false
        }
    }
}

/// The fields of a U-type instruction word.
pub struct UTypeDecoder {
    pub rd: u32,
    pub imm_31_12: u32,
}

impl UTypeDecoder {
    pub open spec fn wf(&self) -> bool {
        self.rd < 32 && self.imm_31_12 < 0x10_0000
    }

    pub fn new(inst: u32) -> (d: UTypeDecoder)
        ensures
            d.rd == rd_field(inst),
            d.imm_31_12 == u_imm_field(inst),
            d.wf(),
    {
        proof {
            assert((inst & 0x0000_0F80) >> 7 < 32 && (inst & 0xFFFF_F000) >> 12 < 0x10_0000)
                by (bit_vector);
        }
        UTypeDecoder { rd: (inst & 0x0000_0F80) >> 7, imm_31_12: (inst & 0xFFFF_F000) >> 12 }
    }

    /// LUI: rd = the U-immediate shifted left 12, the low 12 bits zero.
    pub fn behaviorLUI(&self, r: &mut Register)
        requires
            old(r).wf(),
            self.wf(),
        ensures
            final(r).wf(),
            final(r).pc_spec() == old(r).pc_spec(),
            final(r).regs() == reg_write(old(r).regs(), self.rd, self.imm_31_12 << 12),
    {
        let t1: u32 = self.imm_31_12 << 12;
        r.setReg(self.rd, t1);
    }

    /// AUIPC: rd = PC plus the U-immediate shifted left 12, modulo 2^32.
    pub fn behaviorAUIPC(&self, r: &mut Register)
        requires
            old(r).wf(),
            self.wf(),
        ensures
            final(r).wf(),
            final(r).pc_spec() == old(r).pc_spec(),
            final(r).regs() == reg_write(
                old(r).regs(),
                self.rd,
                wrap_add32(old(r).pc_spec(), self.imm_31_12 << 12),
            ),
    {
        let t1: u32 = (self.imm_31_12 << 12).wrapping_add(r.getPC());
        r.setReg(self.rd, t1);
    }
}

/// The fields of a J-type instruction word, its immediate stored in the four
/// scattered groups the encoding prescribes.
pub struct JTypeDecoder {
    pub rd: u32,
    pub imm_19_12: u32,
    pub imm_11: u32,
    pub imm_10_1: u32,
    pub imm_20: u32,
}

impl JTypeDecoder {
    pub open spec fn wf(&self) -> bool {
        self.rd < 32 && self.imm_19_12 < 256 && self.imm_11 < 2 && self.imm_10_1 < 1024
            && self.imm_20 < 2
    }

    pub fn new(inst: u32) -> (d: JTypeDecoder)
        ensures
            d.rd == rd_field(inst),
            d.imm_19_12 == j_imm_19_12_field(inst),
            d.imm_11 == j_imm_11_field(inst),
            d.imm_10_1 == j_imm_10_1_field(inst),
            d.imm_20 == j_imm_20_field(inst),
            d.wf(),
    {
        proof {
            assert((inst & 0x0000_0F80) >> 7 < 32 && (inst & 0x000F_F000) >> 12 < 256 && (inst
                & 0x0010_0000) >> 20 < 2 && (inst & 0x7FE0_0000) >> 21 < 1024 && (inst
                & 0x8000_0000) >> 31 < 2) by (bit_vector);
        }
        JTypeDecoder {
            rd: (inst & 0x0000_0F80) >> 7,
            imm_19_12: (inst & 0x000F_F000) >> 12,
            imm_11: (inst & 0x0010_0000) >> 20,
            imm_10_1: (inst & 0x7FE0_0000) >> 21,
            imm_20: (inst & 0x8000_0000) >> 31,
        }
    }

    /// JAL: rd = PC + 4 (the return address), then the PC is redirected to PC
    /// plus the reassembled, sign-extended jump offset.
    pub fn behaviorJAL(&self, r: &mut Register)
        requires
            old(r).wf(),
            self.wf(),
        ensures
            final(r).wf(),
            final(r).regs() == reg_write(
                old(r).regs(),
                self.rd,
                wrap_add32(old(r).pc_spec(), 4),
            ),
            final(r).pc_spec() == wrap_add32(
                old(r).pc_spec(),
                j_offset_value(self.imm_20, self.imm_19_12, self.imm_11, self.imm_10_1),
            ),
    {
        let link: u32 = r.getPC().wrapping_add(4);
        let t1: u32 = (self.imm_20 << 20) | (self.imm_19_12 << 12) | (self.imm_11 << 11) | (
        self.imm_10_1 << 1);
        let t2: u32 = r.getPC().wrapping_add(signExtend(t1, 21));
        r.setReg(self.rd, link);
        r.setPC(t2);
    }
}

} // verus!
