//! The fetch-decode-execute engine. `step_spec` is the mathematical model of
//! one machine cycle — fetch the word at the PC, decode its opcode, decode
//! the format the opcode selects, resolve funct3/funct7 against the catalogs,
//! apply the behavior and advance the PC unless the behavior redirected it —
//! and `CPU::step` is the executable engine proved to implement it. Every
//! decode, dispatch or addressing failure surfaces as an `ExecError` carrying
//! the offending PC and instruction word, and the machine state is then left
//! unchanged.
use vstd::prelude::*;
use crate::bittools::sign_extend_spec;
use crate::bittools::shamt5;
use crate::bittools::sra32;
use crate::bittools::to_signed32;
use crate::bittools::wrap_add32;
use crate::bittools::wrap_sub32;
use crate::catalog::Funct3Branch;
use crate::catalog::Funct3Load;
use crate::catalog::Funct3Op;
use crate::catalog::Funct3OpImm;
use crate::catalog::Funct3STORE;
use crate::catalog::Opcode;
use crate::catalog::funct3_branch_of;
use crate::catalog::funct3_load_of;
use crate::catalog::funct3_op_imm_of;
use crate::catalog::funct3_op_of;
use crate::catalog::funct3_store_of;
use crate::catalog::opcode_of;
use crate::decoder::BTypeDecoder;
use crate::decoder::ITypeDecoder;
use crate::decoder::JTypeDecoder;
use crate::decoder::OpcodeDecoder;
use crate::decoder::RTypeDecoder;
use crate::decoder::STypeDecoder;
use crate::decoder::UTypeDecoder;
use crate::decoder::b_imm_10_5_field;
use crate::decoder::b_imm_11_field;
use crate::decoder::b_imm_12_field;
use crate::decoder::b_imm_4_1_field;
use crate::decoder::b_offset_value;
use crate::decoder::funct3_field;
use crate::decoder::funct7_field;
use crate::decoder::i_imm_11_5_field;
use crate::decoder::i_imm_4_0_field;
use crate::decoder::i_imm_field;
use crate::decoder::j_imm_10_1_field;
use crate::decoder::j_imm_11_field;
use crate::decoder::j_imm_19_12_field;
use crate::decoder::j_imm_20_field;
use crate::decoder::j_offset_value;
use crate::decoder::opcode_field;
use crate::decoder::rd_field;
use crate::decoder::rs1_field;
use crate::decoder::rs2_field;
use crate::decoder::s_imm_11_5_field;
use crate::decoder::s_imm_4_0_field;
use crate::decoder::s_imm_value;
use crate::decoder::u_imm_field;
use crate::memory::MEM_WORDS;
use crate::memory::Memory;
use crate::register::Register;
use crate::register::reg_write;

verus! {

/// A decode, dispatch or addressing failure, carrying the program counter at
/// which it arose and, where one was fetched, the offending instruction word.
#[derive(Debug, PartialEq, Eq, Structural, Clone, Copy)]
pub enum ExecError {
    /// The program counter lies outside the instruction store.
    FetchOutOfRange { pc: u32 },
    /// The word's low 7 bits match no opcode in the catalog.
    UnrecognizedOpcode { pc: u32, inst: u32 },
    /// The opcode is recognized but its funct3/funct7 selectors match no
    /// defined operation.
    UnrecognizedFunct { pc: u32, inst: u32 },
    /// The opcode is recognized but names an operation outside the
    /// implemented base integer subset.
    UnimplementedOpcode { pc: u32, inst: u32 },
    /// A load or store computed an effective address outside the data store.
    AddressOutOfRange { pc: u32, inst: u32 },
}

/// The architectural state one step acts on: the 32 registers, the data
/// store, and the program counter. The instruction store is read-only and
/// passed separately.
pub struct MachineState {
    pub regs: Seq<u32>,
    pub ram: Seq<u32>,
    pub pc: u32,
}

/// The state after an instruction that does not redirect control flow: the
/// program counter advances by 4, modulo 2^32.
pub open spec fn advanced(s: MachineState, regs: Seq<u32>, ram: Seq<u32>) -> MachineState {
    MachineState { regs, ram, pc: wrap_add32(s.pc, 4) }
}

/// One OP_IMM instruction: the register-immediate arithmetic, logic and
/// shift operations.
pub open spec fn step_op_imm(inst: u32, s: MachineState) -> Result<MachineState, ExecError> {
    match funct3_op_imm_of(funct3_field(inst)) {
        None => Err(ExecError::UnrecognizedFunct { pc: s.pc, inst }),
        Some(f) => match f {
            Funct3OpImm::ADDI => Ok(
                advanced(
                    s,
                    reg_write(
                        s.regs,
                        rd_field(inst),
                        wrap_add32(
                            s.regs[rs1_field(inst) as int],
                            sign_extend_spec(i_imm_field(inst), 12),
                        ),
                    ),
                    s.ram,
                ),
            ),
            Funct3OpImm::SLTI => Ok(
                advanced(
                    s,
                    reg_write(
                        s.regs,
                        rd_field(inst),
                        if to_signed32(s.regs[rs1_field(inst) as int]) < to_signed32(
                            sign_extend_spec(i_imm_field(inst), 12),
                        ) {
                            1u32
                        } else {
                            0u32
                        },
                    ),
                    s.ram,
                ),
            ),
            Funct3OpImm::SLTIU => Ok(
                advanced(
                    s,
                    reg_write(
                        s.regs,
                        rd_field(inst),
                        if s.regs[rs1_field(inst) as int] < sign_extend_spec(
                            i_imm_field(inst),
                            12,
                        ) {
                            1u32
                        } else {
                            0u32
                        },
                    ),
                    s.ram,
                ),
            ),
            Funct3OpImm::XORI => Ok(
                advanced(
                    s,
                    reg_write(
                        s.regs,
                        rd_field(inst),
                        s.regs[rs1_field(inst) as int] ^ sign_extend_spec(i_imm_field(inst), 12),
                    ),
                    s.ram,
                ),
            ),
            Funct3OpImm::ORI => Ok(
                advanced(
                    s,
                    reg_write(
                        s.regs,
                        rd_field(inst),
                        s.regs[rs1_field(inst) as int] | sign_extend_spec(i_imm_field(inst), 12),
                    ),
                    s.ram,
                ),
            ),
            Funct3OpImm::ANDI => Ok(
                advanced(
                    s,
                    reg_write(
                        s.regs,
                        rd_field(inst),
                        s.regs[rs1_field(inst) as int] & sign_extend_spec(i_imm_field(inst), 12),
                    ),
                    s.ram,
                ),
            ),
            Funct3OpImm::SLLI => Ok(
                advanced(
                    s,
                    reg_write(
                        s.regs,
                        rd_field(inst),
                        s.regs[rs1_field(inst) as int] << i_imm_4_0_field(inst),
                    ),
                    s.ram,
                ),
            ),
            Funct3OpImm::SRLISRAI => if i_imm_11_5_field(inst) == 0b000_0000 {
                Ok(
                    advanced(
                        s,
                        reg_write(
                            s.regs,
                            rd_field(inst),
                            s.regs[rs1_field(inst) as int] >> i_imm_4_0_field(inst),
                        ),
                        s.ram,
                    ),
                )
            } else if i_imm_11_5_field(inst) == 0b010_0000 {
                Ok(
                    advanced(
                        s,
                        reg_write(
                            s.regs,
                            rd_field(inst),
                            sra32(s.regs[rs1_field(inst) as int], i_imm_4_0_field(inst)),
                        ),
                        s.ram,
                    ),
                )
            } else {
                Err(ExecError::UnrecognizedFunct { pc: s.pc, inst })
            },
        },
    }
}

/// One OP instruction: the register-register arithmetic, logic, compare and
/// shift operations.
pub open spec fn step_op(inst: u32, s: MachineState) -> Result<MachineState, ExecError> {
    match funct3_op_of(funct3_field(inst)) {
        None => Err(ExecError::UnrecognizedFunct { pc: s.pc, inst }),
        Some(f) => match f {
            Funct3Op::ADDSUB => if funct7_field(inst) == 0b000_0000 {
                Ok(
                    advanced(
                        s,
                        reg_write(
                            s.regs,
                            rd_field(inst),
                            wrap_add32(
                                s.regs[rs1_field(inst) as int],
                                s.regs[rs2_field(inst) as int],
                            ),
                        ),
                        s.ram,
                    ),
                )
            } else if funct7_field(inst) == 0b010_0000 {
                Ok(
                    advanced(
                        s,
                        reg_write(
                            s.regs,
                            rd_field(inst),
                            wrap_sub32(
                                s.regs[rs1_field(inst) as int],
                                s.regs[rs2_field(inst) as int],
                            ),
                        ),
                        s.ram,
                    ),
                )
            } else {
                Err(ExecError::UnrecognizedFunct { pc: s.pc, inst })
            },
            Funct3Op::SLL => Ok(
                advanced(
                    s,
                    reg_write(
                        s.regs,
                        rd_field(inst),
                        s.regs[rs1_field(inst) as int] << shamt5(s.regs[rs2_field(inst) as int]),
                    ),
                    s.ram,
                ),
            ),
            Funct3Op::SLT => Ok(
                advanced(
                    s,
                    reg_write(
                        s.regs,
                        rd_field(inst),
                        if to_signed32(s.regs[rs1_field(inst) as int]) < to_signed32(
                            s.regs[rs2_field(inst) as int],
                        ) {
                            1u32
                        } else {
                            0u32
                        },
                    ),
                    s.ram,
                ),
            ),
            Funct3Op::SLTU => Ok(
                advanced(
                    s,
                    reg_write(
                        s.regs,
                        rd_field(inst),
                        if s.regs[rs1_field(inst) as int] < s.regs[rs2_field(inst) as int] {
                            1u32
                        } else {
                            0u32
                        },
                    ),
                    s.ram,
                ),
            ),
            Funct3Op::XOR => Ok(
                advanced(
                    s,
                    reg_write(
                        s.regs,
                        rd_field(inst),
                        s.regs[rs1_field(inst) as int] ^ s.regs[rs2_field(inst) as int],
                    ),
                    s.ram,
                ),
            ),
            Funct3Op::SRLSRA => if funct7_field(inst) == 0b000_0000 {
                Ok(
                    advanced(
                        s,
                        reg_write(
                            s.regs,
                            rd_field(inst),
                            s.regs[rs1_field(inst) as int] >> shamt5(
                                s.regs[rs2_field(inst) as int],
                            ),
                        ),
                        s.ram,
                    ),
                )
            } else if funct7_field(inst) == 0b010_0000 {
                Ok(
                    advanced(
                        s,
                        reg_write(
                            s.regs,
                            rd_field(inst),
                            sra32(
                                s.regs[rs1_field(inst) as int],
                                shamt5(s.regs[rs2_field(inst) as int]),
                            ),
                        ),
                        s.ram,
                    ),
                )
            } else {
                Err(ExecError::UnrecognizedFunct { pc: s.pc, inst })
            },
            Funct3Op::OR => Ok(
                advanced(
                    s,
                    reg_write(
                        s.regs,
                        rd_field(inst),
                        s.regs[rs1_field(inst) as int] | s.regs[rs2_field(inst) as int],
                    ),
                    s.ram,
                ),
            ),
            Funct3Op::AND => Ok(
                advanced(
                    s,
                    reg_write(
                        s.regs,
                        rd_field(inst),
                        s.regs[rs1_field(inst) as int] & s.regs[rs2_field(inst) as int],
                    ),
                    s.ram,
                ),
            ),
        },
    }
}

/// One LOAD instruction: the effective address is rs1 plus the sign-extended
/// offset, read as a word index into the data store.
pub open spec fn step_load(inst: u32, s: MachineState) -> Result<MachineState, ExecError> {
    match funct3_load_of(funct3_field(inst)) {
        None => Err(ExecError::UnrecognizedFunct { pc: s.pc, inst }),
        Some(f) => {
            let ea = wrap_add32(
                s.regs[rs1_field(inst) as int],
                sign_extend_spec(i_imm_field(inst), 12),
            );
            if ea < MEM_WORDS {
                let word = s.ram[ea as int];
                let value = match f {
                    Funct3Load::LW => word,
                    Funct3Load::LH => sign_extend_spec(word & 0xFFFF, 16),
                    Funct3Load::LHU => word & 0xFFFF,
                    Funct3Load::LB => sign_extend_spec(word & 0xFF, 8),
                    Funct3Load::LBU => word & 0xFF,
                };
                Ok(advanced(s, reg_write(s.regs, rd_field(inst), value), s.ram))
            } else {
                Err(ExecError::AddressOutOfRange { pc: s.pc, inst })
            }
        },
    }
}

/// One STORE instruction: the effective address is computed as for loads,
/// and the low 32, 16 or 8 bits of rs2, widened with zeros, replace the word
/// there.
pub open spec fn step_store(inst: u32, s: MachineState) -> Result<MachineState, ExecError> {
    match funct3_store_of(funct3_field(inst)) {
        None => Err(ExecError::UnrecognizedFunct { pc: s.pc, inst }),
        Some(f) => {
            let ea = wrap_add32(
                s.regs[rs1_field(inst) as int],
                sign_extend_spec(s_imm_value(s_imm_11_5_field(inst), s_imm_4_0_field(inst)), 12),
            );
            if ea < MEM_WORDS {
                let value = match f {
                    Funct3STORE::SW => s.regs[rs2_field(inst) as int],
                    Funct3STORE::SH => s.regs[rs2_field(inst) as int] & 0xFFFF,
                    Funct3STORE::SB => s.regs[rs2_field(inst) as int] & 0xFF,
                };
                Ok(
                    MachineState {
                        regs: s.regs,
                        ram: s.ram.update(ea as int, value),
                        pc: wrap_add32(s.pc, 4),
                    },
                )
            } else {
                Err(ExecError::AddressOutOfRange { pc: s.pc, inst })
            }
        },
    }
}

/// One BRANCH instruction: the candidate target is PC plus the reassembled,
/// sign-extended offset, and the PC is redirected there exactly when the
/// condition holds between rs1 and rs2; otherwise it advances by 4.
pub open spec fn step_branch(inst: u32, s: MachineState) -> Result<MachineState, ExecError> {
    match funct3_branch_of(funct3_field(inst)) {
        None => Err(ExecError::UnrecognizedFunct { pc: s.pc, inst }),
        Some(f) => {
            let a = s.regs[rs1_field(inst) as int];
            let b = s.regs[rs2_field(inst) as int];
            let taken = match f {
                Funct3Branch::BEQ => a == b,
                Funct3Branch::BNE => a != b,
                Funct3Branch::BLT => to_signed32(a) < to_signed32(b),
                Funct3Branch::BGE => to_signed32(a) >= to_signed32(b),
                Funct3Branch::BLTU => a < b,
                Funct3Branch::BGEU => a >= b,
            };
            let target = wrap_add32(
                s.pc,
                b_offset_value(
                    b_imm_12_field(inst),
                    b_imm_11_field(inst),
                    b_imm_10_5_field(inst),
                    b_imm_4_1_field(inst),
                ),
            );
            Ok(
                MachineState {
                    regs: s.regs,
                    ram: s.ram,
                    pc: if taken {
                        target
                    } else {
                        wrap_add32(s.pc, 4)
                    },
                },
            )
        },
    }
}

/// One machine cycle on state `s` under instruction store `rom`: fetch the
/// word at the PC (a byte-valued PC indexes the word store at PC / 4),
/// decode and dispatch it, and produce the next state or the failure that
/// stopped the cycle.
pub open spec fn step_spec(rom: Seq<u32>, s: MachineState) -> Result<MachineState, ExecError> {
    if s.pc / 4 >= MEM_WORDS {
        Err(ExecError::FetchOutOfRange { pc: s.pc })
    } else {
        let inst = rom[(s.pc / 4) as int];
        match opcode_of(opcode_field(inst)) {
            None => Err(ExecError::UnrecognizedOpcode { pc: s.pc, inst }),
            Some(op) => match op {
                Opcode::LOAD => step_load(inst, s),
                Opcode::OP_IMM => step_op_imm(inst, s),
                Opcode::AUIPC => Ok(
                    advanced(
                        s,
                        reg_write(
                            s.regs,
                            rd_field(inst),
                            wrap_add32(s.pc, u_imm_field(inst) << 12),
                        ),
                        s.ram,
                    ),
                ),
                Opcode::STORE => step_store(inst, s),
                Opcode::OP => step_op(inst, s),
                Opcode::LUI => Ok(
                    advanced(s, reg_write(s.regs, rd_field(inst), u_imm_field(inst) << 12), s.ram),
                ),
                Opcode::BRANCH => step_branch(inst, s),
                Opcode::JALR => Ok(
                    MachineState {
                        regs: reg_write(s.regs, rd_field(inst), wrap_add32(s.pc, 4)),
                        ram: s.ram,
                        pc: (wrap_add32(
                            s.regs[rs1_field(inst) as int],
                            sign_extend_spec(i_imm_field(inst), 12),
                        ) & 0xFFFF_FFFE),
                    },
                ),
                Opcode::JAL => Ok(
                    MachineState {
                        regs: reg_write(s.regs, rd_field(inst), wrap_add32(s.pc, 4)),
                        ram: s.ram,
                        pc: wrap_add32(
                            s.pc,
                            j_offset_value(
                                j_imm_20_field(inst),
                                j_imm_19_12_field(inst),
                                j_imm_11_field(inst),
                                j_imm_10_1_field(inst),
                            ),
                        ),
                    },
                ),
                _ => Err(ExecError::UnimplementedOpcode { pc: s.pc, inst }),
            },
        }
    }
}

/// The machine-state view of a register file and a memory.
pub open spec fn state_of(reg: Register, mem: Memory) -> MachineState {
    MachineState { regs: reg.regs(), ram: mem.ram_spec(), pc: reg.pc_spec() }
}

/// At most `fuel` machine cycles from state `s`: the state after the last
/// one, or the failure that stopped the run early.
pub open spec fn run_spec(rom: Seq<u32>, s: MachineState, fuel: nat) -> Result<
    MachineState,
    ExecError,
>
    decreases fuel,
{
    if fuel == 0 {
        Ok(s)
    } else {
        match step_spec(rom, s) {
            Ok(next) => run_spec(rom, next, (fuel - 1) as nat),
            Err(e) => Err(e),
        }
    }
}

/// Register 0 is architecturally hardwired: whatever instruction a step
/// executes and whatever destination it names, register 0 still reads zero
/// in the successor state.
pub proof fn lemma_step_hardwired_zero(rom: Seq<u32>, s: MachineState)
    requires
        s.regs.len() == 32,
        s.regs[0] == 0,
    ensures
        step_spec(rom, s) matches Ok(post) ==> post.regs[0] == 0,
{
    if s.pc / 4 < MEM_WORDS {
        let inst = rom[(s.pc / 4) as int];
        assert(rd_field(inst) < 32) by (bit_vector);
        assert forall|v: u32| #[trigger] reg_write(s.regs, rd_field(inst), v)[0] == 0 by {}
    }
}

/// The S-type word that encodes `SW rs2, imm(rs1)`: the 12-bit offset is
/// split into imm[11:5] and imm[4:0] as the format prescribes.
pub open spec fn encode_sw(rs1: u32, rs2: u32, imm: u32) -> u32 {
    ((imm >> 5) << 25) | (rs2 << 20) | (rs1 << 15) | (0b010u32 << 12) | ((imm & 0x1F) << 7)
        | 0b0100011
}

/// The I-type word that encodes `LW rd, imm(rs1)`.
pub open spec fn encode_lw(rd: u32, rs1: u32, imm: u32) -> u32 {
    (imm << 20) | (rs1 << 15) | (0b010u32 << 12) | (rd << 7) | 0b0000011
}

/// Store/load round trip: executing `SW rs2, imm(rs1)` and then
/// `LW rd, imm(rs1)` from the next instruction slot leaves in rd exactly the
/// word rs2 held, for every destination but the hardwired zero, every
/// in-range effective address, and every stored value.
pub proof fn lemma_sw_lw_round_trip(
    rom: Seq<u32>,
    s: MachineState,
    rd: u32,
    rs1: u32,
    rs2: u32,
    imm: u32,
)
    requires
        s.regs.len() == 32,
        s.ram.len() == MEM_WORDS,
        rom.len() == MEM_WORDS,
        s.pc % 4 == 0,
        s.pc / 4 + 1 < MEM_WORDS,
        rd != 0,
        rd < 32,
        rs1 < 32,
        rs2 < 32,
        imm < 4096,
        rom[(s.pc / 4) as int] == encode_sw(rs1, rs2, imm),
        rom[(s.pc / 4 + 1) as int] == encode_lw(rd, rs1, imm),
        wrap_add32(s.regs[rs1 as int], sign_extend_spec(imm, 12)) < MEM_WORDS,
    ensures
        step_spec(rom, s) matches Ok(s1) && step_spec(rom, s1) matches Ok(s2) && s2.regs[rd as int]
            == s.regs[rs2 as int],
{
    assert(opcode_field(encode_sw(rs1, rs2, imm)) == 0b0100011 && funct3_field(
        encode_sw(rs1, rs2, imm),
    ) == 0b010 && rs1_field(encode_sw(rs1, rs2, imm)) == rs1 && rs2_field(encode_sw(rs1, rs2, imm))
        == rs2 && s_imm_value(
        s_imm_11_5_field(encode_sw(rs1, rs2, imm)),
        s_imm_4_0_field(encode_sw(rs1, rs2, imm)),
    ) == imm) by (bit_vector)
        requires
            rs1 < 32,
            rs2 < 32,
            imm < 4096,
    ;
    assert(opcode_field(encode_lw(rd, rs1, imm)) == 0b0000011 && funct3_field(
        encode_lw(rd, rs1, imm),
    ) == 0b010 && rd_field(encode_lw(rd, rs1, imm)) == rd && rs1_field(encode_lw(rd, rs1, imm))
        == rs1 && i_imm_field(encode_lw(rd, rs1, imm)) == imm) by (bit_vector)
        requires
            rd < 32,
            rs1 < 32,
            imm < 4096,
    ;
    assert(s.pc + 4 <= 0xFFFF_FFFF);
    assert((s.pc + 4) / 4 == s.pc / 4 + 1);
    let s1 = step_spec(rom, s)->Ok_0;
    assert(s1.pc == s.pc + 4);
    let ea = wrap_add32(s.regs[rs1 as int], sign_extend_spec(imm, 12));
    assert(s1.ram == s.ram.update(ea as int, s.regs[rs2 as int]));
    assert(s1.ram[ea as int] == s.regs[rs2 as int]);
    let s2 = step_spec(rom, s1)->Ok_0;
    assert(s2.regs == reg_write(s1.regs, rd, s1.ram[ea as int]));
}

/// The driving engine. It owns no state of its own: the register file and
/// memory are threaded explicitly through every step.
pub struct CPU {}

impl CPU {
    pub fn new() -> (c: CPU) {
        CPU {  }
    }

    /// Executes one instruction: exactly one cycle of `step_spec`. On
    /// success the register file, memory and PC take the successor state; on
    /// any failure the error names the offending PC and instruction word and
    /// the machine state is unchanged.
    pub fn step(&self, reg: &mut Register, mem: &mut Memory) -> (res: Result<(), ExecError>)
        requires
            old(reg).wf(),
            old(mem).wf(),
        ensures
            final(reg).wf(),
            final(mem).wf(),
            final(mem).rom_spec() == old(mem).rom_spec(),
            ({
                match step_spec(old(mem).rom_spec(), state_of(*old(reg), *old(mem))) {
                    Ok(post) => res is Ok
                        && final(reg).regs() == post.regs
                        && final(reg).pc_spec() == post.pc
                        && final(mem).ram_spec() == post.ram,
                    Err(e) => res == Err::<(), ExecError>(e)
                        && final(reg).regs() == old(reg).regs()
                        && final(reg).pc_spec() == old(reg).pc_spec()
                        && final(mem).ram_spec() == old(mem).ram_spec(),
                }
            }),
    {
        let pc: u32 = reg.getPC();
        if pc / 4 >= MEM_WORDS {
            return Err(ExecError::FetchOutOfRange { pc });
        }
        let inst: u32 = mem.readROM(pc / 4);
        let op_dec: OpcodeDecoder = OpcodeDecoder::new(inst);
        let op: Opcode = match Opcode::try_from(op_dec.opcode) {
            Ok(op) => op,
            Err(()) => {
                return Err(ExecError::UnrecognizedOpcode { pc, inst });
            },
        };
        match op {
            Opcode::LOAD => {
                let itype_dec: ITypeDecoder = ITypeDecoder::new(inst);
                let f: Funct3Load = match Funct3Load::try_from(itype_dec.funct3) {
                    Ok(f) => f,
                    Err(()) => {
                        return Err(ExecError::UnrecognizedFunct { pc, inst });
                    },
                };
                let loaded: Result<(), ()> = match f {
                    Funct3Load::LW => itype_dec.behaviorLW(reg, mem),
                    Funct3Load::LH => itype_dec.behaviorLH(reg, mem),
                    Funct3Load::LHU => itype_dec.behaviorLHU(reg, mem),
                    Funct3Load::LB => itype_dec.behaviorLB(reg, mem),
                    Funct3Load::LBU => itype_dec.behaviorLBU(reg, mem),
                };
                match loaded {
                    Ok(()) => {
                        reg.incPC();
                        Ok(())
                    },
                    Err(()) => Err(ExecError::AddressOutOfRange { pc, inst }),
                }
            },
            Opcode::OP_IMM => {
                let itype_dec: ITypeDecoder = ITypeDecoder::new(inst);
                let f: Funct3OpImm = match Funct3OpImm::try_from(itype_dec.funct3) {
                    Ok(f) => f,
                    Err(()) => {
                        return Err(ExecError::UnrecognizedFunct { pc, inst });
                    },
                };
                match f {
                    Funct3OpImm::ADDI => itype_dec.behaviorADDI(reg),
                    Funct3OpImm::SLTI => itype_dec.behaviorSLTI(reg),
                    Funct3OpImm::SLTIU => itype_dec.behaviorSLTIU(reg),
                    Funct3OpImm::XORI => itype_dec.behaviorXORI(reg),
                    Funct3OpImm::ORI => itype_dec.behaviorORI(reg),
                    Funct3OpImm::ANDI => itype_dec.behaviorANDI(reg),
                    Funct3OpImm::SLLI => itype_dec.behaviorSLLI(reg),
                    Funct3OpImm::SRLISRAI => {
                        if itype_dec.imm_11_5 == 0b000_0000 {
                            itype_dec.behaviorSRLI(reg);
                        } else if itype_dec.imm_11_5 == 0b010_0000 {
                            itype_dec.behaviorSRAI(reg);
                        } else {
                            return Err(ExecError::UnrecognizedFunct { pc, inst });
                        }
                    },
                }
                reg.incPC();
                Ok(())
            },
            Opcode::AUIPC => {
                let utype_dec: UTypeDecoder = UTypeDecoder::new(inst);
                utype_dec.behaviorAUIPC(reg);
                reg.incPC();
                Ok(())
            },
            Opcode::STORE => {
                let stype_dec: STypeDecoder = STypeDecoder::new(inst);
                let f: Funct3STORE = match Funct3STORE::try_from(stype_dec.funct3) {
                    Ok(f) => f,
                    Err(()) => {
                        return Err(ExecError::UnrecognizedFunct { pc, inst });
                    },
                };
                let stored: Result<(), ()> = match f {
                    Funct3STORE::SW => stype_dec.behaviorSW(reg, mem),
                    Funct3STORE::SH => stype_dec.behaviorSH(reg, mem),
                    Funct3STORE::SB => stype_dec.behaviorSB(reg, mem),
                };
                match stored {
                    Ok(()) => {
                        reg.incPC();
                        Ok(())
                    },
                    Err(()) => Err(ExecError::AddressOutOfRange { pc, inst }),
                }
            },
            Opcode::OP => {
                let rtype_dec: RTypeDecoder = RTypeDecoder::new(inst);
                let f: Funct3Op = match Funct3Op::try_from(rtype_dec.funct3) {
                    Ok(f) => f,
                    Err(()) => {
                        return Err(ExecError::UnrecognizedFunct { pc, inst });
                    },
                };
                match f {
                    Funct3Op::ADDSUB => {
                        if rtype_dec.funct7 == 0b000_0000 {
                            rtype_dec.behaviorADD(reg);
                        } else if rtype_dec.funct7 == 0b010_0000 {
                            rtype_dec.behaviorSUB(reg);
                        } else {
                            return Err(ExecError::UnrecognizedFunct { pc, inst });
                        }
                    },
                    Funct3Op::SLL => rtype_dec.behaviorSLL(reg),
                    Funct3Op::SLT => rtype_dec.behaviorSLT(reg),
                    Funct3Op::SLTU => rtype_dec.behaviorSLTU(reg),
                    Funct3Op::XOR => rtype_dec.behaviorXOR(reg),
                    Funct3Op::SRLSRA => {
                        if rtype_dec.funct7 == 0b000_0000 {
                            rtype_dec.behaviorSRL(reg);
                        } else if rtype_dec.funct7 == 0b010_0000 {
                            rtype_dec.behaviorSRA(reg);
                        } else {
                            return Err(ExecError::UnrecognizedFunct { pc, inst });
                        }
                    },
                    Funct3Op::OR => rtype_dec.behaviorOR(reg),
                    Funct3Op::AND => rtype_dec.behaviorAND(reg),
                }
                reg.incPC();
                Ok(())
            },
            Opcode::LUI => {
                let utype_dec: UTypeDecoder = UTypeDecoder::new(inst);
                utype_dec.behaviorLUI(reg);
                reg.incPC();
                Ok(())
            },
            Opcode::BRANCH => {
                let btype_dec: BTypeDecoder = BTypeDecoder::new(inst);
                let f: Funct3Branch = match Funct3Branch::try_from(btype_dec.funct3) {
                    Ok(f) => f,
                    Err(()) => {
                        return Err(ExecError::UnrecognizedFunct { pc, inst });
                    },
                };
                let redirected: bool = match f {
                    Funct3Branch::BEQ => btype_dec.behaviorBEQ(reg),
                    Funct3Branch::BNE => btype_dec.behaviorBNE(reg),
                    Funct3Branch::BLT => btype_dec.behaviorBLT(reg),
                    Funct3Branch::BGE => btype_dec.behaviorBGE(reg),
                    Funct3Branch::BLTU => btype_dec.behaviorBLTU(reg),
                    Funct3Branch::BGEU => btype_dec.behaviorBGEU(reg),
                };
                if !redirected {
                    reg.incPC();
                }
                Ok(())
            },
            Opcode::JALR => {
                let itype_dec: ITypeDecoder = ITypeDecoder::new(inst);
                itype_dec.behaviorJALR(reg);
                Ok(())
            },
            Opcode::JAL => {
                let jtype_dec: JTypeDecoder = JTypeDecoder::new(inst);
                jtype_dec.behaviorJAL(reg);
                Ok(())
            },
            _ => Err(ExecError::UnimplementedOpcode { pc, inst }),
        }
    }

    /// Drives the fetch-decode-execute loop: one instruction after another,
    /// at most `max_steps` of them. The loop owns the PC advance through
    /// `step`; on the first decode, dispatch or addressing failure it halts
    /// rather than continuing with corrupted state, and returns that failure,
    /// leaving the machine in the state whose next cycle fails with exactly
    /// the returned error. `None` means `max_steps` cycles ran without fault;
    /// an enclosing driver that wants an endless run calls again.
    pub fn run(&self, reg: &mut Register, mem: &mut Memory, max_steps: u32) -> (r: Option<
        ExecError,
    >)
        requires
            old(reg).wf(),
            old(mem).wf(),
        ensures
            final(reg).wf(),
            final(mem).wf(),
            final(mem).rom_spec() == old(mem).rom_spec(),
            ({
                match run_spec(
                    old(mem).rom_spec(),
                    state_of(*old(reg), *old(mem)),
                    max_steps as nat,
                ) {
                    Ok(post) => r is None
                        && final(reg).regs() == post.regs
                        && final(reg).pc_spec() == post.pc
                        && final(mem).ram_spec() == post.ram,
                    Err(e) => r == Some(e)
                        && step_spec(final(mem).rom_spec(), state_of(*final(reg), *final(mem)))
                        == Err::<MachineState, ExecError>(e),
                }
            }),
    {
        let mut i: u32 = 0;
        while i < max_steps
            invariant
                reg.wf(),
                mem.wf(),
                mem.rom_spec() == old(mem).rom_spec(),
                i <= max_steps,
                run_spec(old(mem).rom_spec(), state_of(*old(reg), *old(mem)), max_steps as nat)
                    == run_spec(mem.rom_spec(), state_of(*reg, *mem), (max_steps - i) as nat),
            decreases max_steps - i,
        {
            match self.step(reg, mem) {
                Ok(()) => {},
                Err(e) => {
                    return Some(e);
                },
            }
            i = i + 1;
        }
        None
    }
}

} // verus!
