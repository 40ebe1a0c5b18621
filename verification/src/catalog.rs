//! The operation catalogs: closed enumerations of the defined opcode and
//! funct3 bit patterns, each with a total, fallible mapping from raw bits to
//! its tag. A pattern outside a catalog is an observable decode failure, not
//! a silent default.
use vstd::prelude::*;

verus! {

/// The 7-bit opcodes of the RISC-V base opcode map.
#[derive(Debug, PartialEq, Eq, Structural, Clone, Copy)]
pub enum Opcode {
    LOAD,
    LOAD_FP,
    MISC_MEM,
    OP_IMM,
    AUIPC,
    OP_IMM_32,
    STORE,
    STORE_FP,
    AMO,
    OP,
    LUI,
    OP_32,
    MADD,
    MSUB,
    MMSUB,
    NMADD,
    OP_FP,
    BRANCH,
    JALR,
    JAL,
    SYSTEM,
}

/// The bit pattern that encodes each opcode tag.
pub open spec fn opcode_value(op: Opcode) -> u32 {
    match op {
        Opcode::LOAD => 0b0000011,
        Opcode::LOAD_FP => 0b0000111,
        Opcode::MISC_MEM => 0b0001111,
        Opcode::OP_IMM => 0b0010011,
        Opcode::AUIPC => 0b0010111,
        Opcode::OP_IMM_32 => 0b0011011,
        Opcode::STORE => 0b0100011,
        Opcode::STORE_FP => 0b0100111,
        Opcode::AMO => 0b0101111,
        Opcode::OP => 0b0110011,
        Opcode::LUI => 0b0110111,
        Opcode::OP_32 => 0b0111011,
        Opcode::MADD => 0b1000011,
        Opcode::MSUB => 0b1000111,
        Opcode::MMSUB => 0b1001011,
        Opcode::NMADD => 0b1001111,
        Opcode::OP_FP => 0b1010011,
        Opcode::BRANCH => 0b1100011,
        Opcode::JALR => 0b1100111,
        Opcode::JAL => 0b1101111,
        Opcode::SYSTEM => 0b1110011,
    }
}

/// The opcode tag encoded by `val`, or `None` when `val` matches no defined
/// opcode.
pub open spec fn opcode_of(val: u32) -> Option<Opcode> {
    if val == 0b0000011 {
        Some(Opcode::LOAD)
    } else if val == 0b0000111 {
        Some(Opcode::LOAD_FP)
    } else if val == 0b0001111 {
        Some(Opcode::MISC_MEM)
    } else if val == 0b0010011 {
        Some(Opcode::OP_IMM)
    } else if val == 0b0010111 {
        Some(Opcode::AUIPC)
    } else if val == 0b0011011 {
        Some(Opcode::OP_IMM_32)
    } else if val == 0b0100011 {
        Some(Opcode::STORE)
    } else if val == 0b0100111 {
        Some(Opcode::STORE_FP)
    } else if val == 0b0101111 {
        Some(Opcode::AMO)
    } else if val == 0b0110011 {
        Some(Opcode::OP)
    } else if val == 0b0110111 {
        Some(Opcode::LUI)
    } else if val == 0b0111011 {
        Some(Opcode::OP_32)
    } else if val == 0b1000011 {
        Some(Opcode::MADD)
    } else if val == 0b1000111 {
        Some(Opcode::MSUB)
    } else if val == 0b1001011 {
        Some(Opcode::MMSUB)
    } else if val == 0b1001111 {
        Some(Opcode::NMADD)
    } else if val == 0b1010011 {
        Some(Opcode::OP_FP)
    } else if val == 0b1100011 {
        Some(Opcode::BRANCH)
    } else if val == 0b1100111 {
        Some(Opcode::JALR)
    } else if val == 0b1101111 {
        Some(Opcode::JAL)
    } else if val == 0b1110011 {
        Some(Opcode::SYSTEM)
    } else {
        None
    }
}

impl Opcode {
    /// Resolves a raw opcode field against the catalog; a pattern outside the
    /// defined set is an unrecognized-opcode failure.
    pub fn try_from(val: u32) -> (r: Result<Opcode, ()>)
        ensures
            r == match opcode_of(val) {
                Some(op) => Ok::<Opcode, ()>(op),
                None => Err::<Opcode, ()>(()),
            },
    {
        match val {
            0b0000011 => Ok(Opcode::LOAD),
            0b0000111 => Ok(Opcode::LOAD_FP),
            0b0001111 => Ok(Opcode::MISC_MEM),
            0b0010011 => Ok(Opcode::OP_IMM),
            0b0010111 => Ok(Opcode::AUIPC),
            0b0011011 => Ok(Opcode::OP_IMM_32),
            0b0100011 => Ok(Opcode::STORE),
            0b0100111 => Ok(Opcode::STORE_FP),
            0b0101111 => Ok(Opcode::AMO),
            0b0110011 => Ok(Opcode::OP),
            0b0110111 => Ok(Opcode::LUI),
            0b0111011 => Ok(Opcode::OP_32),
            0b1000011 => Ok(Opcode::MADD),
            0b1000111 => Ok(Opcode::MSUB),
            0b1001011 => Ok(Opcode::MMSUB),
            0b1001111 => Ok(Opcode::NMADD),
            0b1010011 => Ok(Opcode::OP_FP),
            0b1100011 => Ok(Opcode::BRANCH),
            0b1100111 => Ok(Opcode::JALR),
            0b1101111 => Ok(Opcode::JAL),
            0b1110011 => Ok(Opcode::SYSTEM),
            _ => Err(()),
        }
    }
}

/// Decoding an opcode tag's own bit pattern resolves to that tag: the catalog
/// round-trips on every defined opcode.
pub proof fn lemma_opcode_round_trip(op: Opcode)
    ensures
        opcode_of(opcode_value(op)) == Some(op),
{
}

/// The catalog is sound: whenever a pattern resolves to a tag, it is that
/// tag's own encoding.
pub proof fn lemma_opcode_of_sound(val: u32)
    ensures
        opcode_of(val) matches Some(op) ==> opcode_value(op) == val,
{
}

/// A pattern that is no opcode tag's encoding yields an unrecognized-opcode
/// failure.
pub proof fn lemma_opcode_of_unrecognized(val: u32)
    requires
        forall|op: Opcode| opcode_value(op) != val,
    ensures
        opcode_of(val) is None,
{
    if opcode_of(val) is Some {
        let op = opcode_of(val)->Some_0;
        lemma_opcode_of_sound(val);
        assert(opcode_value(op) != val);
    }
}

/// The funct3 selectors under the OP_IMM opcode.
#[derive(Debug, PartialEq, Eq, Structural, Clone, Copy)]
pub enum Funct3OpImm {
    ADDI,
    SLLI,
    SLTI,
    SLTIU,
    XORI,
    SRLISRAI,
    ORI,
    ANDI,
}

/// The bit pattern that encodes each OP_IMM funct3 tag.
pub open spec fn funct3_op_imm_value(f: Funct3OpImm) -> u32 {
    match f {
        Funct3OpImm::ADDI => 0b000,
        Funct3OpImm::SLLI => 0b001,
        Funct3OpImm::SLTI => 0b010,
        Funct3OpImm::SLTIU => 0b011,
        Funct3OpImm::XORI => 0b100,
        Funct3OpImm::SRLISRAI => 0b101,
        Funct3OpImm::ORI => 0b110,
        Funct3OpImm::ANDI => 0b111,
    }
}

/// The OP_IMM funct3 tag encoded by `val`, or `None` when `val` matches none.
pub open spec fn funct3_op_imm_of(val: u32) -> Option<Funct3OpImm> {
    if val == 0b000 {
        Some(Funct3OpImm::ADDI)
    } else if val == 0b001 {
        Some(Funct3OpImm::SLLI)
    } else if val == 0b010 {
        Some(Funct3OpImm::SLTI)
    } else if val == 0b011 {
        Some(Funct3OpImm::SLTIU)
    } else if val == 0b100 {
        Some(Funct3OpImm::XORI)
    } else if val == 0b101 {
        Some(Funct3OpImm::SRLISRAI)
    } else if val == 0b110 {
        Some(Funct3OpImm::ORI)
    } else if val == 0b111 {
        Some(Funct3OpImm::ANDI)
    } else {
        None
    }
}

impl Funct3OpImm {
    /// Resolves a raw funct3 field under OP_IMM against the catalog.
    pub fn try_from(val: u32) -> (r: Result<Funct3OpImm, ()>)
        ensures
            r == match funct3_op_imm_of(val) {
                Some(f) => Ok::<Funct3OpImm, ()>(f),
                None => Err::<Funct3OpImm, ()>(()),
            },
    {
        match val {
            0b000 => Ok(Funct3OpImm::ADDI),
            0b001 => Ok(Funct3OpImm::SLLI),
            0b010 => Ok(Funct3OpImm::SLTI),
            0b011 => Ok(Funct3OpImm::SLTIU),
            0b100 => Ok(Funct3OpImm::XORI),
            0b101 => Ok(Funct3OpImm::SRLISRAI),
            0b110 => Ok(Funct3OpImm::ORI),
            0b111 => Ok(Funct3OpImm::ANDI),
            _ => Err(()),
        }
    }
}

/// The funct3 selectors under the OP opcode.
#[derive(Debug, PartialEq, Eq, Structural, Clone, Copy)]
pub enum Funct3Op {
    ADDSUB,
    SLL,
    SLT,
    SLTU,
    XOR,
    SRLSRA,
    OR,
    AND,
}

/// The bit pattern that encodes each OP funct3 tag.
pub open spec fn funct3_op_value(f: Funct3Op) -> u32 {
    match f {
        Funct3Op::ADDSUB => 0b000,
        Funct3Op::SLL => 0b001,
        Funct3Op::SLT => 0b010,
        Funct3Op::SLTU => 0b011,
        Funct3Op::XOR => 0b100,
        Funct3Op::SRLSRA => 0b101,
        Funct3Op::OR => 0b110,
        Funct3Op::AND => 0b111,
    }
}

/// The OP funct3 tag encoded by `val`, or `None` when `val` matches none.
pub open spec fn funct3_op_of(val: u32) -> Option<Funct3Op> {
    if val == 0b000 {
        Some(Funct3Op::ADDSUB)
    } else if val == 0b001 {
        Some(Funct3Op::SLL)
    } else if val == 0b010 {
        Some(Funct3Op::SLT)
    } else if val == 0b011 {
        Some(Funct3Op::SLTU)
    } else if val == 0b100 {
        Some(Funct3Op::XOR)
    } else if val == 0b101 {
        Some(Funct3Op::SRLSRA)
    } else if val == 0b110 {
        Some(Funct3Op::OR)
    } else if val == 0b111 {
        Some(Funct3Op::AND)
    } else {
        None
    }
}

impl Funct3Op {
    /// Resolves a raw funct3 field under OP against the catalog.
    pub fn try_from(val: u32) -> (r: Result<Funct3Op, ()>)
        ensures
            r == match funct3_op_of(val) {
                Some(f) => Ok::<Funct3Op, ()>(f),
                None => Err::<Funct3Op, ()>(()),
            },
    {
        match val {
            0b000 => Ok(Funct3Op::ADDSUB),
            0b001 => Ok(Funct3Op::SLL),
            0b010 => Ok(Funct3Op::SLT),
            0b011 => Ok(Funct3Op::SLTU),
            0b100 => Ok(Funct3Op::XOR),
            0b101 => Ok(Funct3Op::SRLSRA),
            0b110 => Ok(Funct3Op::OR),
            0b111 => Ok(Funct3Op::AND),
            _ => Err(()),
        }
    }
}

/// The funct3 selectors under the BRANCH opcode.
#[derive(Debug, PartialEq, Eq, Structural, Clone, Copy)]
pub enum Funct3Branch {
    BEQ,
    BNE,
    BLT,
    BGE,
    BLTU,
    BGEU,
}

/// The bit pattern that encodes each BRANCH funct3 tag.
pub open spec fn funct3_branch_value(f: Funct3Branch) -> u32 {
    match f {
        Funct3Branch::BEQ => 0b000,
        Funct3Branch::BNE => 0b001,
        Funct3Branch::BLT => 0b100,
        Funct3Branch::BGE => 0b101,
        Funct3Branch::BLTU => 0b110,
        Funct3Branch::BGEU => 0b111,
    }
}

/// The BRANCH funct3 tag encoded by `val`, or `None` when `val` matches none.
pub open spec fn funct3_branch_of(val: u32) -> Option<Funct3Branch> {
    if val == 0b000 {
        Some(Funct3Branch::BEQ)
    } else if val == 0b001 {
        Some(Funct3Branch::BNE)
    } else if val == 0b100 {
        Some(Funct3Branch::BLT)
    } else if val == 0b101 {
        Some(Funct3Branch::BGE)
    } else if val == 0b110 {
        Some(Funct3Branch::BLTU)
    } else if val == 0b111 {
        Some(Funct3Branch::BGEU)
    } else {
        None
    }
}

impl Funct3Branch {
    /// Resolves a raw funct3 field under BRANCH against the catalog.
    pub fn try_from(val: u32) -> (r: Result<Funct3Branch, ()>)
        ensures
            r == match funct3_branch_of(val) {
                Some(f) => Ok::<Funct3Branch, ()>(f),
                None => Err::<Funct3Branch, ()>(()),
            },
    {
        match val {
            0b000 => Ok(Funct3Branch::BEQ),
            0b001 => Ok(Funct3Branch::BNE),
            0b100 => Ok(Funct3Branch::BLT),
            0b101 => Ok(Funct3Branch::BGE),
            0b110 => Ok(Funct3Branch::BLTU),
            0b111 => Ok(Funct3Branch::BGEU),
            _ => Err(()),
        }
    }
}

/// The funct3 selectors under the LOAD opcode.
#[derive(Debug, PartialEq, Eq, Structural, Clone, Copy)]
pub enum Funct3Load {
    LB,
    LH,
    LW,
    LBU,
    LHU,
}

/// The bit pattern that encodes each LOAD funct3 tag.
pub open spec fn funct3_load_value(f: Funct3Load) -> u32 {
    match f {
        Funct3Load::LB => 0b000,
        Funct3Load::LH => 0b001,
        Funct3Load::LW => 0b010,
        Funct3Load::LBU => 0b100,
        Funct3Load::LHU => 0b101,
    }
}

/// The LOAD funct3 tag encoded by `val`, or `None` when `val` matches none.
pub open spec fn funct3_load_of(val: u32) -> Option<Funct3Load> {
    if val == 0b000 {
        Some(Funct3Load::LB)
    } else if val == 0b001 {
        Some(Funct3Load::LH)
    } else if val == 0b010 {
        Some(Funct3Load::LW)
    } else if val == 0b100 {
        Some(Funct3Load::LBU)
    } else if val == 0b101 {
        Some(Funct3Load::LHU)
    } else {
        None
    }
}

impl Funct3Load {
    /// Resolves a raw funct3 field under LOAD against the catalog.
    pub fn try_from(val: u32) -> (r: Result<Funct3Load, ()>)
        ensures
            r == match funct3_load_of(val) {
                Some(f) => Ok::<Funct3Load, ()>(f),
                None => Err::<Funct3Load, ()>(()),
            },
    {
        match val {
            0b000 => Ok(Funct3Load::LB),
            0b001 => Ok(Funct3Load::LH),
            0b010 => Ok(Funct3Load::LW),
            0b100 => Ok(Funct3Load::LBU),
            0b101 => Ok(Funct3Load::LHU),
            _ => Err(()),
        }
    }
}

/// The funct3 selectors under the STORE opcode.
#[derive(Debug, PartialEq, Eq, Structural, Clone, Copy)]
pub enum Funct3STORE {
    SB,
    SH,
    SW,
}

/// The bit pattern that encodes each STORE funct3 tag.
pub open spec fn funct3_store_value(f: Funct3STORE) -> u32 {
    match f {
        Funct3STORE::SB => 0b000,
        Funct3STORE::SH => 0b001,
        Funct3STORE::SW => 0b010,
    }
}

/// The STORE funct3 tag encoded by `val`, or `None` when `val` matches none.
pub open spec fn funct3_store_of(val: u32) -> Option<Funct3STORE> {
    if val == 0b000 {
        Some(Funct3STORE::SB)
    } else if val == 0b001 {
        Some(Funct3STORE::SH)
    } else if val == 0b010 {
        Some(Funct3STORE::SW)
    } else {
        None
    }
}

impl Funct3STORE {
    /// Resolves a raw funct3 field under STORE against the catalog.
    pub fn try_from(val: u32) -> (r: Result<Funct3STORE, ()>)
        ensures
            r == match funct3_store_of(val) {
                Some(f) => Ok::<Funct3STORE, ()>(f),
                None => Err::<Funct3STORE, ()>(()),
            },
    {
        match val {
            0b000 => Ok(Funct3STORE::SB),
            0b001 => Ok(Funct3STORE::SH),
            0b010 => Ok(Funct3STORE::SW),
            _ => Err(()),
        }
    }
}

} // verus!
