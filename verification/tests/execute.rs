use rv32sim::cpu::CPU;
use rv32sim::decoder::ITypeDecoder;
use rv32sim::memory::Memory;
use rv32sim::register::Register;

fn machine() -> (CPU, Register, Memory) {
    (CPU::new(), Register::new(), Memory::new())
}

#[test]
fn test_addi_scenario() {
    // ADDI x5, x0, 12 with all registers zero.
    let (cpu, mut reg, mut mem) = machine();
    mem.writeROM(0, 0x00C0_0293);
    assert_eq!(cpu.step(&mut reg, &mut mem), Ok(()));
    assert_eq!(reg.getReg(5), 12);
    // The loop advanced the PC; the behavior itself leaves it alone:
    assert_eq!(reg.getPC(), 4);
    let mut fresh = Register::new();
    let dec = ITypeDecoder::new(0x00C0_0293);
    dec.behaviorADDI(&mut fresh);
    assert_eq!(fresh.getReg(5), 12);
    assert_eq!(fresh.getPC(), 0);
}

#[test]
fn test_srai_scenario() {
    // SRAI x2, x1, 4 with x1 holding a value whose sign bit is set.
    let (cpu, mut reg, mut mem) = machine();
    reg.setReg(1, 0x8000_0000);
    mem.writeROM(0, 0x4040_D113);
    assert_eq!(cpu.step(&mut reg, &mut mem), Ok(()));
    assert_eq!(reg.getReg(2), 0xF800_0000);
}

#[test]
fn test_beq_taken_scenario() {
    // BEQ x1, x2, +8 at PC 100 with x1 == x2 == 7.
    let (cpu, mut reg, mut mem) = machine();
    reg.setReg(1, 7);
    reg.setReg(2, 7);
    reg.setPC(100);
    mem.writeROM(25, 0x0020_8463);
    assert_eq!(cpu.step(&mut reg, &mut mem), Ok(()));
    assert_eq!(reg.getPC(), 108);
}

#[test]
fn test_beq_not_taken_scenario() {
    // As above but x1 != x2: the PC takes only the normal +4 step.
    let (cpu, mut reg, mut mem) = machine();
    reg.setReg(1, 7);
    reg.setReg(2, 8);
    reg.setPC(100);
    mem.writeROM(25, 0x0020_8463);
    assert_eq!(cpu.step(&mut reg, &mut mem), Ok(()));
    assert_eq!(reg.getPC(), 104);
}

#[test]
fn test_store_load_round_trip() {
    // SW x2, 0(x1); LW x3, 0(x1); LB x4, 0(x1); LBU x5, 0(x1).
    let (cpu, mut reg, mut mem) = machine();
    reg.setReg(1, 10);
    reg.setReg(2, 0xDEAD_BEEF);
    mem.writeROM(0, 0x0020_A023);
    mem.writeROM(1, 0x0000_A183);
    mem.writeROM(2, 0x0000_8203);
    mem.writeROM(3, 0x0000_C283);
    assert_eq!(cpu.step(&mut reg, &mut mem), Ok(()));
    assert_eq!(mem.readRAM(10), 0xDEAD_BEEF);
    assert_eq!(cpu.step(&mut reg, &mut mem), Ok(()));
    assert_eq!(reg.getReg(3), 0xDEAD_BEEF);
    assert_eq!(cpu.step(&mut reg, &mut mem), Ok(()));
    assert_eq!(reg.getReg(4), 0xFFFF_FFEF);
    assert_eq!(cpu.step(&mut reg, &mut mem), Ok(()));
    assert_eq!(reg.getReg(5), 0x0000_00EF);
}

#[test]
fn test_half_word_loads() {
    // LH x6, 0(x1) and LHU x7, 0(x1) over a stored 0xDEAD_BEEF.
    let (cpu, mut reg, mut mem) = machine();
    reg.setReg(1, 10);
    mem.writeRAM(10, 0xDEAD_BEEF);
    mem.writeROM(0, 0x0000_9303);
    mem.writeROM(1, 0x0000_D383);
    assert_eq!(cpu.step(&mut reg, &mut mem), Ok(()));
    assert_eq!(reg.getReg(6), 0xFFFF_BEEF);
    assert_eq!(cpu.step(&mut reg, &mut mem), Ok(()));
    assert_eq!(reg.getReg(7), 0x0000_BEEF);
}

#[test]
fn test_sub_word_stores() {
    // SH and SB replace the addressed word with the widened low bits of rs2.
    let (cpu, mut reg, mut mem) = machine();
    reg.setReg(1, 20);
    reg.setReg(2, 0xDEAD_BEEF);
    // SH x2, 0(x1): funct3 = 001.
    mem.writeROM(0, 0x0020_9023);
    assert_eq!(cpu.step(&mut reg, &mut mem), Ok(()));
    assert_eq!(mem.readRAM(20), 0x0000_BEEF);
    // SB x2, 0(x1): funct3 = 000.
    mem.writeROM(1, 0x0020_8023);
    assert_eq!(cpu.step(&mut reg, &mut mem), Ok(()));
    assert_eq!(mem.readRAM(20), 0x0000_00EF);
}

#[test]
fn test_hardwired_zero_destination() {
    // ADDI x0, x0, 12 must leave register 0 at zero.
    let (cpu, mut reg, mut mem) = machine();
    mem.writeROM(0, 0x00C0_0013);
    assert_eq!(cpu.step(&mut reg, &mut mem), Ok(()));
    assert_eq!(reg.getReg(0), 0);
    // LW x0, 0(x1) over a nonzero word must as well.
    mem.writeROM(1, 0x0000_A003);
    mem.writeRAM(0, 0x1234_5678);
    assert_eq!(cpu.step(&mut reg, &mut mem), Ok(()));
    assert_eq!(reg.getReg(0), 0);
}

#[test]
fn test_register_register_operations() {
    // x1 = 0xFFFF_FFFF (minus one, read signed), x2 = 1.
    let (cpu, mut reg, mut mem) = machine();
    reg.setReg(1, 0xFFFF_FFFF);
    reg.setReg(2, 1);
    mem.writeROM(0, 0x0020_81B3); // ADD x3, x1, x2
    mem.writeROM(1, 0x4020_8233); // SUB x4, x1, x2
    mem.writeROM(2, 0x0020_A2B3); // SLT x5, x1, x2
    mem.writeROM(3, 0x0020_B333); // SLTU x6, x1, x2
    mem.writeROM(4, 0x0020_C3B3); // XOR x7, x1, x2
    mem.writeROM(5, 0x0020_D433); // SRL x8, x1, x2
    mem.writeROM(6, 0x4020_D4B3); // SRA x9, x1, x2
    mem.writeROM(7, 0x0020_E533); // OR x10, x1, x2
    mem.writeROM(8, 0x0020_F5B3); // AND x11, x1, x2
    mem.writeROM(9, 0x0020_9633); // SLL x12, x1, x2
    let mut i: u32 = 0;
    while i < 10 {
        assert_eq!(cpu.step(&mut reg, &mut mem), Ok(()));
        i += 1;
    }
    assert_eq!(reg.getReg(3), 0); // wraparound, not an error
    assert_eq!(reg.getReg(4), 0xFFFF_FFFE);
    assert_eq!(reg.getReg(5), 1); // -1 < 1 signed
    assert_eq!(reg.getReg(6), 0); // 0xFFFF_FFFF < 1 unsigned is false
    assert_eq!(reg.getReg(7), 0xFFFF_FFFE);
    assert_eq!(reg.getReg(8), 0x7FFF_FFFF); // logical right fills zeros
    assert_eq!(reg.getReg(9), 0xFFFF_FFFF); // arithmetic right fills the sign
    assert_eq!(reg.getReg(10), 0xFFFF_FFFF);
    assert_eq!(reg.getReg(11), 1);
    assert_eq!(reg.getReg(12), 0xFFFF_FFFE);
}

#[test]
fn test_shift_amount_uses_low_five_bits() {
    // x2 = 33: the shifts use 33 & 0x1F = 1.
    let (cpu, mut reg, mut mem) = machine();
    reg.setReg(1, 0xFFFF_FFFF);
    reg.setReg(2, 33);
    mem.writeROM(0, 0x0020_9633); // SLL x12, x1, x2
    mem.writeROM(1, 0x0020_D433); // SRL x8, x1, x2
    assert_eq!(cpu.step(&mut reg, &mut mem), Ok(()));
    assert_eq!(cpu.step(&mut reg, &mut mem), Ok(()));
    assert_eq!(reg.getReg(12), 0xFFFF_FFFE);
    assert_eq!(reg.getReg(8), 0x7FFF_FFFF);
}

#[test]
fn test_register_immediate_operations() {
    let (cpu, mut reg, mut mem) = machine();
    reg.setReg(1, 0x0F0F_0F0F);
    mem.writeROM(0, 0xFFF0_C393); // XORI x7, x1, -1
    mem.writeROM(1, 0x0F00_E413); // ORI x8, x1, 0x0F0
    mem.writeROM(2, 0x0FF0_F493); // ANDI x9, x1, 0x0FF
    mem.writeROM(3, 0x0040_9513); // SLLI x10, x1, 4
    mem.writeROM(4, 0x0040_D593); // SRLI x11, x1, 4
    let mut i: u32 = 0;
    while i < 5 {
        assert_eq!(cpu.step(&mut reg, &mut mem), Ok(()));
        i += 1;
    }
    assert_eq!(reg.getReg(7), 0xF0F0_F0F0);
    assert_eq!(reg.getReg(8), 0x0F0F_0FFF);
    assert_eq!(reg.getReg(9), 0x0000_000F);
    assert_eq!(reg.getReg(10), 0xF0F0_F0F0);
    assert_eq!(reg.getReg(11), 0x00F0_F0F0);
}

#[test]
fn test_set_less_than_immediates() {
    // x1 = 0: SLTI against -1 gives 0; SLTIU against the sign-extended -1
    // (the largest unsigned value) gives 1.
    let (cpu, mut reg, mut mem) = machine();
    mem.writeROM(0, 0xFFF0_A293); // SLTI x5, x1, -1
    mem.writeROM(1, 0xFFF0_B313); // SLTIU x6, x1, -1
    assert_eq!(cpu.step(&mut reg, &mut mem), Ok(()));
    assert_eq!(cpu.step(&mut reg, &mut mem), Ok(()));
    assert_eq!(reg.getReg(5), 0);
    assert_eq!(reg.getReg(6), 1);
}

#[test]
fn test_lui_and_auipc() {
    let (cpu, mut reg, mut mem) = machine();
    mem.writeROM(0, 0x1234_50B7); // LUI x1, 0x12345
    mem.writeROM(1, 0x0000_1117); // AUIPC x2, 0x1 at PC 4
    assert_eq!(cpu.step(&mut reg, &mut mem), Ok(()));
    assert_eq!(reg.getReg(1), 0x1234_5000);
    assert_eq!(cpu.step(&mut reg, &mut mem), Ok(()));
    assert_eq!(reg.getReg(2), 0x0000_1004);
}

#[test]
fn test_jal_and_jalr() {
    let (cpu, mut reg, mut mem) = machine();
    mem.writeROM(0, 0x0080_00EF); // JAL x1, +8
    mem.writeROM(2, 0x0000_8067); // JALR x0, 0(x1) at PC 8
    assert_eq!(cpu.step(&mut reg, &mut mem), Ok(()));
    assert_eq!(reg.getReg(1), 4); // return address PC + 4
    assert_eq!(reg.getPC(), 8);
    assert_eq!(cpu.step(&mut reg, &mut mem), Ok(()));
    assert_eq!(reg.getPC(), 4); // back through the link register
    assert_eq!(reg.getReg(0), 0);
}

#[test]
fn test_jal_backward_offset() {
    // JAL x1, -4 from PC 8.
    let (cpu, mut reg, mut mem) = machine();
    reg.setPC(8);
    mem.writeROM(2, 0xFFDF_F0EF);
    assert_eq!(cpu.step(&mut reg, &mut mem), Ok(()));
    assert_eq!(reg.getPC(), 4);
    assert_eq!(reg.getReg(1), 12);
}

#[test]
fn test_branch_variants() {
    // x1 = 0xFFFF_FFFF (minus one, read signed), x2 = 1, branch offset +8.
    let words = [
        (0x0020_9463u32, true),  // BNE x1, x2: taken
        (0x0020_C463u32, true),  // BLT x1, x2: -1 < 1 signed, taken
        (0x0011_5463u32, true),  // BGE x2, x1: 1 >= -1 signed, taken
        (0x0020_E463u32, false), // BLTU x1, x2: largest < 1 is false
        (0x0020_F463u32, true),  // BGEU x1, x2: taken
    ];
    for &(word, taken) in words.iter() {
        let (cpu, mut reg, mut mem) = machine();
        reg.setReg(1, 0xFFFF_FFFF);
        reg.setReg(2, 1);
        mem.writeROM(0, word);
        assert_eq!(cpu.step(&mut reg, &mut mem), Ok(()));
        assert_eq!(reg.getPC(), if taken { 8 } else { 4 });
    }
}

#[test]
fn test_run_until_fault() {
    // ADDI x5, x0, 12 and then an all-zero word: the run executes the one
    // instruction and halts on the decode failure at the next slot.
    let (cpu, mut reg, mut mem) = machine();
    mem.writeROM(0, 0x00C0_0293);
    assert_eq!(
        cpu.run(&mut reg, &mut mem, 100),
        Some(rv32sim::cpu::ExecError::UnrecognizedOpcode { pc: 4, inst: 0 })
    );
    assert_eq!(reg.getReg(5), 12);
    assert_eq!(reg.getPC(), 4);
}

#[test]
fn test_run_respects_step_bound() {
    let (cpu, mut reg, mut mem) = machine();
    mem.writeROM(0, 0x00C0_0293); // ADDI x5, x0, 12
    assert_eq!(cpu.run(&mut reg, &mut mem, 0), None);
    assert_eq!(reg.getPC(), 0);
    assert_eq!(reg.getReg(5), 0);
    assert_eq!(cpu.run(&mut reg, &mut mem, 1), None);
    assert_eq!(reg.getPC(), 4);
    assert_eq!(reg.getReg(5), 12);
}

#[test]
fn test_branch_backward_offset() {
    // BEQ x0, x0, -4 from PC 8.
    let (cpu, mut reg, mut mem) = machine();
    reg.setPC(8);
    mem.writeROM(2, 0xFE00_0EE3);
    assert_eq!(cpu.step(&mut reg, &mut mem), Ok(()));
    assert_eq!(reg.getPC(), 4);
}
