use rv32sim::cpu::CPU;
use rv32sim::cpu::ExecError;
use rv32sim::memory::Memory;
use rv32sim::register::Register;

fn machine() -> (CPU, Register, Memory) {
    (CPU::new(), Register::new(), Memory::new())
}

#[test]
fn test_fetch_out_of_range() {
    let (cpu, mut reg, mut mem) = machine();
    reg.setPC(1024); // word index 256, one past the instruction store
    assert_eq!(
        cpu.step(&mut reg, &mut mem),
        Err(ExecError::FetchOutOfRange { pc: 1024 })
    );
    assert_eq!(reg.getPC(), 1024);
}

#[test]
fn test_unrecognized_opcode_all_zero_word() {
    let (cpu, mut reg, mut mem) = machine();
    assert_eq!(
        cpu.step(&mut reg, &mut mem),
        Err(ExecError::UnrecognizedOpcode { pc: 0, inst: 0 })
    );
    assert_eq!(reg.getPC(), 0);
}

#[test]
fn test_unrecognized_opcode_undefined_pattern() {
    let (cpu, mut reg, mut mem) = machine();
    mem.writeROM(0, 0x0000_007F);
    assert_eq!(
        cpu.step(&mut reg, &mut mem),
        Err(ExecError::UnrecognizedOpcode { pc: 0, inst: 0x7F })
    );
}

#[test]
fn test_unrecognized_branch_funct3() {
    let (cpu, mut reg, mut mem) = machine();
    mem.writeROM(0, 0x0000_2063); // BRANCH with funct3 = 010
    assert_eq!(
        cpu.step(&mut reg, &mut mem),
        Err(ExecError::UnrecognizedFunct { pc: 0, inst: 0x2063 })
    );
}

#[test]
fn test_unrecognized_load_funct3() {
    let (cpu, mut reg, mut mem) = machine();
    mem.writeROM(0, 0x0000_3003); // LOAD with funct3 = 011
    assert_eq!(
        cpu.step(&mut reg, &mut mem),
        Err(ExecError::UnrecognizedFunct { pc: 0, inst: 0x3003 })
    );
}

#[test]
fn test_unrecognized_store_funct3() {
    let (cpu, mut reg, mut mem) = machine();
    mem.writeROM(0, 0x0000_3023); // STORE with funct3 = 011
    assert_eq!(
        cpu.step(&mut reg, &mut mem),
        Err(ExecError::UnrecognizedFunct { pc: 0, inst: 0x3023 })
    );
}

#[test]
fn test_unrecognized_shift_immediate_selector() {
    let (cpu, mut reg, mut mem) = machine();
    mem.writeROM(0, 0x0240_D113); // SRLI/SRAI with imm[11:5] = 0000001
    assert_eq!(
        cpu.step(&mut reg, &mut mem),
        Err(ExecError::UnrecognizedFunct { pc: 0, inst: 0x0240_D113 })
    );
}

#[test]
fn test_unrecognized_addsub_funct7() {
    let (cpu, mut reg, mut mem) = machine();
    mem.writeROM(0, 0x0220_81B3); // OP/ADDSUB with funct7 = 0000001
    assert_eq!(
        cpu.step(&mut reg, &mut mem),
        Err(ExecError::UnrecognizedFunct { pc: 0, inst: 0x0220_81B3 })
    );
}

#[test]
fn test_unrecognized_shift_funct7() {
    let (cpu, mut reg, mut mem) = machine();
    mem.writeROM(0, 0x0420_D433); // OP/SRLSRA with funct7 = 0000010
    assert_eq!(
        cpu.step(&mut reg, &mut mem),
        Err(ExecError::UnrecognizedFunct { pc: 0, inst: 0x0420_D433 })
    );
}

#[test]
fn test_unimplemented_opcode() {
    let (cpu, mut reg, mut mem) = machine();
    mem.writeROM(0, 0x0000_0073); // SYSTEM (ECALL): recognized, not implemented
    assert_eq!(
        cpu.step(&mut reg, &mut mem),
        Err(ExecError::UnimplementedOpcode { pc: 0, inst: 0x73 })
    );
}

#[test]
fn test_load_address_out_of_range() {
    let (cpu, mut reg, mut mem) = machine();
    reg.setReg(1, 0x1000);
    mem.writeROM(0, 0x0000_A183); // LW x3, 0(x1)
    assert_eq!(
        cpu.step(&mut reg, &mut mem),
        Err(ExecError::AddressOutOfRange { pc: 0, inst: 0xA183 })
    );
    // The failed instruction left the machine state unchanged.
    assert_eq!(reg.getReg(3), 0);
    assert_eq!(reg.getPC(), 0);
}

#[test]
fn test_store_address_out_of_range() {
    let (cpu, mut reg, mut mem) = machine();
    reg.setReg(1, 0x1000);
    reg.setReg(2, 0xDEAD_BEEF);
    mem.writeROM(0, 0x0020_A023); // SW x2, 0(x1)
    assert_eq!(
        cpu.step(&mut reg, &mut mem),
        Err(ExecError::AddressOutOfRange { pc: 0, inst: 0x0020_A023 })
    );
    assert_eq!(reg.getPC(), 0);
}

#[test]
fn test_error_carries_offending_pc() {
    let (cpu, mut reg, mut mem) = machine();
    reg.setPC(12);
    mem.writeROM(3, 0x0000_0073);
    assert_eq!(
        cpu.step(&mut reg, &mut mem),
        Err(ExecError::UnimplementedOpcode { pc: 12, inst: 0x73 })
    );
}
