use rv32sim::register::Register;

#[test]
fn test_setter_and_getter() {
    let mut reg = Register::new();

    assert_eq!(reg.getPC(), 0);
    reg.setPC(1);
    assert_eq!(reg.getPC(), 1);
    reg.incPC();
    assert_eq!(reg.getPC(), 5);

    assert_eq!(reg.getReg(6), 0);
    reg.setReg(6, 1);
    assert_eq!(reg.getReg(6), 1);
}

#[test]
fn test_all_registers_start_zero() {
    let reg = Register::new();
    let mut idx: u32 = 0;
    while idx < 32 {
        assert_eq!(reg.getReg(idx), 0);
        idx += 1;
    }
}

#[test]
fn test_hardwired_zero_write_discarded() {
    let mut reg = Register::new();
    reg.setReg(0, 0xDEAD_BEEF);
    assert_eq!(reg.getReg(0), 0);
    reg.setReg(31, 0xDEAD_BEEF);
    assert_eq!(reg.getReg(31), 0xDEAD_BEEF);
    assert_eq!(reg.getReg(0), 0);
}

#[test]
fn test_inc_pc_wraps() {
    let mut reg = Register::new();
    reg.setPC(0xFFFF_FFFC);
    reg.incPC();
    assert_eq!(reg.getPC(), 0);
}
