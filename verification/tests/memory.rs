use rv32sim::memory::Memory;

#[test]
fn test_memory_starts_zero() {
    let mem = Memory::new();
    assert_eq!(mem.readRAM(0), 0);
    assert_eq!(mem.readRAM(255), 0);
    assert_eq!(mem.readROM(0), 0);
    assert_eq!(mem.readROM(255), 0);
}

#[test]
fn test_ram_word_round_trip() {
    let mut mem = Memory::new();
    mem.writeRAM(7, 0xDEAD_BEEF);
    assert_eq!(mem.readRAM(7), 0xDEAD_BEEF);
    assert_eq!(mem.readRAM(6), 0);
    assert_eq!(mem.readRAM(8), 0);
}

#[test]
fn test_ram_subword_reads() {
    let mut mem = Memory::new();
    mem.writeRAM(3, 0xDEAD_BEEF);
    assert_eq!(mem.readRAM16Bit(3), 0xBEEF);
    assert_eq!(mem.readRAM8Bit(3), 0xEF);
}

#[test]
fn test_ram_subword_writes_replace_word() {
    let mut mem = Memory::new();
    mem.writeRAM(4, 0xFFFF_FFFF);
    mem.writeRAM16Bit(4, 0xBEEF);
    assert_eq!(mem.readRAM(4), 0x0000_BEEF);
    mem.writeRAM8Bit(4, 0xEF);
    assert_eq!(mem.readRAM(4), 0x0000_00EF);
}

#[test]
fn test_rom_word_round_trip() {
    let mut mem = Memory::new();
    mem.writeROM(0, 0x0010_0073);
    assert_eq!(mem.readROM(0), 0x0010_0073);
    assert_eq!(mem.readRAM(0), 0);
}
