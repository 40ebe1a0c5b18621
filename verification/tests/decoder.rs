use rv32sim::decoder::BTypeDecoder;
use rv32sim::decoder::ITypeDecoder;
use rv32sim::decoder::JTypeDecoder;
use rv32sim::decoder::OpcodeDecoder;
use rv32sim::decoder::RTypeDecoder;
use rv32sim::decoder::STypeDecoder;
use rv32sim::decoder::UTypeDecoder;

// 0x7434_8A7E = 0111_0100_0011_0100_1000_1010_0111_1110 in binary; the
// expected fields below are read off that bit string by hand from each
// format's layout.
const WORD: u32 = 0x7434_8A7E;

#[test]
fn testJTypeDecoder() {
    let jtype_dec = JTypeDecoder::new(WORD);
    assert_eq!(jtype_dec.rd, 0b10100); // bits 11:7
    assert_eq!(jtype_dec.imm_19_12, 0b01001000); // bits 19:12
    assert_eq!(jtype_dec.imm_11, 1); // bit 20
    assert_eq!(jtype_dec.imm_10_1, 0b1110100001); // bits 30:21
    assert_eq!(jtype_dec.imm_20, 0); // bit 31
}

#[test]
fn test_opcode_decoder_fields() {
    let op_dec = OpcodeDecoder::new(WORD);
    assert_eq!(op_dec.opcode, 0b1111110); // bits 6:0
}

#[test]
fn test_rtype_decoder_fields() {
    let rtype_dec = RTypeDecoder::new(WORD);
    assert_eq!(rtype_dec.rd, 0b10100); // bits 11:7
    assert_eq!(rtype_dec.funct3, 0b000); // bits 14:12
    assert_eq!(rtype_dec.rs1, 0b01001); // bits 19:15
    assert_eq!(rtype_dec.rs2, 0b00011); // bits 24:20
    assert_eq!(rtype_dec.funct7, 0b0111010); // bits 31:25
}

#[test]
fn test_itype_decoder_fields() {
    let itype_dec = ITypeDecoder::new(WORD);
    assert_eq!(itype_dec.rd, 0b10100);
    assert_eq!(itype_dec.funct3, 0b000);
    assert_eq!(itype_dec.rs1, 0b01001);
    assert_eq!(itype_dec.imm_11_0, 0b011101000011); // bits 31:20
    assert_eq!(itype_dec.imm_4_0, 0b00011); // bits 24:20
    assert_eq!(itype_dec.imm_11_5, 0b0111010); // bits 31:25
}

#[test]
fn test_stype_decoder_fields() {
    let stype_dec = STypeDecoder::new(WORD);
    assert_eq!(stype_dec.imm_4_0, 0b10100); // bits 11:7
    assert_eq!(stype_dec.funct3, 0b000);
    assert_eq!(stype_dec.rs1, 0b01001);
    assert_eq!(stype_dec.rs2, 0b00011);
    assert_eq!(stype_dec.imm_11_5, 0b0111010); // bits 31:25
}

#[test]
fn test_btype_decoder_fields() {
    let btype_dec = BTypeDecoder::new(WORD);
    assert_eq!(btype_dec.imm_11, 0); // bit 7
    assert_eq!(btype_dec.imm_4_1, 0b1010); // bits 11:8
    assert_eq!(btype_dec.funct3, 0b000);
    assert_eq!(btype_dec.rs1, 0b01001);
    assert_eq!(btype_dec.rs2, 0b00011);
    assert_eq!(btype_dec.imm_10_5, 0b111010); // bits 30:25
    assert_eq!(btype_dec.imm_12, 0); // bit 31
}

#[test]
fn test_utype_decoder_fields() {
    let utype_dec = UTypeDecoder::new(WORD);
    assert_eq!(utype_dec.rd, 0b10100);
    assert_eq!(utype_dec.imm_31_12, 0x74348); // bits 31:12
}
