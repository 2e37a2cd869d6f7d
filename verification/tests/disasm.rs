use mos6502::constants::{
    instruction_size, known_opcode, mode_of, opcode_name, operand_length, AddressingType,
};
use mos6502::memory::{disassemble3, word2, Memory};
use mos6502::text::{h, hex4, hh};

#[test]
fn hex_renderers() {
    assert_eq!(h(0x0f), "0F");
    assert_eq!(h(0x00), "00");
    assert_eq!(h(0xab), "AB");
    assert_eq!(hh(0x5), "5");
    assert_eq!(hh(0x42), "42");
    assert_eq!(hh(0x1234), "1234");
    assert_eq!(hex4(0x0001), "0001");
    assert_eq!(hex4(0xbeef), "BEEF");
}

#[test]
fn word2_is_little_endian() {
    assert_eq!(word2(0x34, 0x12), 0x1234);
    assert_eq!(word2(0x00, 0x00), 0x0000);
    assert_eq!(word2(0xff, 0xff), 0xffff);
}

#[test]
fn operand_text_by_mode() {
    assert_eq!(AddressingType::IMMEDIATE.to_string(0, 0x42, 0), "#$42");
    assert_eq!(AddressingType::ZP.to_string(0, 0x42, 0), "$42");
    assert_eq!(AddressingType::ZP_X.to_string(0, 0x42, 0), "$42,X");
    assert_eq!(AddressingType::ZP_Y.to_string(0, 0x42, 0), "$42,Y");
    assert_eq!(AddressingType::ABSOLUTE.to_string(0, 0, 0x1234), "$1234");
    assert_eq!(AddressingType::ABSOLUTE_X.to_string(0, 0, 0x1234), "$1234,X");
    assert_eq!(AddressingType::ABSOLUTE_Y.to_string(0, 0, 0x1234), "$1234,Y");
    assert_eq!(AddressingType::INDIRECT.to_string(0, 0, 0x1234), "($1234)");
    assert_eq!(AddressingType::INDIRECT_X.to_string(0, 0, 0x1234), "($1234,X)");
    assert_eq!(AddressingType::INDIRECT_Y.to_string(0, 0, 0x1234), "($1234),Y");
    assert_eq!(AddressingType::NONE.to_string(0, 0, 0), "");
    // A forward relative operand prints its branch target.
    assert_eq!(AddressingType::RELATIVE.to_string(0x05e0, 0x03, 0), "$5E5");
    // 0x7F is the largest forward displacement (+127); 0x80 is the most
    // negative one (-128).
    assert_eq!(AddressingType::RELATIVE.to_string(0x0500, 0x7f, 0), "$581");
    assert_eq!(AddressingType::RELATIVE.to_string(0x0500, 0x80, 0), "$482");
}

#[test]
fn disassemble_one_instruction_per_length() {
    let mut image = vec![0u8; 0x100];
    image[0x00] = 0xa9; // LDA #$42
    image[0x01] = 0x42;
    image[0x02] = 0x60; // RTS
    image[0x03] = 0xad; // LDA $1234
    image[0x04] = 0x34;
    image[0x05] = 0x12;
    let m = Memory::new_with_vec(image);
    let (line, size) = m.disassemble(0x00);
    assert_eq!(line, "0000: A9 42      LDA #$42");
    assert_eq!(size, 2);
    let (line, size) = m.disassemble(0x02);
    assert_eq!(line, "0002: 60         RTS");
    assert_eq!(size, 1);
    let (line, size) = m.disassemble(0x03);
    assert_eq!(line, "0003: AD 34 12   LDA $1234");
    assert_eq!(size, 3);
}

#[test]
fn disassemble3_reports_bytes_consumed() {
    let (line, n) = disassemble3(0x05e0, vec![0xd0, 0xfe]);
    assert_eq!(n, 2);
    assert_eq!(line, "05E0: D0 FE      BNE $5E0");
    let (_, n) = disassemble3(0x0000, vec![0xea]);
    assert_eq!(n, 1);
    let (_, n) = disassemble3(0x0000, vec![0x4c, 0x00, 0x10]);
    assert_eq!(n, 3);
}

#[test]
fn operand_format_reencodes_to_declared_length() {
    // For every implemented opcode, one opcode byte plus the operand bytes
    // of its addressing mode reproduces the declared 1-, 2- or 3-byte
    // length.
    for op in 0..=255u8 {
        if known_opcode(op) {
            assert_eq!(
                1 + operand_length(mode_of(op)),
                instruction_size(op),
                "opcode {:#04x}",
                op
            );
        }
    }
}

#[test]
fn metadata_samples() {
    assert_eq!(opcode_name(0x00), "BRK");
    assert_eq!(opcode_name(0xa9), "LDA");
    assert_eq!(opcode_name(0x02), "NOP");
    assert_eq!(instruction_size(0x00), 1);
    assert_eq!(instruction_size(0xa9), 2);
    assert_eq!(instruction_size(0x4c), 3);
    assert!(known_opcode(0xea));
    assert!(!known_opcode(0x02));
    assert!(matches!(mode_of(0xa9), AddressingType::IMMEDIATE));
    assert!(matches!(mode_of(0x6c), AddressingType::INDIRECT));
}
