//! The opcode metadata: per-opcode byte length, base cycle cost,
//! addressing-mode tag and mnemonic, plus the addressing-mode resolver.
//!
//! Every lookup is total over the whole 0..=255 opcode space; opcodes the
//! dispatcher does not implement read as a `NOP`-named, `NONE`-addressed
//! placeholder here, and the execution engine refuses to execute them.

use vstd::prelude::*;
use crate::memory::Memory;
use crate::model::{spec_address, spec_wrap16, wrap_add16};
use crate::text::{h, hh, spec_operand_text};

verus! {

/// Low byte of the interrupt/BRK vector location.
pub const IRQ_VECTOR_L: u16 = 0xfffe;
/// High byte of the interrupt/BRK vector location.
pub const IRQ_VECTOR_H: u16 = 0xffff;

pub const BRK: u8 = 0x00;
pub const ADC_IMM: u8 = 0x69;
pub const ADC_ZP: u8 = 0x65;
pub const ADC_ZP_X: u8 = 0x75;
pub const ADC_ABS: u8 = 0x6d;
pub const ADC_ABS_X: u8 = 0x7d;
pub const ADC_ABS_Y: u8 = 0x79;
pub const ADC_IND_X: u8 = 0x61;
pub const ADC_IND_Y: u8 = 0x71;
pub const AND_IMM: u8 = 0x29;
pub const AND_ZP: u8 = 0x25;
pub const AND_ZP_X: u8 = 0x35;
pub const AND_ABS: u8 = 0x2d;
pub const AND_ABS_X: u8 = 0x3d;
pub const AND_ABS_Y: u8 = 0x39;
pub const AND_IND_X: u8 = 0x21;
pub const AND_IND_Y: u8 = 0x31;
pub const ASL: u8 = 0x0a;
pub const ASL_ZP: u8 = 0x06;
pub const ASL_ZP_X: u8 = 0x16;
pub const ASL_ABS: u8 = 0x0e;
pub const ASL_ABS_X: u8 = 0x1e;
pub const BIT_ZP: u8 = 0x24;
pub const BIT_ABS: u8 = 0x2c;
pub const BPL: u8 = 0x10;
pub const BMI: u8 = 0x30;
pub const BVC: u8 = 0x50;
pub const BVS: u8 = 0x70;
pub const BCC: u8 = 0x90;
pub const BCS: u8 = 0xb0;
pub const BNE: u8 = 0xd0;
pub const BEQ: u8 = 0xf0;
pub const CPX_IMM: u8 = 0xe0;
pub const CPX_ZP: u8 = 0xe4;
pub const CPX_ABS: u8 = 0xec;
pub const CLC: u8 = 0x18;
pub const SEC: u8 = 0x38;
pub const CLI: u8 = 0x58;
pub const SEI: u8 = 0x78;
pub const CLV: u8 = 0xb8;
pub const CLD: u8 = 0xd8;
pub const SED: u8 = 0xf8;
pub const CMP_IMM: u8 = 0xc9;
pub const CMP_ZP: u8 = 0xc5;
pub const CMP_ZP_X: u8 = 0xd5;
pub const CMP_ABS: u8 = 0xcd;
pub const CMP_ABS_X: u8 = 0xdd;
pub const CMP_ABS_Y: u8 = 0xd9;
pub const CMP_IND_X: u8 = 0xc1;
pub const CMP_IND_Y: u8 = 0xd1;
pub const CPY_IMM: u8 = 0xc0;
pub const CPY_ZP: u8 = 0xc4;
pub const CPY_ABS: u8 = 0xcc;
pub const DEC_ZP: u8 = 0xc6;
pub const DEC_ZP_X: u8 = 0xd6;
pub const DEC_ABS: u8 = 0xce;
pub const DEC_ABS_X: u8 = 0xde;
pub const EOR_IMM: u8 = 0x49;
pub const EOR_ZP: u8 = 0x45;
pub const EOR_ZP_X: u8 = 0x55;
pub const EOR_ABS: u8 = 0x4d;
pub const EOR_ABS_X: u8 = 0x5d;
pub const EOR_ABS_Y: u8 = 0x59;
pub const EOR_IND_X: u8 = 0x41;
pub const EOR_IND_Y: u8 = 0x51;
pub const INC_ZP: u8 = 0xe6;
pub const INC_ZP_X: u8 = 0xf6;
pub const INC_ABS: u8 = 0xee;
pub const INC_ABS_X: u8 = 0xfe;
pub const JMP: u8 = 0x4c;
pub const JMP_IND: u8 = 0x6c;
pub const JSR: u8 = 0x20;
pub const LDA_IMM: u8 = 0xa9;
pub const LDA_ZP: u8 = 0xa5;
pub const LDA_ZP_X: u8 = 0xb5;
pub const LDA_ABS: u8 = 0xad;
pub const LDA_ABS_X: u8 = 0xbd;
pub const LDA_ABS_Y: u8 = 0xb9;
pub const LDA_IND_X: u8 = 0xa1;
pub const LDA_IND_Y: u8 = 0xb1;
pub const LDX_IMM: u8 = 0xa2;
pub const LDX_ZP: u8 = 0xa6;
pub const LDX_ZP_Y: u8 = 0xb6;
pub const LDX_ABS: u8 = 0xae;
pub const LDX_ABS_Y: u8 = 0xbe;
pub const LDY_IMM: u8 = 0xa0;
pub const LDY_ZP: u8 = 0xa4;
pub const LDY_ZP_X: u8 = 0xb4;
pub const LDY_ABS: u8 = 0xac;
pub const LDY_ABS_X: u8 = 0xbc;
pub const LSR: u8 = 0x4a;
pub const LSR_ZP: u8 = 0x46;
pub const LSR_ZP_X: u8 = 0x56;
pub const LSR_ABS: u8 = 0x4e;
pub const LSR_ABS_X: u8 = 0x5e;
pub const ORA_IMM: u8 = 0x09;
pub const ORA_ZP: u8 = 0x05;
pub const ORA_ZP_X: u8 = 0x15;
pub const ORA_ABS: u8 = 0x0d;
pub const ORA_ABS_X: u8 = 0x1d;
pub const ORA_ABS_Y: u8 = 0x19;
pub const ORA_IND_X: u8 = 0x01;
pub const ORA_IND_Y: u8 = 0x11;
pub const NOP: u8 = 0xea;
pub const ROL: u8 = 0x2a;
pub const ROL_ZP: u8 = 0x26;
pub const ROL_ZP_X: u8 = 0x36;
pub const ROL_ABS: u8 = 0x2e;
pub const ROL_ABS_X: u8 = 0x3e;
pub const ROR: u8 = 0x6a;
pub const ROR_ZP: u8 = 0x66;
pub const ROR_ZP_X: u8 = 0x76;
pub const ROR_ABS: u8 = 0x6e;
pub const ROR_ABS_X: u8 = 0x7e;
pub const RTI: u8 = 0x40;
pub const STA_ZP: u8 = 0x85;
pub const STA_ZP_X: u8 = 0x95;
pub const STA_ABS: u8 = 0x8d;
pub const STA_ABS_X: u8 = 0x9d;
pub const STA_ABS_Y: u8 = 0x99;
pub const STA_IND_X: u8 = 0x81;
pub const STA_IND_Y: u8 = 0x91;
pub const STY_ZP: u8 = 0x84;
pub const STY_ZP_X: u8 = 0x94;
pub const STY_ABS: u8 = 0x8c;
pub const STX_ZP: u8 = 0x86;
pub const STX_ZP_Y: u8 = 0x96;
pub const STX_ABS: u8 = 0x8e;
pub const TXS: u8 = 0x9a;
pub const TSX: u8 = 0xba;
pub const PHA: u8 = 0x48;
pub const PLA: u8 = 0x68;
pub const PHP: u8 = 0x08;
pub const PLP: u8 = 0x28;
pub const SBC_IMM: u8 = 0xe9;
pub const SBC_ZP: u8 = 0xe5;
pub const SBC_ZP_X: u8 = 0xf5;
pub const SBC_ABS: u8 = 0xed;
pub const SBC_ABS_X: u8 = 0xfd;
pub const SBC_ABS_Y: u8 = 0xf9;
pub const SBC_IND_X: u8 = 0xe1;
pub const SBC_IND_Y: u8 = 0xf1;
pub const TAX: u8 = 0xaa;
pub const TXA: u8 = 0x8a;
pub const DEX: u8 = 0xca;
pub const INX: u8 = 0xe8;
pub const TAY: u8 = 0xa8;
pub const TYA: u8 = 0x98;
pub const DEY: u8 = 0x88;
pub const INY: u8 = 0xc8;
pub const RTS: u8 = 0x60;

/// How an instruction derives its operand location from its encoded bytes
/// and the register file.
#[allow(non_camel_case_types)]
#[derive(Clone, Copy, PartialEq, Eq, Structural, Debug)]
pub enum AddressingType {
    IMMEDIATE,
    ZP,
    ZP_X,
    ZP_Y,
    ABSOLUTE,
    ABSOLUTE_X,
    ABSOLUTE_Y,
    INDIRECT_X,
    INDIRECT_Y,
    REGISTER_A,
    INDIRECT,
    RELATIVE,
    ZPI,
    AIX,
    NONE,
}

/// Instruction length in bytes (1, 2 or 3), total over the opcode space.
pub open spec fn spec_instruction_size(opcode: u8) -> u16 {
    match opcode {
        0x01 | 0x02 | 0x04 | 0x05 | 0x06 | 0x07 | 0x09 | 0x10 | 0x11 | 0x12 | 0x14 | 0x15
        | 0x16 | 0x17 | 0x21 | 0x22 | 0x24 | 0x25 | 0x26 | 0x27 | 0x29 | 0x30 | 0x31 | 0x32
        | 0x34 | 0x35 | 0x36 | 0x37 | 0x41 | 0x42 | 0x44 | 0x45 | 0x46 | 0x47 | 0x49 | 0x50
        | 0x51 | 0x52 | 0x54 | 0x55 | 0x56 | 0x57 | 0x61 | 0x62 | 0x64 | 0x65 | 0x66 | 0x67
        | 0x69 | 0x70 | 0x71 | 0x72 | 0x74 | 0x75 | 0x76 | 0x77 | 0x80 | 0x81 | 0x82 | 0x84
        | 0x85 | 0x86 | 0x87 | 0x89 | 0x90 | 0x91 | 0x92 | 0x94 | 0x95 | 0x96 | 0x97 | 0xa0
        | 0xa1 | 0xa2 | 0xa4 | 0xa5 | 0xa6 | 0xa7 | 0xa9 | 0xb0 | 0xb1 | 0xb2 | 0xb4 | 0xb5
        | 0xb6 | 0xb7 | 0xc0 | 0xc1 | 0xc2 | 0xc4 | 0xc5 | 0xc6 | 0xc7 | 0xc9 | 0xd0 | 0xd1
        | 0xd2 | 0xd4 | 0xd5 | 0xd6 | 0xd7 | 0xe0 | 0xe1 | 0xe2 | 0xe4 | 0xe5 | 0xe6 | 0xe7
        | 0xe9 | 0xf0 | 0xf1 | 0xf2 | 0xf4 | 0xf5 | 0xf6 | 0xf7 => 2,
        0x0c | 0x0d | 0x0e | 0x0f | 0x19 | 0x1c | 0x1d | 0x1e | 0x1f | 0x20 | 0x2c | 0x2d
        | 0x2e | 0x2f | 0x39 | 0x3c | 0x3d | 0x3e | 0x3f | 0x4c | 0x4d | 0x4e | 0x4f | 0x59
        | 0x5c | 0x5d | 0x5e | 0x5f | 0x6c | 0x6d | 0x6e | 0x6f | 0x79 | 0x7c | 0x7d | 0x7e
        | 0x7f | 0x8c | 0x8d | 0x8e | 0x8f | 0x99 | 0x9c | 0x9d | 0x9e | 0x9f | 0xac | 0xad
        | 0xae | 0xaf | 0xb9 | 0xbc | 0xbd | 0xbe | 0xbf | 0xcc | 0xcd | 0xce | 0xcf | 0xd9
        | 0xdc | 0xdd | 0xde | 0xdf | 0xec | 0xed | 0xee | 0xef | 0xf9 | 0xfc | 0xfd | 0xfe
        | 0xff => 3,
        _ => 1,
    }
}

/// Instruction length in bytes (1, 2 or 3), total over the opcode space.
pub fn instruction_size(opcode: u8) -> (r: u16)
    ensures
        r == spec_instruction_size(opcode),
{
    match opcode {
        0x01 | 0x02 | 0x04 | 0x05 | 0x06 | 0x07 | 0x09 | 0x10 | 0x11 | 0x12 | 0x14 | 0x15
        | 0x16 | 0x17 | 0x21 | 0x22 | 0x24 | 0x25 | 0x26 | 0x27 | 0x29 | 0x30 | 0x31 | 0x32
        | 0x34 | 0x35 | 0x36 | 0x37 | 0x41 | 0x42 | 0x44 | 0x45 | 0x46 | 0x47 | 0x49 | 0x50
        | 0x51 | 0x52 | 0x54 | 0x55 | 0x56 | 0x57 | 0x61 | 0x62 | 0x64 | 0x65 | 0x66 | 0x67
        | 0x69 | 0x70 | 0x71 | 0x72 | 0x74 | 0x75 | 0x76 | 0x77 | 0x80 | 0x81 | 0x82 | 0x84
        | 0x85 | 0x86 | 0x87 | 0x89 | 0x90 | 0x91 | 0x92 | 0x94 | 0x95 | 0x96 | 0x97 | 0xa0
        | 0xa1 | 0xa2 | 0xa4 | 0xa5 | 0xa6 | 0xa7 | 0xa9 | 0xb0 | 0xb1 | 0xb2 | 0xb4 | 0xb5
        | 0xb6 | 0xb7 | 0xc0 | 0xc1 | 0xc2 | 0xc4 | 0xc5 | 0xc6 | 0xc7 | 0xc9 | 0xd0 | 0xd1
        | 0xd2 | 0xd4 | 0xd5 | 0xd6 | 0xd7 | 0xe0 | 0xe1 | 0xe2 | 0xe4 | 0xe5 | 0xe6 | 0xe7
        | 0xe9 | 0xf0 | 0xf1 | 0xf2 | 0xf4 | 0xf5 | 0xf6 | 0xf7 => 2,
        0x0c | 0x0d | 0x0e | 0x0f | 0x19 | 0x1c | 0x1d | 0x1e | 0x1f | 0x20 | 0x2c | 0x2d
        | 0x2e | 0x2f | 0x39 | 0x3c | 0x3d | 0x3e | 0x3f | 0x4c | 0x4d | 0x4e | 0x4f | 0x59
        | 0x5c | 0x5d | 0x5e | 0x5f | 0x6c | 0x6d | 0x6e | 0x6f | 0x79 | 0x7c | 0x7d | 0x7e
        | 0x7f | 0x8c | 0x8d | 0x8e | 0x8f | 0x99 | 0x9c | 0x9d | 0x9e | 0x9f | 0xac | 0xad
        | 0xae | 0xaf | 0xb9 | 0xbc | 0xbd | 0xbe | 0xbf | 0xcc | 0xcd | 0xce | 0xcf | 0xd9
        | 0xdc | 0xdd | 0xde | 0xdf | 0xec | 0xed | 0xee | 0xef | 0xf9 | 0xfc | 0xfd | 0xfe
        | 0xff => 3,
        _ => 1,
    }
}

/// Base cycle cost of an instruction, before branch-taken and page-crossing
/// penalties; unimplemented opcodes read as the NOP-equivalent cost of 2.
pub open spec fn spec_base_cycles(opcode: u8) -> u64 {
    match opcode {
        0x05 | 0x08 | 0x24 | 0x25 | 0x45 | 0x48 | 0x4c | 0x65 | 0x84 | 0x85 | 0x86 | 0xa4
        | 0xa5 | 0xa6 | 0xc4 | 0xc5 | 0xe4 | 0xe5 => 3,
        0x0d | 0x15 | 0x19 | 0x1d | 0x28 | 0x2c | 0x2d | 0x35 | 0x39 | 0x3d | 0x4d | 0x55
        | 0x59 | 0x5d | 0x68 | 0x6d | 0x75 | 0x79 | 0x7d | 0x8c | 0x8d | 0x8e | 0x94 | 0x95
        | 0x96 | 0xac | 0xad | 0xae | 0xb4 | 0xb5 | 0xb6 | 0xb9 | 0xbc | 0xbd | 0xbe | 0xcc
        | 0xcd | 0xd5 | 0xd9 | 0xdd | 0xec | 0xed | 0xf5 | 0xf9 | 0xfd => 4,
        0x06 | 0x11 | 0x26 | 0x31 | 0x46 | 0x51 | 0x66 | 0x6c | 0x71 | 0x99 | 0x9d | 0xb1
        | 0xc6 | 0xd1 | 0xe6 | 0xf1 => 5,
        0x01 | 0x0e | 0x16 | 0x20 | 0x21 | 0x2e | 0x36 | 0x40 | 0x41 | 0x4e | 0x56 | 0x60
        | 0x61 | 0x6e | 0x76 | 0x81 | 0x91 | 0xa1 | 0xc1 | 0xce | 0xd6 | 0xe1 | 0xee | 0xf6 => 6,
        0x00 | 0x1e | 0x3e | 0x5e | 0x7e | 0xde | 0xfe => 7,
        _ => 2,
    }
}

/// Base cycle cost of an instruction, before branch-taken and page-crossing
/// penalties; unimplemented opcodes read as the NOP-equivalent cost of 2.
pub fn base_cycles(opcode: u8) -> (r: u64)
    ensures
        r == spec_base_cycles(opcode),
{
    match opcode {
        0x05 | 0x08 | 0x24 | 0x25 | 0x45 | 0x48 | 0x4c | 0x65 | 0x84 | 0x85 | 0x86 | 0xa4
        | 0xa5 | 0xa6 | 0xc4 | 0xc5 | 0xe4 | 0xe5 => 3,
        0x0d | 0x15 | 0x19 | 0x1d | 0x28 | 0x2c | 0x2d | 0x35 | 0x39 | 0x3d | 0x4d | 0x55
        | 0x59 | 0x5d | 0x68 | 0x6d | 0x75 | 0x79 | 0x7d | 0x8c | 0x8d | 0x8e | 0x94 | 0x95
        | 0x96 | 0xac | 0xad | 0xae | 0xb4 | 0xb5 | 0xb6 | 0xb9 | 0xbc | 0xbd | 0xbe | 0xcc
        | 0xcd | 0xd5 | 0xd9 | 0xdd | 0xec | 0xed | 0xf5 | 0xf9 | 0xfd => 4,
        0x06 | 0x11 | 0x26 | 0x31 | 0x46 | 0x51 | 0x66 | 0x6c | 0x71 | 0x99 | 0x9d | 0xb1
        | 0xc6 | 0xd1 | 0xe6 | 0xf1 => 5,
        0x01 | 0x0e | 0x16 | 0x20 | 0x21 | 0x2e | 0x36 | 0x40 | 0x41 | 0x4e | 0x56 | 0x60
        | 0x61 | 0x6e | 0x76 | 0x81 | 0x91 | 0xa1 | 0xc1 | 0xce | 0xd6 | 0xe1 | 0xee | 0xf6 => 6,
        0x00 | 0x1e | 0x3e | 0x5e | 0x7e | 0xde | 0xfe => 7,
        _ => 2,
    }
}

/// Whether the execution engine implements this opcode; fetching an opcode
/// outside this set is a fatal condition that stops a run.
pub open spec fn spec_is_known_opcode(opcode: u8) -> bool {
    match opcode {
        0x00 | 0x01 | 0x05 | 0x06 | 0x08 | 0x09 | 0x0a | 0x0d | 0x0e | 0x10 | 0x11 | 0x15
        | 0x16 | 0x18 | 0x19 | 0x1d | 0x1e | 0x20 | 0x21 | 0x24 | 0x25 | 0x26 | 0x28 | 0x29
        | 0x2a | 0x2c | 0x2d | 0x2e | 0x30 | 0x31 | 0x35 | 0x36 | 0x38 | 0x39 | 0x3d | 0x3e
        | 0x40 | 0x41 | 0x45 | 0x46 | 0x48 | 0x49 | 0x4a | 0x4c | 0x4d | 0x4e | 0x50 | 0x51
        | 0x55 | 0x56 | 0x58 | 0x59 | 0x5d | 0x5e | 0x60 | 0x61 | 0x65 | 0x66 | 0x68 | 0x69
        | 0x6a | 0x6c | 0x6d | 0x6e | 0x70 | 0x71 | 0x75 | 0x76 | 0x78 | 0x79 | 0x7d | 0x7e
        | 0x81 | 0x84 | 0x85 | 0x86 | 0x88 | 0x8a | 0x8c | 0x8d | 0x8e | 0x90 | 0x91 | 0x94
        | 0x95 | 0x96 | 0x98 | 0x99 | 0x9a | 0x9d | 0xa0 | 0xa1 | 0xa2 | 0xa4 | 0xa5 | 0xa6
        | 0xa8 | 0xa9 | 0xaa | 0xac | 0xad | 0xae | 0xb0 | 0xb1 | 0xb4 | 0xb5 | 0xb6 | 0xb8
        | 0xb9 | 0xba | 0xbc | 0xbd | 0xbe | 0xc0 | 0xc1 | 0xc4 | 0xc5 | 0xc6 | 0xc8 | 0xc9
        | 0xca | 0xcc | 0xcd | 0xce | 0xd0 | 0xd1 | 0xd5 | 0xd6 | 0xd8 | 0xd9 | 0xdd | 0xde
        | 0xe0 | 0xe1 | 0xe4 | 0xe5 | 0xe6 | 0xe8 | 0xe9 | 0xea | 0xec | 0xed | 0xee | 0xf0
        | 0xf1 | 0xf5 | 0xf6 | 0xf8 | 0xf9 | 0xfd | 0xfe => true,
        _ => false,
    }
}

/// Whether the execution engine implements this opcode; fetching an opcode
/// outside this set is a fatal condition that stops a run.
pub fn known_opcode(opcode: u8) -> (r: bool)
    ensures
        r == spec_is_known_opcode(opcode),
{
    match opcode {
        0x00 | 0x01 | 0x05 | 0x06 | 0x08 | 0x09 | 0x0a | 0x0d | 0x0e | 0x10 | 0x11 | 0x15
        | 0x16 | 0x18 | 0x19 | 0x1d | 0x1e | 0x20 | 0x21 | 0x24 | 0x25 | 0x26 | 0x28 | 0x29
        | 0x2a | 0x2c | 0x2d | 0x2e | 0x30 | 0x31 | 0x35 | 0x36 | 0x38 | 0x39 | 0x3d | 0x3e
        | 0x40 | 0x41 | 0x45 | 0x46 | 0x48 | 0x49 | 0x4a | 0x4c | 0x4d | 0x4e | 0x50 | 0x51
        | 0x55 | 0x56 | 0x58 | 0x59 | 0x5d | 0x5e | 0x60 | 0x61 | 0x65 | 0x66 | 0x68 | 0x69
        | 0x6a | 0x6c | 0x6d | 0x6e | 0x70 | 0x71 | 0x75 | 0x76 | 0x78 | 0x79 | 0x7d | 0x7e
        | 0x81 | 0x84 | 0x85 | 0x86 | 0x88 | 0x8a | 0x8c | 0x8d | 0x8e | 0x90 | 0x91 | 0x94
        | 0x95 | 0x96 | 0x98 | 0x99 | 0x9a | 0x9d | 0xa0 | 0xa1 | 0xa2 | 0xa4 | 0xa5 | 0xa6
        | 0xa8 | 0xa9 | 0xaa | 0xac | 0xad | 0xae | 0xb0 | 0xb1 | 0xb4 | 0xb5 | 0xb6 | 0xb8
        | 0xb9 | 0xba | 0xbc | 0xbd | 0xbe | 0xc0 | 0xc1 | 0xc4 | 0xc5 | 0xc6 | 0xc8 | 0xc9
        | 0xca | 0xcc | 0xcd | 0xce | 0xd0 | 0xd1 | 0xd5 | 0xd6 | 0xd8 | 0xd9 | 0xdd | 0xde
        | 0xe0 | 0xe1 | 0xe4 | 0xe5 | 0xe6 | 0xe8 | 0xe9 | 0xea | 0xec | 0xed | 0xee | 0xf0
        | 0xf1 | 0xf5 | 0xf6 | 0xf8 | 0xf9 | 0xfd | 0xfe => true,
        _ => false,
    }
}

/// The addressing-mode tag of an opcode, total over the opcode space.
pub open spec fn spec_mode_of(opcode: u8) -> AddressingType {
    match opcode {
        0x0c | 0x0d | 0x0e | 0x1c | 0x20 | 0x2c | 0x2d | 0x2e | 0x4c | 0x4d | 0x4e | 0x6d
        | 0x6e | 0x8c | 0x8d | 0x8e | 0x9c | 0xac | 0xad | 0xae | 0xcc | 0xcd | 0xce | 0xec
        | 0xed | 0xee => AddressingType::ABSOLUTE,
        0x1d | 0x1e | 0x3d | 0x3e | 0x5d | 0x5e | 0x7d | 0x7e | 0x9d | 0x9e | 0xbc | 0xbd
        | 0xdd | 0xde | 0xfd | 0xfe => AddressingType::ABSOLUTE_X,
        0x19 | 0x39 | 0x59 | 0x79 | 0x99 | 0xb9 | 0xbe | 0xd9 | 0xf9 => AddressingType::ABSOLUTE_Y,
        0x7c => AddressingType::AIX,
        0x09 | 0x29 | 0x49 | 0x69 | 0xa0 | 0xa2 | 0xa9 | 0xc0 | 0xc9 | 0xe0 | 0xe9 => AddressingType::IMMEDIATE,
        0x6c => AddressingType::INDIRECT,
        0x01 | 0x21 | 0x41 | 0x61 | 0x81 | 0xa1 | 0xc1 | 0xe1 => AddressingType::INDIRECT_X,
        0x11 | 0x31 | 0x51 | 0x71 | 0x91 | 0xb1 | 0xd1 | 0xf1 => AddressingType::INDIRECT_Y,
        0x0a | 0x2a | 0x4a | 0x6a => AddressingType::REGISTER_A,
        0x0f | 0x10 | 0x1f | 0x2f | 0x30 | 0x3f | 0x4f | 0x50 | 0x5f | 0x6f | 0x70 | 0x7f
        | 0x80 | 0x8f | 0x90 | 0x9f | 0xaf | 0xb0 | 0xbf | 0xcf | 0xd0 | 0xdf | 0xef | 0xf0
        | 0xff => AddressingType::RELATIVE,
        0x04 | 0x05 | 0x06 | 0x07 | 0x14 | 0x17 | 0x24 | 0x25 | 0x26 | 0x27 | 0x37 | 0x45
        | 0x46 | 0x47 | 0x57 | 0x64 | 0x65 | 0x66 | 0x67 | 0x77 | 0x84 | 0x85 | 0x86 | 0x87
        | 0x97 | 0xa4 | 0xa5 | 0xa6 | 0xa7 | 0xb7 | 0xc4 | 0xc5 | 0xc6 | 0xc7 | 0xd7 | 0xe4
        | 0xe5 | 0xe6 | 0xe7 | 0xf7 => AddressingType::ZP,
        0x12 | 0x32 | 0x52 | 0x72 | 0x92 | 0xb2 | 0xd2 | 0xf2 => AddressingType::ZPI,
        0x15 | 0x16 | 0x34 | 0x35 | 0x36 | 0x55 | 0x56 | 0x74 | 0x75 | 0x76 | 0x94 | 0x95
        | 0xb4 | 0xb5 | 0xd5 | 0xd6 | 0xf5 | 0xf6 => AddressingType::ZP_X,
        0x96 | 0xb6 => AddressingType::ZP_Y,
        _ => AddressingType::NONE,
    }
}

/// The addressing-mode tag of an opcode, total over the opcode space.
pub fn mode_of(opcode: u8) -> (r: AddressingType)
    ensures
        r == spec_mode_of(opcode),
{
    match opcode {
        0x0c | 0x0d | 0x0e | 0x1c | 0x20 | 0x2c | 0x2d | 0x2e | 0x4c | 0x4d | 0x4e | 0x6d
        | 0x6e | 0x8c | 0x8d | 0x8e | 0x9c | 0xac | 0xad | 0xae | 0xcc | 0xcd | 0xce | 0xec
        | 0xed | 0xee => AddressingType::ABSOLUTE,
        0x1d | 0x1e | 0x3d | 0x3e | 0x5d | 0x5e | 0x7d | 0x7e | 0x9d | 0x9e | 0xbc | 0xbd
        | 0xdd | 0xde | 0xfd | 0xfe => AddressingType::ABSOLUTE_X,
        0x19 | 0x39 | 0x59 | 0x79 | 0x99 | 0xb9 | 0xbe | 0xd9 | 0xf9 => AddressingType::ABSOLUTE_Y,
        0x7c => AddressingType::AIX,
        0x09 | 0x29 | 0x49 | 0x69 | 0xa0 | 0xa2 | 0xa9 | 0xc0 | 0xc9 | 0xe0 | 0xe9 => AddressingType::IMMEDIATE,
        0x6c => AddressingType::INDIRECT,
        0x01 | 0x21 | 0x41 | 0x61 | 0x81 | 0xa1 | 0xc1 | 0xe1 => AddressingType::INDIRECT_X,
        0x11 | 0x31 | 0x51 | 0x71 | 0x91 | 0xb1 | 0xd1 | 0xf1 => AddressingType::INDIRECT_Y,
        0x0a | 0x2a | 0x4a | 0x6a => AddressingType::REGISTER_A,
        0x0f | 0x10 | 0x1f | 0x2f | 0x30 | 0x3f | 0x4f | 0x50 | 0x5f | 0x6f | 0x70 | 0x7f
        | 0x80 | 0x8f | 0x90 | 0x9f | 0xaf | 0xb0 | 0xbf | 0xcf | 0xd0 | 0xdf | 0xef | 0xf0
        | 0xff => AddressingType::RELATIVE,
        0x04 | 0x05 | 0x06 | 0x07 | 0x14 | 0x17 | 0x24 | 0x25 | 0x26 | 0x27 | 0x37 | 0x45
        | 0x46 | 0x47 | 0x57 | 0x64 | 0x65 | 0x66 | 0x67 | 0x77 | 0x84 | 0x85 | 0x86 | 0x87
        | 0x97 | 0xa4 | 0xa5 | 0xa6 | 0xa7 | 0xb7 | 0xc4 | 0xc5 | 0xc6 | 0xc7 | 0xd7 | 0xe4
        | 0xe5 | 0xe6 | 0xe7 | 0xf7 => AddressingType::ZP,
        0x12 | 0x32 | 0x52 | 0x72 | 0x92 | 0xb2 | 0xd2 | 0xf2 => AddressingType::ZPI,
        0x15 | 0x16 | 0x34 | 0x35 | 0x36 | 0x55 | 0x56 | 0x74 | 0x75 | 0x76 | 0x94 | 0x95
        | 0xb4 | 0xb5 | 0xd5 | 0xd6 | 0xf5 | 0xf6 => AddressingType::ZP_X,
        0x96 | 0xb6 => AddressingType::ZP_Y,
        _ => AddressingType::NONE,
    }
}

/// How many operand bytes an addressing mode encodes after the opcode byte.
pub open spec fn spec_operand_length(mode: AddressingType) -> u16 {
    match mode {
        AddressingType::IMMEDIATE
        | AddressingType::ZP
        | AddressingType::ZP_X
        | AddressingType::ZP_Y
        | AddressingType::INDIRECT_X
        | AddressingType::INDIRECT_Y
        | AddressingType::RELATIVE
        | AddressingType::ZPI => 1,
        AddressingType::ABSOLUTE
        | AddressingType::ABSOLUTE_X
        | AddressingType::ABSOLUTE_Y
        | AddressingType::INDIRECT
        | AddressingType::AIX => 2,
        AddressingType::REGISTER_A | AddressingType::NONE => 0,
    }
}

/// How many operand bytes an addressing mode encodes after the opcode byte.
pub fn operand_length(mode: AddressingType) -> (r: u16)
    ensures
        r == spec_operand_length(mode),
{
    match mode {
        AddressingType::IMMEDIATE
        | AddressingType::ZP
        | AddressingType::ZP_X
        | AddressingType::ZP_Y
        | AddressingType::INDIRECT_X
        | AddressingType::INDIRECT_Y
        | AddressingType::RELATIVE
        | AddressingType::ZPI => 1,
        AddressingType::ABSOLUTE
        | AddressingType::ABSOLUTE_X
        | AddressingType::ABSOLUTE_Y
        | AddressingType::INDIRECT
        | AddressingType::AIX => 2,
        AddressingType::REGISTER_A | AddressingType::NONE => 0,
    }
}

/// The mnemonic of an opcode, total over the opcode space; unimplemented
/// opcodes read as "NOP".
pub open spec fn spec_opcode_name(opcode: u8) -> Seq<char> {
    match opcode {
        0x61 | 0x65 | 0x69 | 0x6d | 0x71 | 0x72 | 0x75 | 0x79 | 0x7d => "ADC"@,
        0x21 | 0x25 | 0x29 | 0x2d | 0x31 | 0x32 | 0x35 | 0x39 | 0x3d => "AND"@,
        0x06 | 0x0a | 0x0e | 0x16 | 0x1e => "ASL"@,
        0x0f => "BBR0"@,
        0x1f => "BBR1"@,
        0x2f => "BBR2"@,
        0x3f => "BBR3"@,
        0x4f => "BBR4"@,
        0x5f => "BBR5"@,
        0x6f => "BBR6"@,
        0x7f => "BBR7"@,
        0x8f => "BBS0"@,
        0x9f => "BBS1"@,
        0xaf => "BBS2"@,
        0xbf => "BBS3"@,
        0xcf => "BBS4"@,
        0xdf => "BBS5"@,
        0xef => "BBS6"@,
        0xff => "BBS7"@,
        0x90 => "BCC"@,
        0xb0 => "BCS"@,
        0xf0 => "BEQ"@,
        0x24 | 0x2c | 0x34 | 0x3c | 0x89 => "BIT"@,
        0x30 => "BMI"@,
        0xd0 => "BNE"@,
        0x10 => "BPL"@,
        0x80 => "BRA"@,
        0x00 => "BRK"@,
        0x50 => "BVC"@,
        0x70 => "BVS"@,
        0x18 => "CLC"@,
        0xd8 => "CLD"@,
        0x58 => "CLI"@,
        0xb8 => "CLV"@,
        0xc1 | 0xc5 | 0xc9 | 0xcd | 0xd1 | 0xd2 | 0xd5 | 0xd9 | 0xdd => "CMP"@,
        0xe0 | 0xe4 | 0xec => "CPX"@,
        0xc0 | 0xc4 | 0xcc => "CPY"@,
        0x3a | 0xc6 | 0xce | 0xd6 | 0xde => "DEC"@,
        0xca => "DEX"@,
        0x88 => "DEY"@,
        0x41 | 0x45 | 0x49 | 0x4d | 0x51 | 0x52 | 0x55 | 0x59 | 0x5d => "EOR"@,
        0x1a | 0xe6 | 0xee | 0xf6 | 0xfe => "INC"@,
        0xe8 => "INX"@,
        0xc8 => "INY"@,
        0x4c | 0x6c | 0x7c => "JMP"@,
        0x20 => "JSR"@,
        0xa1 | 0xa5 | 0xa9 | 0xad | 0xb1 | 0xb2 | 0xb5 | 0xb9 | 0xbd => "LDA"@,
        0xa2 | 0xa6 | 0xae | 0xb6 | 0xbe => "LDX"@,
        0xa0 | 0xa4 | 0xac | 0xb4 | 0xbc => "LDY"@,
        0x46 | 0x4a | 0x4e | 0x56 | 0x5e => "LSR"@,
        0x01 | 0x05 | 0x09 | 0x0d | 0x11 | 0x12 | 0x15 | 0x19 | 0x1d => "ORA"@,
        0x48 => "PHA"@,
        0x08 => "PHP"@,
        0xda => "PHX"@,
        0x5a => "PHY"@,
        0x68 => "PLA"@,
        0x28 => "PLP"@,
        0xfa => "PLX"@,
        0x7a => "PLY"@,
        0x07 => "RMB0"@,
        0x17 => "RMB1"@,
        0x27 => "RMB2"@,
        0x37 => "RMB3"@,
        0x47 => "RMB4"@,
        0x57 => "RMB5"@,
        0x67 => "RMB6"@,
        0x77 => "RMB7"@,
        0x26 | 0x2a | 0x2e | 0x36 | 0x3e => "ROL"@,
        0x66 | 0x6a | 0x6e | 0x76 | 0x7e => "ROR"@,
        0x40 => "RTI"@,
        0x60 => "RTS"@,
        0xe1 | 0xe5 | 0xe9 | 0xed | 0xf1 | 0xf2 | 0xf5 | 0xf9 | 0xfd => "SBC"@,
        0x38 => "SEC"@,
        0xf8 => "SED"@,
        0x78 => "SEI"@,
        0x87 => "SMB0"@,
        0x97 => "SMB1"@,
        0xa7 => "SMB2"@,
        0xb7 => "SMB3"@,
        0xc7 => "SMB4"@,
        0xd7 => "SMB5"@,
        0xe7 => "SMB6"@,
        0xf7 => "SMB7"@,
        0x81 | 0x85 | 0x8d | 0x91 | 0x92 | 0x95 | 0x99 | 0x9d => "STA"@,
        0x86 | 0x8e | 0x96 => "STX"@,
        0x84 | 0x8c | 0x94 => "STY"@,
        0x64 | 0x74 | 0x9c | 0x9e => "STZ"@,
        0xaa => "TAX"@,
        0xa8 => "TAY"@,
        0x14 | 0x1c => "TRB"@,
        0x04 | 0x0c => "TSB"@,
        0xba => "TSX"@,
        0x8a => "TXA"@,
        0x9a => "TXS"@,
        0x98 => "TYA"@,
        _ => "NOP"@,
    }
}

/// The mnemonic of an opcode, total over the opcode space; unimplemented
/// opcodes read as "NOP".
pub fn opcode_name(opcode: u8) -> (r: &'static str)
    ensures
        r@ == spec_opcode_name(opcode),
{
    match opcode {
        0x61 | 0x65 | 0x69 | 0x6d | 0x71 | 0x72 | 0x75 | 0x79 | 0x7d => "ADC",
        0x21 | 0x25 | 0x29 | 0x2d | 0x31 | 0x32 | 0x35 | 0x39 | 0x3d => "AND",
        0x06 | 0x0a | 0x0e | 0x16 | 0x1e => "ASL",
        0x0f => "BBR0",
        0x1f => "BBR1",
        0x2f => "BBR2",
        0x3f => "BBR3",
        0x4f => "BBR4",
        0x5f => "BBR5",
        0x6f => "BBR6",
        0x7f => "BBR7",
        0x8f => "BBS0",
        0x9f => "BBS1",
        0xaf => "BBS2",
        0xbf => "BBS3",
        0xcf => "BBS4",
        0xdf => "BBS5",
        0xef => "BBS6",
        0xff => "BBS7",
        0x90 => "BCC",
        0xb0 => "BCS",
        0xf0 => "BEQ",
        0x24 | 0x2c | 0x34 | 0x3c | 0x89 => "BIT",
        0x30 => "BMI",
        0xd0 => "BNE",
        0x10 => "BPL",
        0x80 => "BRA",
        0x00 => "BRK",
        0x50 => "BVC",
        0x70 => "BVS",
        0x18 => "CLC",
        0xd8 => "CLD",
        0x58 => "CLI",
        0xb8 => "CLV",
        0xc1 | 0xc5 | 0xc9 | 0xcd | 0xd1 | 0xd2 | 0xd5 | 0xd9 | 0xdd => "CMP",
        0xe0 | 0xe4 | 0xec => "CPX",
        0xc0 | 0xc4 | 0xcc => "CPY",
        0x3a | 0xc6 | 0xce | 0xd6 | 0xde => "DEC",
        0xca => "DEX",
        0x88 => "DEY",
        0x41 | 0x45 | 0x49 | 0x4d | 0x51 | 0x52 | 0x55 | 0x59 | 0x5d => "EOR",
        0x1a | 0xe6 | 0xee | 0xf6 | 0xfe => "INC",
        0xe8 => "INX",
        0xc8 => "INY",
        0x4c | 0x6c | 0x7c => "JMP",
        0x20 => "JSR",
        0xa1 | 0xa5 | 0xa9 | 0xad | 0xb1 | 0xb2 | 0xb5 | 0xb9 | 0xbd => "LDA",
        0xa2 | 0xa6 | 0xae | 0xb6 | 0xbe => "LDX",
        0xa0 | 0xa4 | 0xac | 0xb4 | 0xbc => "LDY",
        0x46 | 0x4a | 0x4e | 0x56 | 0x5e => "LSR",
        0x01 | 0x05 | 0x09 | 0x0d | 0x11 | 0x12 | 0x15 | 0x19 | 0x1d => "ORA",
        0x48 => "PHA",
        0x08 => "PHP",
        0xda => "PHX",
        0x5a => "PHY",
        0x68 => "PLA",
        0x28 => "PLP",
        0xfa => "PLX",
        0x7a => "PLY",
        0x07 => "RMB0",
        0x17 => "RMB1",
        0x27 => "RMB2",
        0x37 => "RMB3",
        0x47 => "RMB4",
        0x57 => "RMB5",
        0x67 => "RMB6",
        0x77 => "RMB7",
        0x26 | 0x2a | 0x2e | 0x36 | 0x3e => "ROL",
        0x66 | 0x6a | 0x6e | 0x76 | 0x7e => "ROR",
        0x40 => "RTI",
        0x60 => "RTS",
        0xe1 | 0xe5 | 0xe9 | 0xed | 0xf1 | 0xf2 | 0xf5 | 0xf9 | 0xfd => "SBC",
        0x38 => "SEC",
        0xf8 => "SED",
        0x78 => "SEI",
        0x87 => "SMB0",
        0x97 => "SMB1",
        0xa7 => "SMB2",
        0xb7 => "SMB3",
        0xc7 => "SMB4",
        0xd7 => "SMB5",
        0xe7 => "SMB6",
        0xf7 => "SMB7",
        0x81 | 0x85 | 0x8d | 0x91 | 0x92 | 0x95 | 0x99 | 0x9d => "STA",
        0x86 | 0x8e | 0x96 => "STX",
        0x84 | 0x8c | 0x94 => "STY",
        0x64 | 0x74 | 0x9c | 0x9e => "STZ",
        0xaa => "TAX",
        0xa8 => "TAY",
        0x14 | 0x1c => "TRB",
        0x04 | 0x0c => "TSB",
        0xba => "TSX",
        0x8a => "TXA",
        0x9a => "TXS",
        0x98 => "TYA",
        _ => "NOP",
    }
}

impl AddressingType {
    /// Renders the operand text of this mode as the disassembler prints it:
    /// `byte` is the first operand byte, `word` the decoded operand word
    /// (0 where the instruction has only one operand byte), and `pc` the
    /// instruction's address, from which a `RELATIVE` operand's branch
    /// target is computed. Modes with no operand render as the empty string.
    pub fn to_string(&self, pc: u16, byte: u8, word: u16) -> (r: String)
        ensures
            r@ == spec_operand_text(*self, pc, byte, word),
    {
        match self {
            AddressingType::IMMEDIATE => {
                let mut s = String::from_str("#$");
                s.append(h(byte).as_str());
                s
            },
            AddressingType::ZP => {
                let mut s = String::from_str("$");
                s.append(h(byte).as_str());
                s
            },
            AddressingType::ZP_X => {
                let mut s = String::from_str("$");
                s.append(h(byte).as_str());
                s.append(",X");
                s
            },
            AddressingType::ZP_Y => {
                let mut s = String::from_str("$");
                s.append(h(byte).as_str());
                s.append(",Y");
                s
            },
            AddressingType::ABSOLUTE => {
                let mut s = String::from_str("$");
                s.append(hh(word).as_str());
                s
            },
            AddressingType::ABSOLUTE_X => {
                let mut s = String::from_str("$");
                s.append(hh(word).as_str());
                s.append(",X");
                s
            },
            AddressingType::ABSOLUTE_Y => {
                let mut s = String::from_str("$");
                s.append(hh(word).as_str());
                s.append(",Y");
                s
            },
            AddressingType::INDIRECT_X => {
                let mut s = String::from_str("($");
                s.append(hh(word).as_str());
                s.append(",X)");
                s
            },
            AddressingType::INDIRECT_Y => {
                let mut s = String::from_str("($");
                s.append(hh(word).as_str());
                s.append("),Y");
                s
            },
            AddressingType::INDIRECT => {
                let mut s = String::from_str("($");
                s.append(hh(word).as_str());
                s.append(")");
                s
            },
            AddressingType::RELATIVE => {
                let target: u16 = if byte >= 0x80 {
                    (((2 + pc as u32 + byte as u32) + 0xff00) % 0x10000) as u16
                } else {
                    ((2 + pc as u32 + byte as u32) % 0x10000) as u16
                };
                proof {
                    if byte >= 0x80 {
                        vstd::arithmetic::div_mod::lemma_mod_add_multiples_vanish(
                            2 + pc + byte - 0x100,
                            0x10000,
                        );
                    }
                }
                let mut s = String::from_str("$");
                s.append(hh(target).as_str());
                s
            },
            AddressingType::ZPI | AddressingType::AIX | AddressingType::REGISTER_A
            | AddressingType::NONE => String::new(),
        }
    }

    /// Resolves the effective address of an instruction fetched at `pc`,
    /// reading operand bytes from storage and index registers `x` and `y`.
    /// Modes that carry no address (immediate, accumulator, implied and the
    /// unimplemented ones) resolve to 0.
    pub fn address(&self, memory: &Memory, pc: u16, x: u8, y: u8) -> (r: u16)
        requires
            memory.wf(),
        ensures
            r == spec_address(*self, memory@, pc, x, y),
    {
        let operand_pc = wrap_add16(pc, 1);
        match self {
            AddressingType::ZP => memory.get(operand_pc) as u16,
            AddressingType::ZP_X => memory.get(operand_pc).wrapping_add(x) as u16,
            AddressingType::ZP_Y => memory.get(operand_pc).wrapping_add(y) as u16,
            AddressingType::ABSOLUTE => memory.word(operand_pc),
            AddressingType::ABSOLUTE_X => wrap_add16(memory.word(operand_pc), x as u16),
            AddressingType::ABSOLUTE_Y => wrap_add16(memory.word(operand_pc), y as u16),
            AddressingType::INDIRECT => memory.word(operand_pc),
            AddressingType::INDIRECT_X => memory.word(memory.get(operand_pc).wrapping_add(x) as u16),
            AddressingType::INDIRECT_Y => wrap_add16(memory.word(memory.get(operand_pc) as u16), y as u16),
            AddressingType::IMMEDIATE
            | AddressingType::RELATIVE
            | AddressingType::ZPI
            | AddressingType::REGISTER_A
            | AddressingType::AIX
            | AddressingType::NONE => 0,
        }
    }
}

} // verus!
