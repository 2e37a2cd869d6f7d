//! Hexadecimal text rendering for diagnostics and disassembly.
//!
//! Everything here is presentation: the execution engine never reads these
//! strings back. Each renderer's output is pinned down character by
//! character.

use vstd::prelude::*;
use crate::constants::{spec_instruction_size, spec_opcode_name, AddressingType};
use crate::model::spec_wrap16;

verus! {

/// The uppercase hexadecimal digit for a value below 16.
pub open spec fn spec_hex_digit(d: u8) -> char {
    if d == 0 {
        '0'
    } else if d == 1 {
        '1'
    } else if d == 2 {
        '2'
    } else if d == 3 {
        '3'
    } else if d == 4 {
        '4'
    } else if d == 5 {
        '5'
    } else if d == 6 {
        '6'
    } else if d == 7 {
        '7'
    } else if d == 8 {
        '8'
    } else if d == 9 {
        '9'
    } else if d == 10 {
        'A'
    } else if d == 11 {
        'B'
    } else if d == 12 {
        'C'
    } else if d == 13 {
        'D'
    } else if d == 14 {
        'E'
    } else {
        'F'
    }
}

/// The uppercase hexadecimal digit for a value below 16, as a string slice.
pub fn hex_digit_str(d: u8) -> (r: &'static str)
    requires
        d < 16,
    ensures
        r@ == seq![spec_hex_digit(d)],
{
    proof {
        reveal_strlit("0");
        reveal_strlit("1");
        reveal_strlit("2");
        reveal_strlit("3");
        reveal_strlit("4");
        reveal_strlit("5");
        reveal_strlit("6");
        reveal_strlit("7");
        reveal_strlit("8");
        reveal_strlit("9");
        reveal_strlit("A");
        reveal_strlit("B");
        reveal_strlit("C");
        reveal_strlit("D");
        reveal_strlit("E");
        reveal_strlit("F");
    }
    let r = match d {
        0 => "0",
        1 => "1",
        2 => "2",
        3 => "3",
        4 => "4",
        5 => "5",
        6 => "6",
        7 => "7",
        8 => "8",
        9 => "9",
        10 => "A",
        11 => "B",
        12 => "C",
        13 => "D",
        14 => "E",
        _ => "F",
    };
    proof {
        assert(r@ =~= seq![spec_hex_digit(d)]);
    }
    r
}

/// A byte as exactly two uppercase hexadecimal digits.
pub open spec fn spec_hex2(v: u8) -> Seq<char> {
    seq![spec_hex_digit(v / 16), spec_hex_digit(v % 16)]
}

/// A byte as exactly two uppercase hexadecimal digits.
pub fn h(v: u8) -> (r: String)
    ensures
        r@ == spec_hex2(v),
{
    let mut s = String::from_str(hex_digit_str(v / 16));
    s.append(hex_digit_str(v % 16));
    proof {
        assert(s@ =~= spec_hex2(v));
    }
    s
}

/// A 16-bit value in uppercase hexadecimal with no leading zeroes (one to
/// four digits).
pub open spec fn spec_hex_min(v: u16) -> Seq<char>
    decreases v,
{
    if v < 16 {
        seq![spec_hex_digit(v as u8)]
    } else {
        spec_hex_min(v / 16) + seq![spec_hex_digit((v % 16) as u8)]
    }
}

/// A 16-bit value in uppercase hexadecimal with no leading zeroes (one to
/// four digits).
pub fn hh(v: u16) -> (r: String)
    ensures
        r@ == spec_hex_min(v),
    decreases v,
{
    if v < 16 {
        String::from_str(hex_digit_str(v as u8))
    } else {
        let mut s = hh(v / 16);
        s.append(hex_digit_str((v % 16) as u8));
        s
    }
}

/// A 16-bit value as exactly four uppercase hexadecimal digits.
pub open spec fn spec_hex4(v: u16) -> Seq<char> {
    seq![
        spec_hex_digit((v / 0x1000) as u8),
        spec_hex_digit(((v / 0x100) % 16) as u8),
        spec_hex_digit(((v / 16) % 16) as u8),
        spec_hex_digit((v % 16) as u8),
    ]
}

/// A 16-bit value as exactly four uppercase hexadecimal digits.
pub fn hex4(v: u16) -> (r: String)
    ensures
        r@ == spec_hex4(v),
{
    let mut s = String::from_str(hex_digit_str((v / 0x1000) as u8));
    s.append(hex_digit_str(((v / 0x100) % 16) as u8));
    s.append(hex_digit_str(((v / 16) % 16) as u8));
    s.append(hex_digit_str((v % 16) as u8));
    proof {
        assert(s@ =~= spec_hex4(v));
    }
    s
}

/// A byte in uppercase hexadecimal, space-padded on the left to two
/// columns: one digit below 0x10, two digits otherwise.
pub open spec fn spec_hex2_padded(v: u8) -> Seq<char> {
    if v < 0x10 {
        seq![' ', spec_hex_digit(v)]
    } else {
        spec_hex2(v)
    }
}

/// A byte in uppercase hexadecimal, space-padded on the left to two
/// columns.
pub fn hex2_padded(v: u8) -> (r: String)
    ensures
        r@ == spec_hex2_padded(v),
{
    if v < 0x10 {
        let mut s = String::from_str(" ");
        s.append(hex_digit_str(v));
        proof {
            reveal_strlit(" ");
            assert(s@ =~= spec_hex2_padded(v));
        }
        s
    } else {
        h(v)
    }
}

/// The rendered stack window entries from page-one offset `hi` down to
/// `lo`, each as ` II=VV` (offset and byte, two hex digits each, preceded by
/// one space); empty when `hi < lo`.
pub open spec fn spec_stack_entries(mem: Seq<u8>, hi: int, lo: int) -> Seq<char>
    decreases hi - lo + 1,
{
    if hi < lo {
        Seq::empty()
    } else {
        " "@ + spec_hex2(hi as u8) + "="@ + spec_hex2(mem[0x100 + hi]) + spec_stack_entries(
            mem,
            hi - 1,
            lo,
        )
    }
}

/// Peeling the last (lowest) entry off a rendered stack window: the window
/// down to `lo` is the window down to `lo + 1` followed by `lo`'s entry.
pub proof fn lemma_stack_entries_snoc(mem: Seq<u8>, hi: int, lo: int)
    requires
        lo <= hi,
    ensures
        spec_stack_entries(mem, hi, lo) == spec_stack_entries(mem, hi, lo + 1) + (" "@
            + spec_hex2(lo as u8) + "="@ + spec_hex2(mem[0x100 + lo])),
    decreases hi - lo,
{
    reveal_with_fuel(spec_stack_entries, 2);
    let entry = " "@ + spec_hex2(lo as u8) + "="@ + spec_hex2(mem[0x100 + lo]);
    if hi == lo {
        assert(spec_stack_entries(mem, hi, lo) =~= spec_stack_entries(mem, hi, lo + 1) + entry);
    } else {
        lemma_stack_entries_snoc(mem, hi - 1, lo);
        assert(spec_stack_entries(mem, hi, lo) =~= spec_stack_entries(mem, hi, lo + 1) + entry);
    }
}

/// The rendered stack: the stack pointer, then the page-one bytes above it,
/// from offset 0xFF down to just above the pointer, showing at most the top
/// eight slots (never below offset 0xF8); nothing when the pointer sits at
/// 0xFF (an empty stack).
pub open spec fn spec_format_stack(mem: Seq<u8>, sp: u8) -> Seq<char> {
    let down: int = if sp + 1 >= 0xf8 { sp + 1 } else { 0xf8 };
    "SP={$"@ + spec_hex2_padded(sp) + " stack:["@ + (if sp < 0xff {
        spec_stack_entries(mem, 0xff, down)
    } else {
        Seq::empty()
    }) + " ]}}"@
}

/// The operand text of an addressing mode, as the disassembler prints it:
/// `byte` is the first operand byte, `word` the operand word where one was
/// decoded (the disassembler passes 0 for one-operand-byte instructions).
/// A `RELATIVE` operand prints as its branch target, taking the displacement
/// from `pc`, the instruction's address; modes with no operand print
/// nothing.
pub open spec fn spec_operand_text(
    mode: AddressingType,
    pc: u16,
    byte: u8,
    word: u16,
) -> Seq<char> {
    match mode {
        AddressingType::IMMEDIATE => "#$"@ + spec_hex2(byte),
        AddressingType::ZP => "$"@ + spec_hex2(byte),
        AddressingType::ZP_X => "$"@ + spec_hex2(byte) + ",X"@,
        AddressingType::ZP_Y => "$"@ + spec_hex2(byte) + ",Y"@,
        AddressingType::ABSOLUTE => "$"@ + spec_hex_min(word),
        AddressingType::ABSOLUTE_X => "$"@ + spec_hex_min(word) + ",X"@,
        AddressingType::ABSOLUTE_Y => "$"@ + spec_hex_min(word) + ",Y"@,
        AddressingType::INDIRECT_X => "($"@ + spec_hex_min(word) + ",X)"@,
        AddressingType::INDIRECT_Y => "($"@ + spec_hex_min(word) + "),Y"@,
        AddressingType::INDIRECT => "($"@ + spec_hex_min(word) + ")"@,
        AddressingType::RELATIVE => "$"@ + spec_hex_min(
            spec_wrap16(2 + pc + byte - (if byte >= 0x80 { 0x100int } else { 0int })),
        ),
        AddressingType::ZPI | AddressingType::AIX | AddressingType::REGISTER_A
        | AddressingType::NONE => Seq::empty(),
    }
}

/// One disassembled line: the address as four hex digits, the one to three
/// instruction bytes as two hex digits each padded to a fixed-width column,
/// the mnemonic, and the operand text (preceded by one space when the
/// instruction has operand bytes).
pub open spec fn spec_disasm_line(mode: AddressingType, index: u16, bytes: Seq<u8>) -> Seq<char> {
    let head = spec_hex4(index) + ": "@;
    if bytes.len() == 1 {
        head + spec_hex2(bytes[0]) + "         "@ + spec_opcode_name(bytes[0])
    } else if bytes.len() == 2 {
        head + spec_hex2(bytes[0]) + " "@ + spec_hex2(bytes[1]) + "      "@ + spec_opcode_name(
            bytes[0],
        ) + " "@ + spec_operand_text(mode, index, bytes[1], 0)
    } else {
        head + spec_hex2(bytes[0]) + " "@ + spec_hex2(bytes[1]) + " "@ + spec_hex2(bytes[2])
            + "   "@ + spec_opcode_name(bytes[0]) + " "@ + spec_operand_text(
            mode,
            index,
            bytes[1],
            (bytes[1] + bytes[2] * 0x100) as u16,
        )
    }
}

/// The one to three bytes of the instruction at `index`: the opcode byte
/// followed by its operand bytes, as many as the opcode's declared length
/// says; operand addresses wrap around the top of the address space.
pub open spec fn spec_instr_bytes(mem: Seq<u8>, index: u16) -> Seq<u8> {
    let op = mem[index as int];
    let size = spec_instruction_size(op);
    if size == 1 {
        seq![op]
    } else if size == 2 {
        seq![op, mem[spec_wrap16(index + 1) as int]]
    } else {
        seq![op, mem[spec_wrap16(index + 1) as int], mem[spec_wrap16(index + 2) as int]]
    }
}

/// The reason string a run stops with when it fetches an opcode the engine
/// does not implement.
pub open spec fn spec_unknown_opcode_message(opcode: u8, pc: u16) -> Seq<char> {
    "unknown opcode $"@ + spec_hex2(opcode) + " at $"@ + spec_hex4(pc)
}

/// The reason string a run stops with when it fetches an opcode the engine
/// does not implement.
pub fn unknown_opcode_message(opcode: u8, pc: u16) -> (r: String)
    ensures
        r@ == spec_unknown_opcode_message(opcode, pc),
{
    let mut s = String::from_str("unknown opcode $");
    s.append(h(opcode).as_str());
    s.append(" at $");
    s.append(hex4(pc).as_str());
    proof {
        assert(s@ =~= spec_unknown_opcode_message(opcode, pc));
    }
    s
}

} // verus!
