//! The pure mathematical model of the machine.
//!
//! `MachineState` is the view of the processor: registers, flags, stack
//! pointer and the byte contents of storage. `spec_step` maps a state to the
//! state after one retired instruction together with that instruction's cycle
//! cost; the execution engine is proved to follow it exactly.

use vstd::prelude::*;
use crate::constants::{
    spec_base_cycles, spec_instruction_size, spec_is_known_opcode, spec_mode_of,
    spec_operand_length, AddressingType,
};
use crate::cpu::{spec_flags_from_byte, spec_flags_value, spec_nz, StatusFlags};

verus! {

/// Registers, flags, stack pointer and storage contents: everything one
/// retired instruction can observe or change (the cycle counter is accounted
/// separately by the run loop).
#[verifier::ext_equal]
pub struct MachineState {
    pub a: u8,
    pub x: u8,
    pub y: u8,
    pub pc: u16,
    pub p: StatusFlags,
    pub sp: u8,
    pub mem: Seq<u8>,
}

impl MachineState {
    /// The model covers the full 16-bit address space.
    pub open spec fn wf(self) -> bool {
        self.mem.len() == 0x10000
    }

    /// The state after pushing one byte: the byte lands at the stack
    /// pointer's page-one slot and the pointer decrements, wrapping.
    pub open spec fn push_byte(self, v: u8) -> MachineState {
        MachineState {
            mem: self.mem.update(0x100 + self.sp as int, v),
            sp: spec_sp_dec(self.sp),
            ..self
        }
    }

    /// The state after pushing a word, high byte first.
    pub open spec fn push_word(self, w: u16) -> MachineState {
        self.push_byte((w / 0x100) as u8).push_byte((w % 0x100) as u8)
    }

    /// The byte a pop would return: the slot above the stack pointer.
    pub open spec fn popped_byte(self) -> u8 {
        self.mem[0x100 + spec_sp_inc(self.sp) as int]
    }

    /// The state after popping one byte (only the pointer moves).
    pub open spec fn after_pop_byte(self) -> MachineState {
        MachineState { sp: spec_sp_inc(self.sp), ..self }
    }

    /// The word two pops would return: low byte first, then high byte.
    pub open spec fn popped_word(self) -> u16 {
        (self.popped_byte() + self.after_pop_byte().popped_byte() * 0x100) as u16
    }

    /// The state after popping a word.
    pub open spec fn after_pop_word(self) -> MachineState {
        self.after_pop_byte().after_pop_byte()
    }

    /// The accumulator loaded with `v`, N and Z following it.
    pub open spec fn load_a(self, v: u8) -> MachineState {
        MachineState { a: v, p: spec_nz(self.p, v), ..self }
    }

    /// Index X loaded with `v`, N and Z following it.
    pub open spec fn load_x(self, v: u8) -> MachineState {
        MachineState { x: v, p: spec_nz(self.p, v), ..self }
    }

    /// Index Y loaded with `v`, N and Z following it.
    pub open spec fn load_y(self, v: u8) -> MachineState {
        MachineState { y: v, p: spec_nz(self.p, v), ..self }
    }

    /// One byte of storage overwritten, nothing else touched.
    pub open spec fn store(self, addr: u16, v: u8) -> MachineState {
        MachineState { mem: self.mem.update(addr as int, v), ..self }
    }
}

/// 8-bit increment with wraparound (`0xff` rolls to `0`); never an overflow.
pub open spec fn spec_inc8(v: u8) -> u8 {
    if v == 0xff { 0 } else { (v + 1) as u8 }
}

/// 8-bit decrement with wraparound (`0` rolls to `0xff`).
pub open spec fn spec_dec8(v: u8) -> u8 {
    if v == 0 { 0xff } else { (v - 1) as u8 }
}

/// Binary add with carry-in: the 8-bit result, the carry out of bit 7 (bit 8
/// of the 9-bit sum), and signed overflow — the operands' signs agree but the
/// result's sign differs.
pub open spec fn spec_add_binary(a: u8, v: u8, cin: bool) -> (u8, bool, bool) {
    let sum = a + v + (if cin { 1int } else { 0int });
    let result = spec_wrap8(sum);
    let carry = sum >= 0x100;
    let overflow = ((a >= 0x80) == (v >= 0x80)) && ((result >= 0x80) != (a >= 0x80));
    (result, carry, overflow)
}

/// Decimal (BCD) add with carry-in: each nibble is corrected by +6 when its
/// digit sum exceeds 9; the returned carry says whether the corrected high
/// nibble exceeded 15.
pub open spec fn spec_adc_decimal(a: u8, v: u8, cin: bool) -> (u8, bool) {
    let l0 = (a % 16) + (v % 16) + (if cin { 1int } else { 0int });
    let l = if l0 > 9 { l0 + 6 } else { l0 };
    let h0 = (a / 16) + (v / 16) + (if l > 15 { 1int } else { 0int });
    let h = if h0 > 9 { h0 + 6 } else { h0 };
    let result = ((l % 16) + (h % 16) * 16) as u8;
    (result, h > 15)
}

/// Decimal (BCD) subtract with borrow: the mirrored correction — 6 is taken
/// from a nibble that borrowed, and the borrow propagates into the next
/// nibble; the returned carry is the complement of the high-nibble borrow.
pub open spec fn spec_sbc_decimal(a: u8, v: u8, cin: bool) -> (u8, bool) {
    let l0 = (a % 16) - (v % 16) - (if cin { 0int } else { 1int });
    let lb = l0 < 0;
    let l = if lb { l0 - 6 } else { l0 };
    let h0 = (a / 16) - (v / 16) - (if lb { 1int } else { 0int });
    let hb = h0 < 0;
    let h = if hb { h0 - 6 } else { h0 };
    let result = ((l % 16) + (h % 16) * 16) as u8;
    (result, !hb)
}

/// Arithmetic shift left: bit 7 goes to carry, bit 0 fills with 0.
pub open spec fn spec_asl(v: u8) -> (u8, bool) {
    (((v % 0x80) * 2) as u8, v >= 0x80)
}

/// Logical shift right: bit 0 goes to carry, bit 7 fills with 0.
pub open spec fn spec_lsr(v: u8) -> (u8, bool) {
    ((v / 2) as u8, v % 2 == 1)
}

/// Rotate left through carry: bit 7 goes to carry, carry-in fills bit 0.
pub open spec fn spec_rol(v: u8, cin: bool) -> (u8, bool) {
    (((v % 0x80) * 2 + (if cin { 1int } else { 0int })) as u8, v >= 0x80)
}

/// Rotate right through carry: bit 0 goes to carry, carry-in fills bit 7.
pub open spec fn spec_ror(v: u8, cin: bool) -> (u8, bool) {
    ((v / 2 + (if cin { 0x80int } else { 0int })) as u8, v % 2 == 1)
}

/// Compare: Carry iff `register >= value` (unsigned), Zero iff equal,
/// Negative from bit 7 of the 8-bit difference; the register is not touched.
pub open spec fn spec_compare(p: StatusFlags, register: u8, value: u8) -> StatusFlags {
    StatusFlags {
        c: register >= value,
        z: register == value,
        n: spec_wrap8(register - value) >= 0x80,
        ..p
    }
}

/// The accumulator after add-with-carry on `v`: decimal correction when the
/// Decimal flag is set (Overflow then reads 0 by convention), plain binary
/// addition otherwise; N and Z follow the result byte in both modes.
pub open spec fn spec_adc(s: MachineState, v: u8) -> MachineState {
    if s.p.d {
        let (r, c) = spec_adc_decimal(s.a, v, s.p.c);
        MachineState {
            a: r,
            p: StatusFlags { c: c, z: r == 0, v: false, n: r >= 0x80, ..s.p },
            ..s
        }
    } else {
        spec_add(s, v)
    }
}

/// The accumulator after a binary add-with-carry on `v`, with Carry,
/// Overflow, N and Z all rewritten.
pub open spec fn spec_add(s: MachineState, v: u8) -> MachineState {
    let (r, c, vf) = spec_add_binary(s.a, v, s.p.c);
    MachineState {
        a: r,
        p: StatusFlags { c: c, v: vf, z: r == 0, n: r >= 0x80, ..s.p },
        ..s
    }
}

/// The accumulator after subtract-with-borrow on `v`: decimal mirrored
/// correction when the Decimal flag is set (Overflow reads 0), and in binary
/// mode the two's-complement identity `add(v XOR 0xFF)`.
pub open spec fn spec_sbc(s: MachineState, v: u8) -> MachineState {
    if s.p.d {
        let (r, c) = spec_sbc_decimal(s.a, v, s.p.c);
        MachineState {
            a: r,
            p: StatusFlags { c: c, z: r == 0, v: false, n: r >= 0x80, ..s.p },
            ..s
        }
    } else {
        spec_add(s, (v ^ 0xff) as u8)
    }
}

/// Whether two addresses lie on different 256-byte pages.
pub open spec fn spec_page_crossed(a: u16, b: u16) -> bool {
    a / 0x100 != b / 0x100
}

/// A branch displacement applied to the already-advanced program counter:
/// operand values at or above 0x80 displace backwards.
pub open spec fn spec_branch_target(pc: u16, byte: u8) -> u16 {
    spec_wrap16(pc + byte - (if byte >= 0x80 { 0x100int } else { 0int }))
}

/// A conditional branch, given the address the instruction was fetched from:
/// not taken costs nothing and changes nothing; taken costs one extra cycle,
/// moves the program counter by the signed displacement, and costs one more
/// cycle when the target's page differs from the instruction's page.
pub open spec fn spec_branch(s: MachineState, fetch_pc: u16, byte: u8, condition: bool) -> (
    MachineState,
    int,
) {
    if condition {
        let target = spec_branch_target(s.pc, byte);
        let crossed: int = if spec_page_crossed(fetch_pc, target) { 1 } else { 0 };
        (MachineState { pc: target, ..s }, 1 + crossed)
    } else {
        (s, 0)
    }
}

/// Flags after a shift or rotate: Carry takes the bit shifted out, N and Z
/// follow the result byte.
pub open spec fn spec_shift_p(p: StatusFlags, r: u8, c: bool) -> StatusFlags {
    StatusFlags { c: c, z: r == 0, n: r >= 0x80, ..p }
}

/// The extra cycle an indexed read costs when the index addition crossed a
/// page: measured on the pointer-plus-Y add for `INDIRECT_Y` and on the
/// word-plus-index add for `ABSOLUTE_X`/`ABSOLUTE_Y`; other modes cost
/// nothing extra.
pub open spec fn spec_index_penalty(
    mem: Seq<u8>,
    fetch_pc: u16,
    mode: AddressingType,
    addr: u16,
) -> int {
    let operand_pc = spec_wrap16(fetch_pc + 1);
    match mode {
        AddressingType::INDIRECT_Y => if spec_page_crossed(
            spec_word(mem, mem[operand_pc as int] as u16),
            addr,
        ) {
            1
        } else {
            0
        },
        AddressingType::ABSOLUTE_X | AddressingType::ABSOLUTE_Y => if spec_page_crossed(
            spec_word(mem, operand_pc),
            addr,
        ) {
            1
        } else {
            0
        },
        _ => 0,
    }
}

/// Interrupt entry: pushes the word after the current program counter, then
/// the status byte with the Break flag forced to `brk`, sets
/// Interrupt-disable, and loads the program counter from the little-endian
/// vector at (`vector_low`, `vector_high`).
pub open spec fn spec_interrupt(
    s: MachineState,
    brk: bool,
    vector_high: u16,
    vector_low: u16,
) -> MachineState {
    let p1 = StatusFlags { b: brk, ..s.p };
    let s1 = MachineState { p: p1, ..s };
    let s2 = s1.push_word(spec_wrap16(s.pc + 1));
    let s3 = s2.push_byte(spec_flags_value(p1));
    let p2 = StatusFlags { i: true, ..p1 };
    let new_pc = (s3.mem[vector_high as int] * 0x100 + s3.mem[vector_low as int]) as u16;
    MachineState { p: p2, pc: new_pc, ..s3 }
}

/// Truncation to the 16-bit address space.
pub open spec fn spec_wrap16(n: int) -> u16 {
    (n % 0x10000) as u16
}

/// Truncation to 8 bits.
pub open spec fn spec_wrap8(n: int) -> u8 {
    (n % 0x100) as u8
}

/// Little-endian 16-bit word at `address`; the high byte's address wraps
/// around the top of the address space.
pub open spec fn spec_word(mem: Seq<u8>, address: u16) -> u16 {
    (mem[address as int] + mem[spec_wrap16(address + 1) as int] * 0x100) as u16
}

/// Stack-pointer increment, wrapping modulo 256.
pub open spec fn spec_sp_inc(sp: u8) -> u8 {
    if sp == 0xff { 0 } else { (sp + 1) as u8 }
}

/// Stack-pointer decrement, wrapping modulo 256.
pub open spec fn spec_sp_dec(sp: u8) -> u8 {
    if sp == 0 { 0xff } else { (sp - 1) as u8 }
}

/// 16-bit addition that wraps modulo the address space.
pub fn wrap_add16(a: u16, b: u16) -> (r: u16)
    ensures
        r == spec_wrap16(a + b),
{
    (((a as u32) + (b as u32)) % 0x10000) as u16
}

/// The effective address an addressing mode resolves to, given the operand
/// byte(s) of the instruction fetched at `pc` and the index registers.
///
/// - `ZP`: the operand byte itself (an address in page 0).
/// - `ZP_X`/`ZP_Y`: operand byte plus X or Y, wrapping within page 0.
/// - `ABSOLUTE`: the 16-bit operand word, read little-endian.
/// - `ABSOLUTE_X`/`ABSOLUTE_Y`: operand word plus X or Y, a 16-bit add that
///   may cross a page.
/// - `INDIRECT_X`: a 16-bit pointer read from page 0 at operand-plus-X
///   (wrapped to 8 bits), dereferenced.
/// - `INDIRECT_Y`: a 16-bit pointer read from page 0 at the operand byte,
///   plus Y; this 16-bit add is where page crossing is measured.
/// - `INDIRECT`: the operand word is itself the location of the target word.
/// - The remaining modes carry no address and resolve to 0; `RELATIVE`'s
///   operand is a displacement, consumed by the branch logic instead.
pub open spec fn spec_address(mode: AddressingType, mem: Seq<u8>, pc: u16, x: u8, y: u8) -> u16 {
    let operand_pc = spec_wrap16(pc + 1);
    match mode {
        AddressingType::ZP => mem[operand_pc as int] as u16,
        AddressingType::ZP_X => spec_wrap8(mem[operand_pc as int] + x) as u16,
        AddressingType::ZP_Y => spec_wrap8(mem[operand_pc as int] + y) as u16,
        AddressingType::ABSOLUTE => spec_word(mem, operand_pc),
        AddressingType::ABSOLUTE_X => spec_wrap16(spec_word(mem, operand_pc) + x),
        AddressingType::ABSOLUTE_Y => spec_wrap16(spec_word(mem, operand_pc) + y),
        AddressingType::INDIRECT => spec_word(mem, operand_pc),
        AddressingType::INDIRECT_X => spec_word(
            mem,
            spec_wrap8(mem[operand_pc as int] + x) as u16,
        ),
        AddressingType::INDIRECT_Y => spec_wrap16(
            spec_word(mem, mem[operand_pc as int] as u16) + y,
        ),
        AddressingType::IMMEDIATE
        | AddressingType::RELATIVE
        | AddressingType::ZPI
        | AddressingType::REGISTER_A
        | AddressingType::AIX
        | AddressingType::NONE => 0,
    }
}

/// The meaning of one instruction, dispatched on the opcode byte at
/// `fetch_pc`: the machine state afterwards and the instruction's cycle
/// cost (base cost plus branch-taken and page-crossing penalties).
///
/// `s` is the state with the program counter already advanced past the
/// instruction, as the execution engine maintains it during dispatch;
/// `fetch_pc` is where the opcode itself was fetched, so operand bytes live
/// at `fetch_pc + 1` and `fetch_pc + 2`. Opcodes outside the implemented set
/// leave the state unchanged at their base cost; the engine never dispatches
/// them (see `spec_step`).
#[verifier::opaque]
pub open spec fn spec_exec_instr(s: MachineState, fetch_pc: u16) -> (MachineState, int) {
    let op = s.mem[fetch_pc as int];
    let mode = spec_mode_of(op);
    let addr = spec_address(mode, s.mem, fetch_pc, s.x, s.y);
    let imm = s.mem[spec_wrap16(fetch_pc + 1) as int];
    let m = s.mem[addr as int];
    let base = spec_base_cycles(op) as int;
    let pen = spec_index_penalty(s.mem, fetch_pc, mode, addr);
    match op {
        // ADC
        0x69 => (spec_adc(s, imm), base),
        0x65 | 0x75 | 0x6d | 0x7d | 0x79 | 0x61 | 0x71 => (spec_adc(s, m), base + pen),
        // AND
        0x29 => (s.load_a(s.a & imm), base),
        0x25 | 0x35 | 0x2d | 0x3d | 0x39 | 0x21 | 0x31 => (s.load_a(s.a & m), base + pen),
        // ASL
        0x0a => {
            let (r, c) = spec_asl(s.a);
            (MachineState { a: r, p: spec_shift_p(s.p, r, c), ..s }, base)
        },
        0x06 | 0x16 | 0x0e | 0x1e => {
            let (r, c) = spec_asl(m);
            (MachineState { p: spec_shift_p(s.p, r, c), mem: s.mem.update(addr as int, r), ..s }, base)
        },
        // BIT
        0x24 | 0x2c => (
            MachineState {
                p: StatusFlags { z: m & s.a == 0, n: m & 0x80 != 0, v: m & 0x40 != 0, ..s.p },
                ..s
            },
            base,
        ),
        // BPL, BMI, BNE, BEQ, BCC, BCS, BVC, BVS
        0x10 => {
            let (s2, extra) = spec_branch(s, fetch_pc, imm, !s.p.n);
            (s2, base + extra)
        },
        0x30 => {
            let (s2, extra) = spec_branch(s, fetch_pc, imm, s.p.n);
            (s2, base + extra)
        },
        0xd0 => {
            let (s2, extra) = spec_branch(s, fetch_pc, imm, !s.p.z);
            (s2, base + extra)
        },
        0xf0 => {
            let (s2, extra) = spec_branch(s, fetch_pc, imm, s.p.z);
            (s2, base + extra)
        },
        0x90 => {
            let (s2, extra) = spec_branch(s, fetch_pc, imm, !s.p.c);
            (s2, base + extra)
        },
        0xb0 => {
            let (s2, extra) = spec_branch(s, fetch_pc, imm, s.p.c);
            (s2, base + extra)
        },
        0x50 => {
            let (s2, extra) = spec_branch(s, fetch_pc, imm, !s.p.v);
            (s2, base + extra)
        },
        0x70 => {
            let (s2, extra) = spec_branch(s, fetch_pc, imm, s.p.v);
            (s2, base + extra)
        },
        // BRK
        0x00 => (spec_interrupt(s, true, 0xffff, 0xfffe), base),
        // CMP
        0xc9 => (MachineState { p: spec_compare(s.p, s.a, imm), ..s }, base),
        0xc5 | 0xd5 | 0xcd | 0xdd | 0xd9 | 0xc1 | 0xd1 => (
            MachineState { p: spec_compare(s.p, s.a, m), ..s },
            base,
        ),
        // CPX
        0xe0 => (MachineState { p: spec_compare(s.p, s.x, imm), ..s }, base),
        0xe4 | 0xec => (MachineState { p: spec_compare(s.p, s.x, m), ..s }, base),
        // CPY
        0xc0 => (MachineState { p: spec_compare(s.p, s.y, imm), ..s }, base),
        0xc4 | 0xcc => (MachineState { p: spec_compare(s.p, s.y, m), ..s }, base),
        // DEC
        0xc6 | 0xd6 | 0xce | 0xde => {
            let nv = spec_dec8(m);
            (MachineState { mem: s.mem.update(addr as int, nv), p: spec_nz(s.p, nv), ..s }, base)
        },
        // EOR
        0x49 => (s.load_a(s.a ^ imm), base),
        0x45 | 0x55 | 0x4d | 0x5d | 0x59 | 0x51 | 0x41 => (s.load_a(s.a ^ m), base),
        // CLC, SEC, CLI, SEI, CLD, SED, CLV
        0x18 => (MachineState { p: StatusFlags { c: false, ..s.p }, ..s }, base),
        0x38 => (MachineState { p: StatusFlags { c: true, ..s.p }, ..s }, base),
        0x58 => (MachineState { p: StatusFlags { i: false, ..s.p }, ..s }, base),
        0x78 => (MachineState { p: StatusFlags { i: true, ..s.p }, ..s }, base),
        0xd8 => (MachineState { p: StatusFlags { d: false, ..s.p }, ..s }, base),
        0xf8 => (MachineState { p: StatusFlags { d: true, ..s.p }, ..s }, base),
        0xb8 => (MachineState { p: StatusFlags { v: false, ..s.p }, ..s }, base),
        // INC
        0xe6 | 0xf6 | 0xee | 0xfe => {
            let nv = spec_inc8(m);
            (MachineState { mem: s.mem.update(addr as int, nv), p: spec_nz(s.p, nv), ..s }, base)
        },
        // JMP
        0x4c => (MachineState { pc: spec_word(s.mem, spec_wrap16(fetch_pc + 1)), ..s }, base),
        0x6c => (MachineState { pc: spec_word(s.mem, addr), ..s }, base),
        // JSR
        0x20 => {
            let s1 = s.push_word(spec_wrap16(fetch_pc + 2));
            (MachineState { pc: spec_word(s1.mem, spec_wrap16(fetch_pc + 1)), ..s1 }, base)
        },
        // LDA
        0xa9 => (s.load_a(imm), base),
        0xa5 | 0xb5 | 0xad | 0xbd | 0xb9 | 0xa1 | 0xb1 => (s.load_a(m), base),
        // LDX
        0xa2 => (s.load_x(imm), base),
        0xa6 | 0xb6 | 0xae | 0xbe => (s.load_x(m), base),
        // LDY
        0xa0 => (s.load_y(imm), base),
        0xa4 | 0xb4 | 0xac | 0xbc => (s.load_y(m), base),
        // LSR
        0x4a => {
            let (r, c) = spec_lsr(s.a);
            (MachineState { a: r, p: spec_shift_p(s.p, r, c), ..s }, base)
        },
        0x46 | 0x56 | 0x4e | 0x5e => {
            let (r, c) = spec_lsr(m);
            (MachineState { p: spec_shift_p(s.p, r, c), mem: s.mem.update(addr as int, r), ..s }, base)
        },
        // NOP
        0xea => (s, base),
        // ORA
        0x09 => (s.load_a(s.a | imm), base),
        0x05 | 0x15 | 0x0d | 0x1d | 0x19 | 0x01 | 0x11 => (s.load_a(s.a | m), base),
        // TAX, TXA, TAY, TYA
        0xaa => (s.load_x(s.a), base),
        0x8a => (s.load_a(s.x), base),
        0xa8 => (s.load_y(s.a), base),
        0x98 => (s.load_a(s.y), base),
        // DEX, INX, DEY, INY
        0xca => (s.load_x(spec_dec8(s.x)), base),
        0xe8 => (s.load_x(spec_inc8(s.x)), base),
        0x88 => (s.load_y(spec_dec8(s.y)), base),
        0xc8 => (s.load_y(spec_inc8(s.y)), base),
        // ROL
        0x2a => {
            let (r, c) = spec_rol(s.a, s.p.c);
            (MachineState { a: r, p: spec_shift_p(s.p, r, c), ..s }, base)
        },
        0x26 | 0x36 | 0x2e | 0x3e => {
            let (r, c) = spec_rol(m, s.p.c);
            (MachineState { p: spec_shift_p(s.p, r, c), mem: s.mem.update(addr as int, r), ..s }, base)
        },
        // ROR
        0x6a => {
            let (r, c) = spec_ror(s.a, s.p.c);
            (MachineState { a: r, p: spec_shift_p(s.p, r, c), ..s }, base)
        },
        0x66 | 0x76 | 0x6e | 0x7e => {
            let (r, c) = spec_ror(m, s.p.c);
            (MachineState { p: spec_shift_p(s.p, r, c), mem: s.mem.update(addr as int, r), ..s }, base)
        },
        // RTI: the status byte is pulled first, then the return address,
        // which is not adjusted (unlike RTS)
        0x40 => {
            let p1 = spec_flags_from_byte(s.popped_byte());
            let s1 = s.after_pop_byte();
            (MachineState { p: p1, pc: s1.popped_word(), ..s1.after_pop_word() }, base)
        },
        // RTS: the popped word is the address JSR pushed, one before the
        // return target
        0x60 => (
            MachineState { pc: spec_wrap16(s.popped_word() + 1), ..s.after_pop_word() },
            base,
        ),
        // SBC
        0xe9 => (spec_sbc(s, imm), base),
        0xe5 | 0xf5 | 0xed | 0xfd | 0xf9 | 0xe1 | 0xf1 => (spec_sbc(s, m), base),
        // STA
        0x85 | 0x95 | 0x8d | 0x9d | 0x99 | 0x81 | 0x91 => (s.store(addr, s.a), base),
        // STX
        0x86 | 0x96 | 0x8e => (s.store(addr, s.x), base),
        // STY
        0x84 | 0x94 | 0x8c => (s.store(addr, s.y), base),
        // TXS (no flags), TSX
        0x9a => (MachineState { sp: s.x, ..s }, base),
        0xba => (s.load_x(s.sp), base),
        // PHA, PLA
        0x48 => (s.push_byte(s.a), base),
        0x68 => {
            let v = s.popped_byte();
            (s.after_pop_byte().load_a(v), base)
        },
        // PHP: the Break flag is forced set before the push and stays set
        0x08 => {
            let p1 = StatusFlags { b: true, ..s.p };
            (MachineState { p: p1, ..s }.push_byte(spec_flags_value(p1)), base)
        },
        // PLP
        0x28 => (
            MachineState { p: spec_flags_from_byte(s.popped_byte()), ..s.after_pop_byte() },
            base,
        ),
        _ => (s, base),
    }
}

/// One full machine step: fetch the opcode at the program counter, refuse an
/// opcode the engine does not implement, otherwise advance the program
/// counter by the instruction's length and execute it.
pub open spec fn spec_step(s: MachineState) -> Option<(MachineState, int)> {
    let op = s.mem[s.pc as int];
    if spec_is_known_opcode(op) {
        let advanced = MachineState { pc: spec_wrap16(s.pc + spec_instruction_size(op)), ..s };
        Some(spec_exec_instr(advanced, s.pc))
    } else {
        None
    }
}

/// The machine as `run` sees it at the start: the caller's state with the
/// program counter placed at the requested start address.
pub open spec fn spec_start_state(s: MachineState, start_pc: u16) -> MachineState {
    MachineState { pc: start_pc, ..s }
}

/// `n` machine steps in sequence with their summed cycle cost, or `None` if
/// an unimplemented opcode is hit along the way.
pub open spec fn spec_run_n(s: MachineState, n: nat) -> Option<(MachineState, int)>
    decreases n,
{
    if n == 0 {
        Some((s, 0))
    } else {
        match spec_step(s) {
            None => None,
            Some((s1, c)) => match spec_run_n(s1, (n - 1) as nat) {
                None => None,
                Some((s2, c2)) => Some((s2, c + c2)),
            },
        }
    }
}

/// Whether the branch opcode `op` takes its branch under the flags `p`;
/// false for every non-branch opcode.
pub open spec fn spec_branch_taken(p: StatusFlags, op: u8) -> bool {
    match op {
        0x10 => !p.n,
        0x30 => p.n,
        0xd0 => !p.z,
        0xf0 => p.z,
        0x90 => !p.c,
        0xb0 => p.c,
        0x50 => !p.v,
        0x70 => p.v,
        _ => false,
    }
}

/// Whether the instruction at the program counter writes the program
/// counter itself: a jump, subroutine or interrupt entry or return, or a
/// branch whose condition holds.
pub open spec fn spec_sets_pc(s: MachineState) -> bool {
    let op = s.mem[s.pc as int];
    ||| op == 0x4c  // JMP
    ||| op == 0x6c  // JMP (indirect)
    ||| op == 0x20  // JSR
    ||| op == 0x60  // RTS
    ||| op == 0x40  // RTI
    ||| op == 0x00  // BRK
    ||| spec_branch_taken(s.p, op)
}

/// Exact consumption of the instruction stream: one step of any implemented
/// opcode consumes that opcode's declared byte length exactly once — the
/// program counter after the step equals the counter before plus the length
/// (modulo the address space) — unless the instruction itself set the
/// program counter (a jump, JSR, RTS, RTI, BRK, or a taken branch).
#[verifier::rlimit(100)]
#[verifier::spinoff_prover]
pub proof fn lemma_pc_advances_by_length(s: MachineState)
    requires
        spec_is_known_opcode(s.mem[s.pc as int]),
        !spec_sets_pc(s),
    ensures
        spec_step(s) matches Some((s2, c)) && s2.pc == spec_wrap16(
            s.pc + spec_instruction_size(s.mem[s.pc as int]),
        ),
{
    reveal(spec_exec_instr);
}

/// Re-encoding the operand format described by the opcode metadata: for
/// every implemented opcode, one opcode byte plus the operand bytes its
/// addressing mode encodes reproduces the opcode's declared byte length.
#[verifier::rlimit(50)]
pub proof fn lemma_operand_format_matches_length(op: u8)
    requires
        spec_is_known_opcode(op),
    ensures
        1 + spec_operand_length(spec_mode_of(op)) == spec_instruction_size(op),
{
}

/// Pushing a byte and then popping returns that byte and restores the stack
/// pointer, for every starting pointer — wrapping at the page edge included.
pub proof fn lemma_stack_byte_round_trip(s: MachineState, v: u8)
    requires
        s.wf(),
    ensures
        s.push_byte(v).popped_byte() == v,
        s.push_byte(v).after_pop_byte().sp == s.sp,
{
}

/// Pushing a word and then popping returns that word and restores the stack
/// pointer, for every starting pointer.
pub proof fn lemma_stack_word_round_trip(s: MachineState, w: u16)
    requires
        s.wf(),
    ensures
        s.push_word(w).popped_word() == w,
        s.push_word(w).after_pop_word().sp == s.sp,
{
    vstd::arithmetic::div_mod::lemma_fundamental_div_mod(w as int, 0x100);
}

/// Extending a run by one step at its end: if `n` steps succeed and one more
/// step succeeds from there, then `n + 1` steps succeed, costing the sum.
pub proof fn lemma_run_n_snoc(s: MachineState, n: nat)
    requires
        spec_run_n(s, n) is Some,
        spec_step(spec_run_n(s, n)->Some_0.0) is Some,
    ensures
        spec_run_n(s, n + 1) == Some(
            (
                spec_step(spec_run_n(s, n)->Some_0.0)->Some_0.0,
                spec_run_n(s, n)->Some_0.1 + spec_step(spec_run_n(s, n)->Some_0.0)->Some_0.1,
            ),
        ),
    decreases n,
{
    reveal_with_fuel(spec_run_n, 2);
    if n == 0 {
    } else {
        let (s1, c) = spec_step(s)->Some_0;
        lemma_run_n_snoc(s1, (n - 1) as nat);
        assert(spec_run_n(s, n + 1) == (match spec_run_n(s1, n) {
            None => None::<(MachineState, int)>,
            Some((s2, c2)) => Some((s2, c + c2)),
        }));
    }
}

} // verus!
