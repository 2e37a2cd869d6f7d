//! The register file, status flags, and the execution engine.

use vstd::prelude::*;
use crate::constants::{
    base_cycles, instruction_size, known_opcode, mode_of, spec_is_known_opcode, AddressingType,
    IRQ_VECTOR_H, IRQ_VECTOR_L,
};
use crate::memory::Memory;
use crate::model::{
    lemma_run_n_snoc, spec_adc, spec_add, spec_asl, spec_branch, spec_branch_target, spec_compare,
    spec_exec_instr, spec_index_penalty, spec_interrupt, spec_lsr, spec_page_crossed, spec_rol,
    spec_ror, spec_run_n, spec_sbc, spec_start_state, spec_shift_p, spec_step, spec_wrap16, wrap_add16, MachineState,
};
use crate::text::{spec_unknown_opcode_message, unknown_opcode_message};

verus! {

/// The cycle-counter ceiling at which `run` refuses to start another
/// instruction: far enough below `u64::MAX` that one more instruction's
/// cost always fits.
pub const CYCLE_LIMIT: u64 = 0xffff_ffff_ffff_ffef;

/// The reserved status bit (bit 5): the convention picked here is that it
/// always reads as 1 in the packed status byte.
pub const RESERVED_FLAG: u8 = 0x20;

/// The Break status bit (bit 4): forced set whenever the status byte is
/// pushed (PHP, BRK) or restored from the stack (PLP, RTI).
pub const BREAK_FLAG: u8 = 0x10;

/// The packed status register, kept as one field per flag.
///
/// Bit order in the packed byte is `N V - B D I Z C` (bit 7 down to bit 0).
/// Convention picked here: the reserved bit (bit 5) always reads as 1, and
/// restoring the status byte from the stack (PLP/RTI) forces the Break flag
/// to 1, so a pushed-then-pulled status byte always carries bits 4 and 5 set.
#[derive(Clone, Copy, PartialEq, Eq, Structural, Debug)]
pub struct StatusFlags {
    /// Negative: bit 7 of the most recent flag-setting result.
    pub n: bool,
    /// Overflow: signed overflow out of the most recent binary add/subtract.
    pub v: bool,
    /// Break: forced set whenever the status byte is pushed or restored.
    pub b: bool,
    /// Decimal: when set, ADC/SBC use binary-coded-decimal correction.
    pub d: bool,
    /// Interrupt disable.
    pub i: bool,
    /// Zero: the most recent flag-setting result was 0.
    pub z: bool,
    /// Carry: carry out of an add, no-borrow of a subtract/compare, or the
    /// bit shifted out of a shift/rotate.
    pub c: bool,
}

/// The flags decoded from a packed status byte; the Break flag is forced set,
/// matching what PLP and RTI do when they restore the status register.
pub open spec fn spec_flags_from_byte(x: u8) -> StatusFlags {
    StatusFlags {
        n: x & 0x80 != 0,
        v: x & 0x40 != 0,
        b: true,
        d: x & 0x08 != 0,
        i: x & 0x04 != 0,
        z: x & 0x02 != 0,
        c: x & 0x01 != 0,
    }
}

/// The packed status byte: the reserved bit (0x20) always reads as 1.
pub open spec fn spec_flags_value(p: StatusFlags) -> u8 {
    ((if p.n { 0x80u8 } else { 0u8 }) + (if p.v { 0x40u8 } else { 0u8 }) + RESERVED_FLAG
        + (if p.b { BREAK_FLAG } else { 0u8 }) + (if p.d { 0x08u8 } else { 0u8 })
        + (if p.i { 0x04u8 } else { 0u8 }) + (if p.z { 0x02u8 } else { 0u8 })
        + (if p.c { 0x01u8 } else { 0u8 })) as u8
}

/// N and Z rewritten from an 8-bit result: Z iff the result is zero, N iff
/// bit 7 of the result is set; no other flag is touched.
pub open spec fn spec_nz(p: StatusFlags, result: u8) -> StatusFlags {
    StatusFlags { z: result == 0, n: result >= 0x80, ..p }
}

impl StatusFlags {
    /// The power-on status register: all flags clear (the reserved bit still
    /// reads as 1 through `value`).
    pub fn new() -> (r: StatusFlags)
        ensures
            r == (StatusFlags { n: false, v: false, b: false, d: false, i: false, z: false, c: false }),
    {
        StatusFlags { n: false, v: false, b: false, d: false, i: false, z: false, c: false }
    }

    /// Restores the flags from a packed byte, forcing the Break flag set.
    pub fn set_value(&mut self, value: u8)
        ensures
            *final(self) == spec_flags_from_byte(value),
    {
        self.n = value & 0x80 != 0;
        self.v = value & 0x40 != 0;
        self.b = true;
        self.d = value & 0x08 != 0;
        self.i = value & 0x04 != 0;
        self.z = value & 0x02 != 0;
        self.c = value & 0x01 != 0;
    }

    /// The packed status byte, with the reserved bit reading as 1.
    pub fn value(&self) -> (r: u8)
        ensures
            r == spec_flags_value(*self),
    {
        (if self.n { 0x80u8 } else { 0u8 }) + (if self.v { 0x40u8 } else { 0u8 }) + RESERVED_FLAG
            + (if self.b { BREAK_FLAG } else { 0u8 }) + (if self.d { 0x08u8 } else { 0u8 })
            + (if self.i { 0x04u8 } else { 0u8 }) + (if self.z { 0x02u8 } else { 0u8 })
            + (if self.c { 0x01u8 } else { 0u8 })
    }

    pub fn n(&self) -> (r: bool)
        ensures
            r == self.n,
    {
        self.n
    }

    pub fn set_n(&mut self, f: bool)
        ensures
            *final(self) == (StatusFlags { n: f, ..*old(self) }),
    {
        self.n = f;
    }

    pub fn v(&self) -> (r: bool)
        ensures
            r == self.v,
    {
        self.v
    }

    pub fn set_v(&mut self, f: bool)
        ensures
            *final(self) == (StatusFlags { v: f, ..*old(self) }),
    {
        self.v = f;
    }

    /// The reserved status bit always reads as 1; this is the documented
    /// convention of this implementation.
    pub fn reserved(&self) -> (r: bool)
        ensures
            r == true,
    {
        true
    }

    /// The Break flag as observed by software: it reads as set, since every
    /// path that materialises the status byte forces it set first.
    pub fn b(&self) -> (r: bool)
        ensures
            r == true,
    {
        true
    }

    pub fn set_b(&mut self, f: bool)
        ensures
            *final(self) == (StatusFlags { b: f, ..*old(self) }),
    {
        self.b = f;
    }

    pub fn d(&self) -> (r: bool)
        ensures
            r == self.d,
    {
        self.d
    }

    pub fn set_d(&mut self, f: bool)
        ensures
            *final(self) == (StatusFlags { d: f, ..*old(self) }),
    {
        self.d = f;
    }

    pub fn i(&self) -> (r: bool)
        ensures
            r == self.i,
    {
        self.i
    }

    pub fn set_i(&mut self, f: bool)
        ensures
            *final(self) == (StatusFlags { i: f, ..*old(self) }),
    {
        self.i = f;
    }

    pub fn z(&self) -> (r: bool)
        ensures
            r == self.z,
    {
        self.z
    }

    pub fn set_z(&mut self, f: bool)
        ensures
            *final(self) == (StatusFlags { z: f, ..*old(self) }),
    {
        self.z = f;
    }

    pub fn c(&self) -> (r: bool)
        ensures
            r == self.c,
    {
        self.c
    }

    pub fn set_c(&mut self, f: bool)
        ensures
            *final(self) == (StatusFlags { c: f, ..*old(self) }),
    {
        self.c = f;
    }

    /// Renders the status register for diagnostics, e.g. `P=$31 {----B--ZC}`.
    pub fn describe(&self) -> (r: String)
        ensures
            r@ == spec_flags_text(*self),
    {
        proof {
            reveal_strlit("N");
            reveal_strlit("V");
            reveal_strlit("B");
            reveal_strlit("D");
            reveal_strlit("I");
            reveal_strlit("Z");
            reveal_strlit("C");
            reveal_strlit("-");
        }
        let mut s = String::from_str("P=$");
        s.append(crate::text::h(self.value()).as_str());
        s.append(" {");
        s.append(if self.n { "N" } else { "-" });
        s.append(if self.v { "V" } else { "-" });
        s.append("-");
        s.append("B");
        s.append(if self.d { "D" } else { "-" });
        s.append(if self.i { "I" } else { "-" });
        s.append(if self.z { "Z" } else { "-" });
        s.append(if self.c { "C" } else { "-" });
        s.append("}");
        proof {
            assert(s@ =~= spec_flags_text(*self));
        }
        s
    }

    /// The shared "sets NZ" rule: Zero iff the result is 0, Negative iff
    /// bit 7 of the result is set, every other flag untouched. This holds
    /// for all 256 possible result bytes.
    pub fn set_nz_flags(&mut self, reg: u8)
        ensures
            *final(self) == spec_nz(*old(self), reg),
            final(self).z == (reg == 0),
            final(self).n == (reg & 0x80 != 0),
    {
        self.z = reg == 0;
        self.n = reg >= 0x80;
        proof {
            assert(reg >= 0x80 <==> reg & 0x80 != 0) by (bit_vector);
        }
    }
}

/// The status register rendered for diagnostics: the packed byte, then one
/// letter per set flag (dashes for clear ones). The third column is the
/// reserved bit's dash and the fourth is always `B`, since the Break flag
/// reads as set.
pub open spec fn spec_flags_text(p: StatusFlags) -> Seq<char> {
    "P=$"@ + spec_flags_value_hex(p) + " {"@ + seq![
        if p.n { 'N' } else { '-' },
        if p.v { 'V' } else { '-' },
        '-',
        'B',
        if p.d { 'D' } else { '-' },
        if p.i { 'I' } else { '-' },
        if p.z { 'Z' } else { '-' },
        if p.c { 'C' } else { '-' },
    ] + "}"@
}

/// The packed status byte as two hexadecimal digits.
pub open spec fn spec_flags_value_hex(p: StatusFlags) -> Seq<char> {
    crate::text::spec_hex2(spec_flags_value(p))
}

/// The processor rendered for diagnostics: the four 8-bit registers, the
/// status register, and the occupied top of the stack.
pub open spec fn spec_cpu_text(s: MachineState) -> Seq<char> {
    "A="@ + crate::text::spec_hex2(s.a) + " X="@ + crate::text::spec_hex2(s.x) + " Y="@
        + crate::text::spec_hex2(s.y) + " S="@ + crate::text::spec_hex2(s.sp) + " "@
        + spec_flags_text(s.p) + " "@ + crate::text::spec_format_stack(s.mem, s.sp)
}

/// What the external observer answers after each retired instruction:
/// carry on, or stop with a success flag and a human-readable reason.
pub enum RunStatus {
    Continue,
    Stop(bool, String),
}

/// The read-only view of the processor handed to the observer after each
/// retired instruction.
#[derive(Clone, Copy, PartialEq, Eq, Structural, Debug)]
pub struct CpuSnapshot {
    pub a: u8,
    pub x: u8,
    pub y: u8,
    pub pc: u16,
    pub sp: u8,
    pub p: StatusFlags,
    pub cycles: u64,
}

/// The per-instruction observer: it alone decides when a run terminates
/// (success sentinels, instruction caps, loop detection live in its
/// implementations, never in the engine).
pub trait CpuListener {
    /// Called once after every retired instruction with a read-only snapshot;
    /// `RunStatus::Continue` keeps the run going, `RunStatus::Stop` ends it.
    fn on_pc_changed(&mut self, cpu: &CpuSnapshot) -> RunStatus;
}

/// An observer that never stops the run.
pub struct NullListener;

impl CpuListener for NullListener {
    fn on_pc_changed(&mut self, _cpu: &CpuSnapshot) -> RunStatus {
        RunStatus::Continue
    }
}

/// The processor: register file, status flags, owned storage, the cycle
/// counter, and the observer consulted after each retired instruction.
pub struct Cpu<L: CpuListener> {
    pub memory: Memory,
    pub a: u8,
    pub x: u8,
    pub y: u8,
    pub pc: u16,
    pub p: StatusFlags,
    pub cycles: u64,
    pub listener: Option<L>,
}

impl<L: CpuListener> View for Cpu<L> {
    type V = MachineState;

    open spec fn view(&self) -> MachineState {
        MachineState {
            a: self.a,
            x: self.x,
            y: self.y,
            pc: self.pc,
            p: self.p,
            sp: self.memory.sp(),
            mem: self.memory@,
        }
    }
}

impl<L: CpuListener> Cpu<L> {
    /// The processor is well formed when its storage covers the full 16-bit
    /// address space.
    pub open spec fn wf(&self) -> bool {
        self.memory.wf()
    }

    /// A freshly powered processor: all registers zero, flags clear, cycle
    /// counter at zero, program counter at zero until `run` places it.
    pub fn new(memory: Memory, listener: Option<L>) -> (r: Cpu<L>)
        ensures
            r.memory == memory,
            r.a == 0 && r.x == 0 && r.y == 0 && r.pc == 0,
            r.p == (StatusFlags {
                n: false,
                v: false,
                b: false,
                d: false,
                i: false,
                z: false,
                c: false,
            }),
            r.cycles == 0,
            r.listener == listener,
    {
        Cpu { memory, a: 0, x: 0, y: 0, pc: 0, p: StatusFlags::new(), cycles: 0, listener }
    }

    /// Renders the registers, flags and occupied stack top for diagnostics.
    pub fn describe(&self) -> (r: String)
        requires
            self.wf(),
        ensures
            r@ == spec_cpu_text(self@),
    {
        let mut s = String::from_str("A=");
        s.append(crate::text::h(self.a).as_str());
        s.append(" X=");
        s.append(crate::text::h(self.x).as_str());
        s.append(" Y=");
        s.append(crate::text::h(self.y).as_str());
        s.append(" S=");
        s.append(crate::text::h(self.memory.sp_value()).as_str());
        s.append(" ");
        s.append(self.p.describe().as_str());
        s.append(" ");
        s.append(self.memory.format_stack().as_str());
        proof {
            assert(s@ =~= spec_cpu_text(self@));
        }
        s
    }

    /// Rotate right through carry; returns the rotated byte and rewrites
    /// Carry (from bit 0), N and Z.
    pub fn ror(&mut self, v: u8) -> (r: u8)
        ensures
            ({
                let (r0, c) = spec_ror(v, old(self).p.c);
                r == r0 && *final(self) == (Cpu { p: spec_shift_p(old(self).p, r0, c), ..*old(self) })
            }),
    {
        let bit0 = v % 2;
        let result = v / 2 + (if self.p.c() { 0x80 } else { 0 });
        self.p.set_nz_flags(result);
        self.p.set_c(bit0 != 0);
        result
    }

    /// Rotate left through carry; returns the rotated byte and rewrites
    /// Carry (from bit 7), N and Z.
    pub fn rol(&mut self, v: u8) -> (r: u8)
        ensures
            ({
                let (r0, c) = spec_rol(v, old(self).p.c);
                r == r0 && *final(self) == (Cpu { p: spec_shift_p(old(self).p, r0, c), ..*old(self) })
            }),
    {
        let result = (v % 0x80) * 2 + (if self.p.c() { 1 } else { 0 });
        self.p.set_c(v >= 0x80);
        self.p.set_nz_flags(result);
        result
    }

    /// Logical shift right; returns the shifted byte and rewrites Carry
    /// (from bit 0), N and Z (N is always cleared by the zero fill).
    pub fn lsr(&mut self, v: u8) -> (r: u8)
        ensures
            ({
                let (r0, c) = spec_lsr(v);
                r == r0 && *final(self) == (Cpu { p: spec_shift_p(old(self).p, r0, c), ..*old(self) })
            }),
    {
        let bit0 = v % 2;
        self.p.set_c(bit0 != 0);
        let result = v / 2;
        self.p.set_nz_flags(result);
        result
    }

    /// Arithmetic shift left; returns the shifted byte and rewrites Carry
    /// (from bit 7), N and Z.
    pub fn asl(&mut self, v: u8) -> (r: u8)
        ensures
            ({
                let (r0, c) = spec_asl(v);
                r == r0 && *final(self) == (Cpu { p: spec_shift_p(old(self).p, r0, c), ..*old(self) })
            }),
    {
        self.p.set_c(v >= 0x80);
        let result = (v % 0x80) * 2;
        self.p.set_nz_flags(result);
        result
    }

    /// Compare a register with a value: Carry iff `register >= v`, Zero iff
    /// equal, Negative from bit 7 of the 8-bit difference. The register
    /// itself is never written.
    pub fn cmp(&mut self, register: u8, v: u8)
        ensures
            *final(self) == (Cpu { p: spec_compare(old(self).p, register, v), ..*old(self) }),
    {
        let tmp = register.wrapping_sub(v);
        self.p.set_c(register >= v);
        self.p.set_z(register == v);
        self.p.set_n(tmp >= 0x80);
    }

    /// Add with carry: decimal (BCD) correction when the Decimal flag is
    /// set — Overflow then reads 0 by convention — and binary addition with
    /// Carry/Overflow otherwise; N and Z follow the result byte either way.
    pub fn adc(&mut self, v: u8)
        ensures
            final(self)@ == spec_adc(old(self)@, v),
            final(self).memory == old(self).memory,
            final(self).cycles == old(self).cycles,
            final(self).listener == old(self).listener,
    {
        if self.p.d() {
            let mut l: u16 = (self.a % 16) as u16 + (v % 16) as u16 + (if self.p.c() {
                1
            } else {
                0
            });
            if l > 9 {
                l = l + 6;
            }
            let mut h: u16 = (self.a / 16) as u16 + (v / 16) as u16 + (if l > 15 { 1 } else { 0 });
            if h > 9 {
                h = h + 6;
            }
            let result = ((l % 16) + (h % 16) * 16) as u8;
            self.p.set_c(h > 15);
            self.p.set_z(result == 0);
            self.p.set_v(false);
            self.p.set_n(result >= 0x80);
            self.a = result;
        } else {
            self.add(v);
        }
    }

    /// Binary add with carry: Carry from bit 8 of the 9-bit sum, Overflow
    /// when the operands' signs agree but the result's sign differs, N and Z
    /// from the result.
    pub fn add(&mut self, v: u8)
        ensures
            final(self)@ == spec_add(old(self)@, v),
            final(self).memory == old(self).memory,
            final(self).cycles == old(self).cycles,
            final(self).listener == old(self).listener,
    {
        let sum: u16 = self.a as u16 + v as u16 + (if self.p.c() { 1 } else { 0 });
        let result = (sum % 0x100) as u8;
        let carry = sum >= 0x100;
        let overflow = ((self.a >= 0x80) == (v >= 0x80)) && ((result >= 0x80) != (self.a
            >= 0x80));
        self.p.set_c(carry);
        self.p.set_v(overflow);
        self.p.set_nz_flags(result);
        self.a = result;
    }

    /// Subtract with borrow: decimal mirrored correction when the Decimal
    /// flag is set (Overflow reads 0), and in binary mode the
    /// two's-complement identity `add(v XOR 0xFF)`.
    #[verifier::rlimit(60)]
    pub fn sbc(&mut self, v: u8)
        ensures
            final(self)@ == spec_sbc(old(self)@, v),
            final(self).memory == old(self).memory,
            final(self).cycles == old(self).cycles,
            final(self).listener == old(self).listener,
    {
        if self.p.d() {
            let mut l: i16 = (self.a % 16) as i16 - (v % 16) as i16 - (if self.p.c() {
                0
            } else {
                1
            });
            let lb = l < 0;
            if lb {
                l = l - 6;
            }
            let mut h: i16 = (self.a / 16) as i16 - (v / 16) as i16 - (if lb { 1 } else { 0 });
            let hb = h < 0;
            if hb {
                h = h - 6;
            }
            let low: i16 = if l >= 0 {
                l % 16
            } else if l >= -16 {
                l + 16
            } else {
                l + 32
            };
            let high: i16 = if h >= 0 {
                h % 16
            } else if h >= -16 {
                h + 16
            } else {
                h + 32
            };
            proof {
                lemma_small_euclidean_mod(l as int, low as int);
                lemma_small_euclidean_mod(h as int, high as int);
            }
            let result = (low + high * 16) as u8;
            self.p.set_c(!hb);
            self.p.set_z(result == 0);
            self.p.set_v(false);
            self.p.set_n(result >= 0x80);
            self.a = result;
        } else {
            self.add(v ^ 0xff);
        }
    }

    /// Whether two addresses lie on different 256-byte pages (an extra-cycle
    /// condition); 1 when crossed, 0 when not.
    pub fn page_crossed(&self, old_addr: u16, new_addr: u16) -> (r: u64)
        ensures
            r == (if spec_page_crossed(old_addr, new_addr) { 1int } else { 0int }),
    {
        if old_addr / 0x100 != new_addr / 0x100 {
            1
        } else {
            0
        }
    }

    /// A conditional branch: when taken it displaces the (already advanced)
    /// program counter by the signed operand byte and returns the extra
    /// cycles — 1 for taking it, plus 1 when the target's page differs from
    /// the page of `fetch_pc`, the branch instruction's own address. When not
    /// taken nothing changes and the extra cost is 0.
    pub fn branch(&mut self, fetch_pc: u16, byte: u8, condition: bool) -> (r: u64)
        ensures
            ({
                let (s2, extra) = spec_branch(old(self)@, fetch_pc, byte, condition);
                final(self)@ == s2 && r == extra && final(self).memory == old(self).memory
                    && final(self).cycles == old(self).cycles && final(self).listener == old(
                    self,
                ).listener
            }),
    {
        if condition {
            let disp: u16 = if byte >= 0x80 {
                byte as u16 + 0xff00
            } else {
                byte as u16
            };
            let target = wrap_add16(self.pc, disp);
            proof {
                if byte >= 0x80 {
                    lemma_branch_disp(self.pc, byte);
                }
            }
            let crossed = self.page_crossed(fetch_pc, target);
            self.pc = target;
            1 + crossed
        } else {
            0
        }
    }

    /// The extra cycle an indexed read costs when its index addition crossed
    /// a page; 0 for every non-indexed mode.
    fn index_penalty(&self, pc: u16, mode: AddressingType, addr: u16) -> (r: u64)
        requires
            self.wf(),
        ensures
            r == spec_index_penalty(self@.mem, pc, mode, addr),
    {
        let operand_pc = wrap_add16(pc, 1);
        match mode {
            AddressingType::INDIRECT_Y => {
                let base = self.memory.word(self.memory.get(operand_pc) as u16);
                self.page_crossed(base, addr)
            },
            AddressingType::ABSOLUTE_X | AddressingType::ABSOLUTE_Y => {
                let base = self.memory.word(operand_pc);
                self.page_crossed(base, addr)
            },
            _ => 0,
        }
    }

    /// Executes the instruction whose opcode was fetched at `pc` and returns
    /// its cycle cost (base cost plus branch-taken and page-crossing
    /// penalties). `self.pc` must already have been advanced past the
    /// instruction, as `run` does; operand offsets are taken relative to
    /// `pc`, the fetch address, which is passed explicitly. The cycle
    /// counter itself is not touched — the caller accounts the returned
    /// cost.
    #[verifier::rlimit(100)]
    #[verifier::spinoff_prover]
    pub fn next_instruction(&mut self, pc: u16) -> (r: u64)
        requires
            old(self).wf(),
            spec_is_known_opcode(old(self)@.mem[pc as int]),
        ensures
            final(self).wf(),
            ({
                let (s2, c) = spec_exec_instr(old(self)@, pc);
                final(self)@ == s2 && r == c
            }),
            1 <= r <= 16,
            final(self).cycles == old(self).cycles,
            final(self).listener == old(self).listener,
    {
        let opcode = self.memory.get(pc);
        match opcode {
            0x69 | 0x65 | 0x75 | 0x6d | 0x7d | 0x79 | 0x61 | 0x71 | 0xe9 | 0xe5
            | 0xf5 | 0xed | 0xfd | 0xf9 | 0xe1 | 0xf1 => self.step_arith(pc, opcode),
            0xc9 | 0xc5 | 0xd5 | 0xcd | 0xdd | 0xd9 | 0xc1 | 0xd1 | 0xe0 | 0xe4
            | 0xec | 0xc0 | 0xc4 | 0xcc => self.step_compare(pc, opcode),
            0x29 | 0x25 | 0x35 | 0x2d | 0x3d | 0x39 | 0x21 | 0x31 | 0x49 | 0x45
            | 0x55 | 0x4d | 0x5d | 0x59 | 0x51 | 0x41 | 0x09 | 0x05 | 0x15 | 0x0d
            | 0x1d | 0x19 | 0x01 | 0x11 | 0x24 | 0x2c => self.step_logic(pc, opcode),
            0x0a | 0x06 | 0x16 | 0x0e | 0x1e | 0x4a | 0x46 | 0x56 | 0x4e | 0x5e
            | 0x2a | 0x26 | 0x36 | 0x2e | 0x3e | 0x6a | 0x66 | 0x76 | 0x6e | 0x7e => self.step_shift(pc, opcode),
            0x10 | 0x30 | 0xd0 | 0xf0 | 0x90 | 0xb0 | 0x50 | 0x70 | 0x00 | 0x4c
            | 0x6c | 0x20 | 0x40 | 0x60 => self.step_control(pc, opcode),
            0xa9 | 0xa5 | 0xb5 | 0xad | 0xbd | 0xb9 | 0xa1 | 0xb1 | 0xa2 | 0xa6
            | 0xb6 | 0xae | 0xbe | 0xa0 | 0xa4 | 0xb4 | 0xac | 0xbc | 0x85 | 0x95
            | 0x8d | 0x9d | 0x99 | 0x81 | 0x91 | 0x86 | 0x96 | 0x8e | 0x84 | 0x94
            | 0x8c => self.step_load_store(pc, opcode),
            0x18 | 0x38 | 0x58 | 0x78 | 0xd8 | 0xf8 | 0xb8 | 0xaa | 0x8a | 0xa8
            | 0x98 | 0xca | 0xe8 | 0x88 | 0xc8 | 0xc6 | 0xd6 | 0xce | 0xde | 0xe6
            | 0xf6 | 0xee | 0xfe | 0xea | 0x9a | 0xba | 0x48 | 0x68 | 0x08 | 0x28 => self.step_misc(pc, opcode),
            _ => unreached(),
        }
    }

    /// One dispatch family of `next_instruction`: Add and subtract with carry, in binary or decimal mode.
    #[verifier::rlimit(100)]
    #[verifier::spinoff_prover]
    fn step_arith(&mut self, pc: u16, opcode: u8) -> (r: u64)
        requires
            old(self).wf(),
            opcode == old(self)@.mem[pc as int],
            opcode == 0x69 || opcode == 0x65 || opcode == 0x75 || opcode == 0x6d || opcode == 0x7d
                || opcode == 0x79 || opcode == 0x61 || opcode == 0x71 || opcode == 0xe9 || opcode == 0xe5
                || opcode == 0xf5 || opcode == 0xed || opcode == 0xfd || opcode == 0xf9 || opcode == 0xe1
                || opcode == 0xf1,
        ensures
            final(self).wf(),
            ({
                let (s2, c) = spec_exec_instr(old(self)@, pc);
                final(self)@ == s2 && r == c
            }),
            1 <= r <= 16,
            final(self).cycles == old(self).cycles,
            final(self).listener == old(self).listener,
    {
        proof {
            reveal(spec_exec_instr);
        }
        let addressing_type = mode_of(opcode);
        let operand_pc = wrap_add16(pc, 1);
        let mut cycles: u64 = base_cycles(opcode);
        match opcode {
            // ADC
            0x69 => {
                let v = self.memory.get(operand_pc);
                self.adc(v);
            },
            0x65 | 0x75 | 0x6d | 0x7d | 0x79 | 0x61 | 0x71 => {
                let address = addressing_type.address(&self.memory, pc, self.x, self.y);
                let v = self.memory.get(address);
                self.adc(v);
                cycles = cycles + self.index_penalty(pc, addressing_type, address);
            },
            // SBC
            0xe9 => {
                let v = self.memory.get(operand_pc);
                self.sbc(v);
            },
            0xe5 | 0xf5 | 0xed | 0xfd | 0xf9 | 0xe1 | 0xf1 => {
                let address = addressing_type.address(&self.memory, pc, self.x, self.y);
                let v = self.memory.get(address);
                self.sbc(v);
            },
            _ => {
                return unreached();
            },
        }
        cycles
    }

    /// One dispatch family of `next_instruction`: The three register compares.
    #[verifier::rlimit(100)]
    #[verifier::spinoff_prover]
    fn step_compare(&mut self, pc: u16, opcode: u8) -> (r: u64)
        requires
            old(self).wf(),
            opcode == old(self)@.mem[pc as int],
            opcode == 0xc9 || opcode == 0xc5 || opcode == 0xd5 || opcode == 0xcd || opcode == 0xdd
                || opcode == 0xd9 || opcode == 0xc1 || opcode == 0xd1 || opcode == 0xe0 || opcode == 0xe4
                || opcode == 0xec || opcode == 0xc0 || opcode == 0xc4 || opcode == 0xcc,
        ensures
            final(self).wf(),
            ({
                let (s2, c) = spec_exec_instr(old(self)@, pc);
                final(self)@ == s2 && r == c
            }),
            1 <= r <= 16,
            final(self).cycles == old(self).cycles,
            final(self).listener == old(self).listener,
    {
        proof {
            reveal(spec_exec_instr);
        }
        let addressing_type = mode_of(opcode);
        let operand_pc = wrap_add16(pc, 1);
        let mut cycles: u64 = base_cycles(opcode);
        match opcode {
            // CMP
            0xc9 => {
                let v = self.memory.get(operand_pc);
                let a0 = self.a;
                self.cmp(a0, v);
            },
            0xc5 | 0xd5 | 0xcd | 0xdd | 0xd9 | 0xc1 | 0xd1 => {
                let address = addressing_type.address(&self.memory, pc, self.x, self.y);
                let v = self.memory.get(address);
                let a0 = self.a;
                self.cmp(a0, v);
            },
            // CPX
            0xe0 => {
                let v = self.memory.get(operand_pc);
                let x0 = self.x;
                self.cmp(x0, v);
            },
            0xe4 | 0xec => {
                let address = addressing_type.address(&self.memory, pc, self.x, self.y);
                let v = self.memory.get(address);
                let x0 = self.x;
                self.cmp(x0, v);
            },
            // CPY
            0xc0 => {
                let v = self.memory.get(operand_pc);
                let y0 = self.y;
                self.cmp(y0, v);
            },
            0xc4 | 0xcc => {
                let address = addressing_type.address(&self.memory, pc, self.x, self.y);
                let v = self.memory.get(address);
                let y0 = self.y;
                self.cmp(y0, v);
            },
            _ => {
                return unreached();
            },
        }
        cycles
    }

    /// One dispatch family of `next_instruction`: Bitwise accumulator operations and the BIT test.
    #[verifier::rlimit(100)]
    #[verifier::spinoff_prover]
    fn step_logic(&mut self, pc: u16, opcode: u8) -> (r: u64)
        requires
            old(self).wf(),
            opcode == old(self)@.mem[pc as int],
            opcode == 0x29 || opcode == 0x25 || opcode == 0x35 || opcode == 0x2d || opcode == 0x3d
                || opcode == 0x39 || opcode == 0x21 || opcode == 0x31 || opcode == 0x49 || opcode == 0x45
                || opcode == 0x55 || opcode == 0x4d || opcode == 0x5d || opcode == 0x59 || opcode == 0x51
                || opcode == 0x41 || opcode == 0x09 || opcode == 0x05 || opcode == 0x15 || opcode == 0x0d
                || opcode == 0x1d || opcode == 0x19 || opcode == 0x01 || opcode == 0x11 || opcode == 0x24
                || opcode == 0x2c,
        ensures
            final(self).wf(),
            ({
                let (s2, c) = spec_exec_instr(old(self)@, pc);
                final(self)@ == s2 && r == c
            }),
            1 <= r <= 16,
            final(self).cycles == old(self).cycles,
            final(self).listener == old(self).listener,
    {
        proof {
            reveal(spec_exec_instr);
        }
        let addressing_type = mode_of(opcode);
        let operand_pc = wrap_add16(pc, 1);
        let mut cycles: u64 = base_cycles(opcode);
        match opcode {
            // AND
            0x29 => {
                self.a = self.a & self.memory.get(operand_pc);
                self.p.set_nz_flags(self.a);
            },
            0x25 | 0x35 | 0x2d | 0x3d | 0x39 | 0x21 | 0x31 => {
                let address = addressing_type.address(&self.memory, pc, self.x, self.y);
                let content = self.memory.get(address);
                self.a = self.a & content;
                self.p.set_nz_flags(self.a);
                cycles = cycles + self.index_penalty(pc, addressing_type, address);
            },
            // BIT
            0x24 | 0x2c => {
                let address = addressing_type.address(&self.memory, pc, self.x, self.y);
                let content = self.memory.get(address);
                self.p.set_z(content & self.a == 0);
                self.p.set_n(content & 0x80 != 0);
                self.p.set_v(content & 0x40 != 0);
            },
            // EOR
            0x49 => {
                self.a = self.a ^ self.memory.get(operand_pc);
                self.p.set_nz_flags(self.a);
            },
            0x45 | 0x55 | 0x4d | 0x5d | 0x59 | 0x51 | 0x41 => {
                let address = addressing_type.address(&self.memory, pc, self.x, self.y);
                let content = self.memory.get(address);
                self.a = self.a ^ content;
                self.p.set_nz_flags(self.a);
            },
            // ORA
            0x09 => {
                self.a = self.a | self.memory.get(operand_pc);
                self.p.set_nz_flags(self.a);
            },
            0x05 | 0x15 | 0x0d | 0x1d | 0x19 | 0x01 | 0x11 => {
                let address = addressing_type.address(&self.memory, pc, self.x, self.y);
                let content = self.memory.get(address);
                self.a = self.a | content;
                self.p.set_nz_flags(self.a);
            },
            _ => {
                return unreached();
            },
        }
        cycles
    }

    /// One dispatch family of `next_instruction`: Shifts and rotates, on the accumulator or through storage.
    #[verifier::rlimit(100)]
    #[verifier::spinoff_prover]
    fn step_shift(&mut self, pc: u16, opcode: u8) -> (r: u64)
        requires
            old(self).wf(),
            opcode == old(self)@.mem[pc as int],
            opcode == 0x0a || opcode == 0x06 || opcode == 0x16 || opcode == 0x0e || opcode == 0x1e
                || opcode == 0x4a || opcode == 0x46 || opcode == 0x56 || opcode == 0x4e || opcode == 0x5e
                || opcode == 0x2a || opcode == 0x26 || opcode == 0x36 || opcode == 0x2e || opcode == 0x3e
                || opcode == 0x6a || opcode == 0x66 || opcode == 0x76 || opcode == 0x6e || opcode == 0x7e,
        ensures
            final(self).wf(),
            ({
                let (s2, c) = spec_exec_instr(old(self)@, pc);
                final(self)@ == s2 && r == c
            }),
            1 <= r <= 16,
            final(self).cycles == old(self).cycles,
            final(self).listener == old(self).listener,
    {
        proof {
            reveal(spec_exec_instr);
        }
        let addressing_type = mode_of(opcode);
        let operand_pc = wrap_add16(pc, 1);
        let mut cycles: u64 = base_cycles(opcode);
        match opcode {
            // ASL
            0x0a => {
                let a0 = self.a;
                self.a = self.asl(a0);
            },
            0x06 | 0x16 | 0x0e | 0x1e => {
                let address = addressing_type.address(&self.memory, pc, self.x, self.y);
                let content = self.memory.get(address);
                let result = self.asl(content);
                self.memory.set(address, result);
            },
            // LSR
            0x4a => {
                let a0 = self.a;
                self.a = self.lsr(a0);
            },
            0x46 | 0x56 | 0x4e | 0x5e => {
                let address = addressing_type.address(&self.memory, pc, self.x, self.y);
                let content = self.memory.get(address);
                let new_value = self.lsr(content);
                self.memory.set(address, new_value);
            },
            // ROL
            0x2a => {
                let a0 = self.a;
                self.a = self.rol(a0);
            },
            0x26 | 0x36 | 0x2e | 0x3e => {
                let address = addressing_type.address(&self.memory, pc, self.x, self.y);
                let content = self.memory.get(address);
                let new_value = self.rol(content);
                self.memory.set(address, new_value);
            },
            // ROR
            0x6a => {
                let a0 = self.a;
                self.a = self.ror(a0);
            },
            0x66 | 0x76 | 0x6e | 0x7e => {
                let address = addressing_type.address(&self.memory, pc, self.x, self.y);
                let content = self.memory.get(address);
                let new_value = self.ror(content);
                self.memory.set(address, new_value);
            },
            _ => {
                return unreached();
            },
        }
        cycles
    }

    /// One dispatch family of `next_instruction`: Branches, jumps, subroutine and interrupt entry and return.
    #[verifier::rlimit(100)]
    #[verifier::spinoff_prover]
    fn step_control(&mut self, pc: u16, opcode: u8) -> (r: u64)
        requires
            old(self).wf(),
            opcode == old(self)@.mem[pc as int],
            opcode == 0x10 || opcode == 0x30 || opcode == 0xd0 || opcode == 0xf0 || opcode == 0x90
                || opcode == 0xb0 || opcode == 0x50 || opcode == 0x70 || opcode == 0x00 || opcode == 0x4c
                || opcode == 0x6c || opcode == 0x20 || opcode == 0x40 || opcode == 0x60,
        ensures
            final(self).wf(),
            ({
                let (s2, c) = spec_exec_instr(old(self)@, pc);
                final(self)@ == s2 && r == c
            }),
            1 <= r <= 16,
            final(self).cycles == old(self).cycles,
            final(self).listener == old(self).listener,
    {
        proof {
            reveal(spec_exec_instr);
        }
        let addressing_type = mode_of(opcode);
        let operand_pc = wrap_add16(pc, 1);
        let mut cycles: u64 = base_cycles(opcode);
        match opcode {
            // BPL, BMI, BNE, BEQ, BCC, BCS, BVC, BVS
            0x10 => {
                let d = self.memory.get(operand_pc);
                let cond = !self.p.n();
                cycles = cycles + self.branch(pc, d, cond);
            },
            0x30 => {
                let d = self.memory.get(operand_pc);
                let cond = self.p.n();
                cycles = cycles + self.branch(pc, d, cond);
            },
            0xd0 => {
                let d = self.memory.get(operand_pc);
                let cond = !self.p.z();
                cycles = cycles + self.branch(pc, d, cond);
            },
            0xf0 => {
                let d = self.memory.get(operand_pc);
                let cond = self.p.z();
                cycles = cycles + self.branch(pc, d, cond);
            },
            0x90 => {
                let d = self.memory.get(operand_pc);
                let cond = !self.p.c();
                cycles = cycles + self.branch(pc, d, cond);
            },
            0xb0 => {
                let d = self.memory.get(operand_pc);
                let cond = self.p.c();
                cycles = cycles + self.branch(pc, d, cond);
            },
            0x50 => {
                let d = self.memory.get(operand_pc);
                let cond = !self.p.v();
                cycles = cycles + self.branch(pc, d, cond);
            },
            0x70 => {
                let d = self.memory.get(operand_pc);
                let cond = self.p.v();
                cycles = cycles + self.branch(pc, d, cond);
            },
            // BRK
            0x00 => {
                self.handle_interrupt(true, IRQ_VECTOR_H, IRQ_VECTOR_L);
            },
            // JMP
            0x4c => {
                self.pc = self.memory.word(operand_pc);
            },
            0x6c => {
                let address = addressing_type.address(&self.memory, pc, self.x, self.y);
                self.pc = self.memory.word(address);
            },
            // JSR
            0x20 => {
                self.memory.push_word(wrap_add16(pc, 2));
                self.pc = self.memory.word(operand_pc);
            },
            // RTI: status byte first (Break and reserved forced set), then
            // the return address, unadjusted
            0x40 => {
                let pv = self.memory.pop_byte();
                self.p.set_value(pv);
                self.pc = self.memory.pop_word();
            },
            // RTS: JSR pushed the return address minus one
            0x60 => {
                let w = self.memory.pop_word();
                self.pc = wrap_add16(w, 1);
            },
            _ => {
                return unreached();
            },
        }
        cycles
    }

    /// One dispatch family of `next_instruction`: Register loads and stores through every addressing mode.
    #[verifier::rlimit(100)]
    #[verifier::spinoff_prover]
    fn step_load_store(&mut self, pc: u16, opcode: u8) -> (r: u64)
        requires
            old(self).wf(),
            opcode == old(self)@.mem[pc as int],
            opcode == 0xa9 || opcode == 0xa5 || opcode == 0xb5 || opcode == 0xad || opcode == 0xbd
                || opcode == 0xb9 || opcode == 0xa1 || opcode == 0xb1 || opcode == 0xa2 || opcode == 0xa6
                || opcode == 0xb6 || opcode == 0xae || opcode == 0xbe || opcode == 0xa0 || opcode == 0xa4
                || opcode == 0xb4 || opcode == 0xac || opcode == 0xbc || opcode == 0x85 || opcode == 0x95
                || opcode == 0x8d || opcode == 0x9d || opcode == 0x99 || opcode == 0x81 || opcode == 0x91
                || opcode == 0x86 || opcode == 0x96 || opcode == 0x8e || opcode == 0x84 || opcode == 0x94
                || opcode == 0x8c,
        ensures
            final(self).wf(),
            ({
                let (s2, c) = spec_exec_instr(old(self)@, pc);
                final(self)@ == s2 && r == c
            }),
            1 <= r <= 16,
            final(self).cycles == old(self).cycles,
            final(self).listener == old(self).listener,
    {
        proof {
            reveal(spec_exec_instr);
        }
        let addressing_type = mode_of(opcode);
        let operand_pc = wrap_add16(pc, 1);
        let mut cycles: u64 = base_cycles(opcode);
        match opcode {
            // LDA
            0xa9 => {
                self.a = self.memory.get(operand_pc);
                self.p.set_nz_flags(self.a);
            },
            0xa5 | 0xb5 | 0xad | 0xbd | 0xb9 | 0xa1 | 0xb1 => {
                let address = addressing_type.address(&self.memory, pc, self.x, self.y);
                self.a = self.memory.get(address);
                self.p.set_nz_flags(self.a);
            },
            // LDX
            0xa2 => {
                self.x = self.memory.get(operand_pc);
                self.p.set_nz_flags(self.x);
            },
            0xa6 | 0xb6 | 0xae | 0xbe => {
                let address = addressing_type.address(&self.memory, pc, self.x, self.y);
                self.x = self.memory.get(address);
                self.p.set_nz_flags(self.x);
            },
            // LDY
            0xa0 => {
                self.y = self.memory.get(operand_pc);
                self.p.set_nz_flags(self.y);
            },
            0xa4 | 0xb4 | 0xac | 0xbc => {
                let address = addressing_type.address(&self.memory, pc, self.x, self.y);
                self.y = self.memory.get(address);
                self.p.set_nz_flags(self.y);
            },
            // STA
            0x85 | 0x95 | 0x8d | 0x9d | 0x99 | 0x81 | 0x91 => {
                let address = addressing_type.address(&self.memory, pc, self.x, self.y);
                self.memory.set(address, self.a);
            },
            // STX
            0x86 | 0x96 | 0x8e => {
                let address = addressing_type.address(&self.memory, pc, self.x, self.y);
                self.memory.set(address, self.x);
            },
            // STY
            0x84 | 0x94 | 0x8c => {
                let address = addressing_type.address(&self.memory, pc, self.x, self.y);
                self.memory.set(address, self.y);
            },
            _ => {
                return unreached();
            },
        }
        cycles
    }

    /// One dispatch family of `next_instruction`: Flag writes, register transfers, increments and decrements,
    /// stack pushes and pulls, and NOP.
    #[verifier::rlimit(100)]
    #[verifier::spinoff_prover]
    fn step_misc(&mut self, pc: u16, opcode: u8) -> (r: u64)
        requires
            old(self).wf(),
            opcode == old(self)@.mem[pc as int],
            opcode == 0x18 || opcode == 0x38 || opcode == 0x58 || opcode == 0x78 || opcode == 0xd8
                || opcode == 0xf8 || opcode == 0xb8 || opcode == 0xaa || opcode == 0x8a || opcode == 0xa8
                || opcode == 0x98 || opcode == 0xca || opcode == 0xe8 || opcode == 0x88 || opcode == 0xc8
                || opcode == 0xc6 || opcode == 0xd6 || opcode == 0xce || opcode == 0xde || opcode == 0xe6
                || opcode == 0xf6 || opcode == 0xee || opcode == 0xfe || opcode == 0xea || opcode == 0x9a
                || opcode == 0xba || opcode == 0x48 || opcode == 0x68 || opcode == 0x08 || opcode == 0x28,
        ensures
            final(self).wf(),
            ({
                let (s2, c) = spec_exec_instr(old(self)@, pc);
                final(self)@ == s2 && r == c
            }),
            1 <= r <= 16,
            final(self).cycles == old(self).cycles,
            final(self).listener == old(self).listener,
    {
        proof {
            reveal(spec_exec_instr);
        }
        let addressing_type = mode_of(opcode);
        let operand_pc = wrap_add16(pc, 1);
        let mut cycles: u64 = base_cycles(opcode);
        match opcode {
            // DEC
            0xc6 | 0xd6 | 0xce | 0xde => {
                let address = addressing_type.address(&self.memory, pc, self.x, self.y);
                let old_value = self.memory.get(address);
                let new_value = if old_value == 0 {
                    0xff
                } else {
                    old_value - 1
                };
                self.memory.set(address, new_value);
                self.p.set_nz_flags(new_value);
            },
            // CLC, SEC, CLI, SEI, CLD, SED, CLV
            0x18 => self.p.set_c(false),
            0x38 => self.p.set_c(true),
            0x58 => self.p.set_i(false),
            0x78 => self.p.set_i(true),
            0xd8 => self.p.set_d(false),
            0xf8 => self.p.set_d(true),
            0xb8 => self.p.set_v(false),
            // INC
            0xe6 | 0xf6 | 0xee | 0xfe => {
                let address = addressing_type.address(&self.memory, pc, self.x, self.y);
                let content = self.memory.get(address);
                let new_value = if content == 0xff {
                    0
                } else {
                    content + 1
                };
                self.memory.set(address, new_value);
                self.p.set_nz_flags(new_value);
            },
            // NOP
            0xea => {},
            // TAX, TXA, TAY, TYA
            0xaa => {
                self.x = self.a;
                self.p.set_nz_flags(self.x);
            },
            0x8a => {
                self.a = self.x;
                self.p.set_nz_flags(self.a);
            },
            0xa8 => {
                self.y = self.a;
                self.p.set_nz_flags(self.y);
            },
            0x98 => {
                self.a = self.y;
                self.p.set_nz_flags(self.a);
            },
            // DEX, INX, DEY, INY
            0xca => {
                if self.x == 0 {
                    self.x = 0xff;
                } else {
                    self.x = self.x - 1;
                }
                self.p.set_nz_flags(self.x);
            },
            0xe8 => {
                if self.x == 0xff {
                    self.x = 0;
                } else {
                    self.x = self.x + 1;
                }
                self.p.set_nz_flags(self.x);
            },
            0x88 => {
                if self.y == 0 {
                    self.y = 0xff;
                } else {
                    self.y = self.y - 1;
                }
                self.p.set_nz_flags(self.y);
            },
            0xc8 => {
                if self.y == 0xff {
                    self.y = 0;
                } else {
                    self.y = self.y + 1;
                }
                self.p.set_nz_flags(self.y);
            },
            // TXS (no flags), TSX
            0x9a => {
                self.memory.set_sp(self.x);
            },
            0xba => {
                self.x = self.memory.sp_value();
                self.p.set_nz_flags(self.x);
            },
            // PHA, PLA
            0x48 => {
                let a0 = self.a;
                self.memory.push_byte(a0);
            },
            0x68 => {
                self.a = self.memory.pop_byte();
                self.p.set_nz_flags(self.a);
            },
            // PHP: the Break flag is forced set before the push and stays set
            0x08 => {
                self.p.set_b(true);
                let pv = self.p.value();
                self.memory.push_byte(pv);
            },
            // PLP
            0x28 => {
                let pv = self.memory.pop_byte();
                self.p.set_value(pv);
            },
            _ => {
                return unreached();
            },
        }
        cycles
    }

    /// Interrupt entry: pushes the word after the current program counter,
    /// then the status byte with the Break flag forced to `brk`, sets
    /// Interrupt-disable, and loads the program counter from the
    /// little-endian vector at (`vector_low`, `vector_high`).
    pub fn handle_interrupt(&mut self, brk: bool, vector_high: u16, vector_low: u16)
        requires
            old(self).wf(),
        ensures
            final(self).wf(),
            final(self)@ == spec_interrupt(old(self)@, brk, vector_high, vector_low),
            final(self).cycles == old(self).cycles,
            final(self).listener == old(self).listener,
    {
        self.p.set_b(brk);
        self.memory.push_word(wrap_add16(self.pc, 1));
        self.memory.push_byte(self.p.value());
        self.p.set_i(true);
        let new_pc = self.memory.get(vector_high) as u16 * 0x100 + self.memory.get(
            vector_low,
        ) as u16;
        self.pc = new_pc;
    }

    /// One retired instruction, the unit `run` performs between two observer
    /// invocations: fetch the opcode at the program counter and, when it is
    /// implemented, advance the counter by exactly the instruction's
    /// declared length, execute it exactly once, add its cycle cost to the
    /// cycle counter, and return that cost. An unimplemented opcode changes
    /// nothing and returns `None` — the step exists if and only if the
    /// opcode is implemented, exactly as in the step model.
    pub fn step(&mut self) -> (r: Option<u64>)
        requires
            old(self).wf(),
            old(self).cycles <= CYCLE_LIMIT,
        ensures
            final(self).wf(),
            ({
                match r {
                    Some(c) => spec_step(old(self)@) == Some((final(self)@, c as int))
                        && final(self).cycles == old(self).cycles + c && 1 <= c <= 16
                        && final(self).listener == old(self).listener,
                    None => spec_step(old(self)@) is None && *final(self) == *old(self),
                }
            }),
    {
        let opcode = self.memory.get(self.pc);
        if !known_opcode(opcode) {
            return None;
        }
        let previous_pc = self.pc;
        let ghost cur = self@;
        self.pc = wrap_add16(self.pc, instruction_size(opcode));
        let c = self.next_instruction(previous_pc);
        proof {
            assert(spec_step(cur) == Some((self@, c as int)));
        }
        self.cycles = self.cycles + c;
        Some(c)
    }

    /// Drives the fetch/decode/execute loop from `start_pc` until something
    /// stops it, and returns that final non-`Continue` status: the observer's
    /// verdict, a fatal unknown opcode (never silently skipped), or the cycle
    /// counter reaching its ceiling — a machine limit no realistic run
    /// attains.
    ///
    /// Whatever stopped it, the machine ends in a state the step model
    /// reaches from the start state in some number of whole instructions,
    /// and the cycle counter has grown by exactly those instructions' summed
    /// cost. Only the observer can end a run early: without one, the engine
    /// returns only for one of its two own reasons — an unimplemented opcode
    /// sitting at the final program counter, reported by name and address,
    /// or the cycle ceiling — so every implemented instruction on the way is
    /// executed, never skipped.
    #[verifier::loop_isolation(false)]
    pub fn run(&mut self, start_pc: u16) -> (r: RunStatus)
        requires
            old(self).wf(),
        ensures
            final(self).wf(),
            !(r is Continue),
            exists|n: nat|
                {
                    &&& #[trigger] spec_run_n(
                        spec_start_state(old(self)@, start_pc),
                        n,
                    ) matches Some((st, dc))
                    &&& st == final(self)@
                    &&& final(self).cycles == old(self).cycles + dc
                },
            old(self).listener is None ==> (r matches RunStatus::Stop(success, reason)
                && !success && ((final(self).cycles >= CYCLE_LIMIT && reason@
                == "cycle counter exhausted"@) || (!spec_is_known_opcode(
                final(self)@.mem[final(self)@.pc as int],
            ) && reason@ == spec_unknown_opcode_message(
                final(self)@.mem[final(self)@.pc as int],
                final(self)@.pc,
            )))),
    {
        let ghost orig = self@;
        self.pc = start_pc;
        let ghost s0 = spec_start_state(orig, start_pc);
        let ghost c0 = self.cycles;
        proof {
            assert(self@ =~= s0);
            assert(spec_run_n(s0, 0) == Some((s0, 0int)));
        }
        loop
            invariant
                self.wf(),
                self.cycles >= c0,
                old(self).listener is None ==> self.listener is None,
                exists|n: nat|
                    {
                        &&& #[trigger] spec_run_n(s0, n) matches Some((st, dc))
                        &&& st == self@
                        &&& self.cycles == c0 + dc
                    },
            decreases u64::MAX - self.cycles,
        {
            if self.cycles >= CYCLE_LIMIT {
                return RunStatus::Stop(false, String::from_str("cycle counter exhausted"));
            }
            let ghost cur = self@;
            let ghost n_cur = choose|n: nat|
                {
                    &&& #[trigger] spec_run_n(s0, n) matches Some((st, dc))
                    &&& st == cur
                    &&& self.cycles == c0 + dc
                };
            match self.step() {
                None => {
                    let opcode = self.memory.get(self.pc);
                    return RunStatus::Stop(false, unknown_opcode_message(opcode, self.pc));
                },
                Some(_) => {},
            }
            proof {
                lemma_run_n_snoc(s0, n_cur);
            }
            let snapshot = CpuSnapshot {
                a: self.a,
                x: self.x,
                y: self.y,
                pc: self.pc,
                sp: self.memory.sp_value(),
                p: self.p,
                cycles: self.cycles,
            };
            let stop = match &mut self.listener {
                Some(l) => l.on_pc_changed(&snapshot),
                None => RunStatus::Continue,
            };
            match stop {
                RunStatus::Stop(success, reason) => {
                    return RunStatus::Stop(success, reason);
                },
                _ => {},
            }
        }
    }
}

/// For a value within one step of the divisor's range on either side, the
/// shifted copy lying in `[0, 16)` is its Euclidean remainder modulo 16.
proof fn lemma_small_euclidean_mod(l: int, low: int)
    requires
        -32 < l < 16,
        low == (if l >= 0 {
            l % 16
        } else if l >= -16 {
            l + 16
        } else {
            l + 32
        }),
    ensures
        low == l % 16,
{
    if l >= 0 {
    } else if l >= -16 {
        vstd::arithmetic::div_mod::lemma_mod_add_multiples_vanish(l, 16);
        vstd::arithmetic::div_mod::lemma_small_mod((l + 16) as nat, 16);
    } else {
        vstd::arithmetic::div_mod::lemma_mod_add_multiples_vanish(l, 16);
        vstd::arithmetic::div_mod::lemma_mod_add_multiples_vanish(l + 16, 16);
        vstd::arithmetic::div_mod::lemma_small_mod((l + 32) as nat, 16);
    }
}

/// The two ways of writing a backward branch displacement agree modulo the
/// address space: adding `byte + 0xff00` is subtracting `0x100 - byte`.
proof fn lemma_branch_disp(pc: u16, byte: u8)
    requires
        byte >= 0x80,
    ensures
        spec_wrap16(pc + (byte + 0xff00)) == spec_branch_target(pc, byte),
{
    assert(spec_wrap16(pc + (byte + 0xff00)) == spec_wrap16(pc + byte - 0x100)) by {
        vstd::arithmetic::div_mod::lemma_mod_add_multiples_vanish(
            pc + byte - 0x100,
            0x10000,
        );
    }
}

} // verus!
