//! The addressable storage and the page-one stack discipline.
//!
//! Storage spans the whole 16-bit address space (64 KiB), so every address a
//! 16-bit computation can produce is in range and the stack page and the
//! interrupt vector always exist. The stack is the 256-byte window at
//! `0x100..0x200`; the stack pointer is an 8-bit value that wraps modulo 256
//! on every push and pop — wrapping is normal operation, not a fault.

use vstd::prelude::*;
use crate::constants::{instruction_size, mode_of, opcode_name, spec_mode_of,
    spec_instruction_size};
use crate::model::{spec_sp_inc, spec_sp_dec, spec_word, wrap_add16};
use crate::text::{
    h, hex2_padded, hex4, lemma_stack_entries_snoc, spec_disasm_line, spec_format_stack,
    spec_instr_bytes, spec_stack_entries,
};

verus! {

/// Number of addressable bytes: the full 16-bit address space.
pub const MEMORY_SIZE: usize = 0x10000;

/// Base address of the stack page.
pub const STACK_ADDRESS: u16 = 0x100;

/// Addressable storage plus the stack pointer that indexes its page-one
/// window.
pub struct Memory {
    buffer: Vec<u8>,
    /// Page-relative stack pointer; the next push writes to
    /// `STACK_ADDRESS + stack_pointer`.
    pub stack_pointer: u8,
}

/// Observer of storage traffic; the engine itself never calls it, it exists
/// for external instrumentation to implement.
pub trait MemoryListener {
    fn on_read_or_wrote(&mut self, address: usize, value: u8);
}

impl View for Memory {
    type V = Seq<u8>;

    closed spec fn view(&self) -> Seq<u8> {
        self.buffer@
    }
}

impl Memory {
    /// Storage is well formed when it covers the full 16-bit address space.
    pub open spec fn wf(&self) -> bool {
        self@.len() == MEMORY_SIZE
    }

    /// The stack pointer, for use in specifications.
    pub closed spec fn sp(&self) -> u8 {
        self.stack_pointer
    }

    /// Builds storage from a program image: the image occupies the low
    /// addresses, everything after it reads as zero, and anything beyond the
    /// 16-bit address space is unreachable and dropped.
    pub fn new_with_vec(buffer: Vec<u8>) -> (r: Memory)
        ensures
            r.wf(),
            r.sp() == 0xff,
            forall|i: int| 0 <= i < MEMORY_SIZE ==> r@[i] == (if i < buffer@.len() {
                buffer@[i]
            } else {
                0u8
            }),
    {
        let mut actual: Vec<u8> = Vec::new();
        let mut i: usize = 0;
        while i < MEMORY_SIZE
            invariant
                i <= MEMORY_SIZE,
                actual@.len() == i,
                forall|j: int| 0 <= j < i ==> actual@[j] == (if j < buffer@.len() {
                    buffer@[j]
                } else {
                    0u8
                }),
            decreases MEMORY_SIZE - i,
        {
            if i < buffer.len() {
                actual.push(buffer[i]);
            } else {
                actual.push(0);
            }
            i = i + 1;
        }
        Memory { buffer: actual, stack_pointer: 0xff }
    }

    /// One byte of storage.
    pub fn get(&self, address: u16) -> (r: u8)
        requires
            self.wf(),
        ensures
            r == self@[address as int],
    {
        self.buffer[address as usize]
    }

    /// Unconditional write of one byte.
    pub fn set(&mut self, address: u16, value: u8)
        requires
            old(self).wf(),
        ensures
            final(self).wf(),
            final(self)@ == old(self)@.update(address as int, value),
            final(self).sp() == old(self).sp(),
    {
        self.buffer.set(address as usize, value);
    }

    /// The 16-bit word at `address`, composed little-endian (low byte first);
    /// the high byte's address wraps around the top of the address space.
    pub fn word(&self, address: u16) -> (r: u16)
        requires
            self.wf(),
        ensures
            r == spec_word(self@, address),
    {
        self.get(address) as u16 + self.get(wrap_add16(address, 1)) as u16 * 0x100
    }

    /// The stack pointer's current value (the TSX transfer reads it).
    pub fn sp_value(&self) -> (r: u8)
        ensures
            r == self.sp(),
    {
        self.stack_pointer
    }

    /// Replaces the stack pointer (the TXS transfer); storage is untouched.
    pub fn set_sp(&mut self, v: u8)
        ensures
            final(self).sp() == v,
            final(self)@ == old(self)@,
    {
        self.stack_pointer = v;
    }

    /// Stack-pointer increment, wrapping modulo 256.
    fn inc(&mut self)
        ensures
            final(self).sp() == spec_sp_inc(old(self).sp()),
            final(self)@ == old(self)@,
    {
        if self.stack_pointer == 0xff {
            self.stack_pointer = 0;
        } else {
            self.stack_pointer = self.stack_pointer + 1;
        }
    }

    /// Stack-pointer decrement, wrapping modulo 256.
    fn dec(&mut self)
        ensures
            final(self).sp() == spec_sp_dec(old(self).sp()),
            final(self)@ == old(self)@,
    {
        if self.stack_pointer == 0 {
            self.stack_pointer = 0xff;
        } else {
            self.stack_pointer = self.stack_pointer - 1;
        }
    }

    /// Pushes one byte: writes at the stack pointer's page-one slot, then
    /// decrements the pointer (wrapping).
    pub fn push_byte(&mut self, a: u8)
        requires
            old(self).wf(),
        ensures
            final(self).wf(),
            final(self)@ == old(self)@.update(STACK_ADDRESS + old(self).sp(), a),
            final(self).sp() == spec_sp_dec(old(self).sp()),
    {
        let slot = STACK_ADDRESS + self.stack_pointer as u16;
        self.set(slot, a);
        self.dec();
    }

    /// Pops one byte: increments the pointer (wrapping), then reads that slot.
    pub fn pop_byte(&mut self) -> (r: u8)
        requires
            old(self).wf(),
        ensures
            final(self).wf(),
            final(self)@ == old(self)@,
            final(self).sp() == spec_sp_inc(old(self).sp()),
            r == old(self)@[STACK_ADDRESS + spec_sp_inc(old(self).sp())],
    {
        self.inc();
        let slot = STACK_ADDRESS + self.stack_pointer as u16;
        self.get(slot)
    }

    /// Pushes a 16-bit word, high byte first, so that the pop order is low
    /// byte then high byte.
    pub fn push_word(&mut self, a: u16)
        requires
            old(self).wf(),
        ensures
            final(self).wf(),
            final(self)@ == old(self)@
                .update(STACK_ADDRESS + old(self).sp(), (a / 0x100) as u8)
                .update(STACK_ADDRESS + spec_sp_dec(old(self).sp()), (a % 0x100) as u8),
            final(self).sp() == spec_sp_dec(spec_sp_dec(old(self).sp())),
    {
        self.push_byte((a / 0x100) as u8);
        self.push_byte((a % 0x100) as u8);
    }

    /// Disassembles the instruction at `index`: the rendered line and how
    /// many bytes the instruction occupies (its declared length).
    pub fn disassemble(&self, index: u16) -> (r: (String, usize))
        requires
            self.wf(),
        ensures
            r.0@ == spec_disasm_line(spec_mode_of(self@[index as int]), index, spec_instr_bytes(self@, index)),
            r.1 == spec_instruction_size(self@[index as int]),
    {
        let opcode = self.get(index);
        let size = instruction_size(opcode);
        let mut bytes: Vec<u8> = Vec::new();
        bytes.push(opcode);
        if size >= 2 {
            bytes.push(self.get(wrap_add16(index, 1)));
        }
        if size >= 3 {
            bytes.push(self.get(wrap_add16(index, 2)));
        }
        proof {
            assert(bytes@ =~= spec_instr_bytes(self@, index));
        }
        disassemble3(index, bytes)
    }

    /// Renders the stack pointer and the occupied top of the stack page
    /// (at most the eight slots from offset 0xFF down to 0xF8) for
    /// diagnostics.
    #[verifier::loop_isolation(false)]
    pub fn format_stack(&self) -> (r: String)
        requires
            self.wf(),
        ensures
            r@ == spec_format_stack(self@, self.sp()),
    {
        let sp = self.stack_pointer;
        let mut s = String::from_str("SP={$");
        s.append(hex2_padded(sp).as_str());
        s.append(" stack:[");
        if sp < 0xff {
            let down: u8 = if sp >= 0xf8 {
                sp + 1
            } else {
                0xf8
            };
            let mut i: u16 = 0xff;
            while i >= down as u16
                invariant
                    down as int - 1 <= i <= 0xff,
                    s@ == "SP={$"@ + crate::text::spec_hex2_padded(sp) + " stack:["@
                        + spec_stack_entries(self@, 0xff, i + 1),
                decreases i,
            {
                let v = self.get(0x100 + i);
                s.append(" ");
                s.append(h(i as u8).as_str());
                s.append("=");
                s.append(h(v).as_str());
                proof {
                    lemma_stack_entries_snoc(self@, 0xff, i as int);
                    assert(s@ =~= "SP={$"@ + crate::text::spec_hex2_padded(sp) + " stack:["@
                        + spec_stack_entries(self@, 0xff, i as int));
                }
                i = i - 1;
            }
        }
        s.append(" ]}}");
        proof {
            assert(s@ =~= spec_format_stack(self@, self.sp()));
        }
        s
    }

    /// Pops a 16-bit word: low byte first, then high byte.
    pub fn pop_word(&mut self) -> (r: u16)
        requires
            old(self).wf(),
        ensures
            final(self).wf(),
            final(self)@ == old(self)@,
            final(self).sp() == spec_sp_inc(spec_sp_inc(old(self).sp())),
            r == old(self)@[STACK_ADDRESS + spec_sp_inc(old(self).sp())] as u16
                + old(self)@[STACK_ADDRESS + spec_sp_inc(spec_sp_inc(old(self).sp()))] as u16 * 0x100,
    {
        let low = self.pop_byte() as u16;
        let high = self.pop_byte() as u16;
        low + high * 0x100
    }
}

/// A 16-bit word composed little-endian from two bytes.
pub fn word2(b0: u8, b1: u8) -> (r: u16)
    ensures
        r == b0 + b1 * 0x100,
{
    b0 as u16 + b1 as u16 * 0x100
}

/// Renders one disassembled instruction from its bytes (opcode plus operand
/// bytes, one to three in all) fetched at `index`: the line and the byte
/// count consumed.
pub fn disassemble3(index: u16, bytes: Vec<u8>) -> (r: (String, usize))
    requires
        1 <= bytes@.len() <= 3,
    ensures
        r.0@ == spec_disasm_line(spec_mode_of(bytes@[0]), index, bytes@),
        r.1 == bytes@.len(),
{
    let opcode = bytes[0];
    let name = opcode_name(opcode);
    let addressing_type = mode_of(opcode);
    let mut s = hex4(index);
    s.append(": ");
    s.append(h(opcode).as_str());
    if bytes.len() == 1 {
        s.append("         ");
        s.append(name);
    } else if bytes.len() == 2 {
        s.append(" ");
        s.append(h(bytes[1]).as_str());
        s.append("      ");
        s.append(name);
        s.append(" ");
        s.append(addressing_type.to_string(index, bytes[1], 0).as_str());
    } else {
        s.append(" ");
        s.append(h(bytes[1]).as_str());
        s.append(" ");
        s.append(h(bytes[2]).as_str());
        s.append("   ");
        s.append(name);
        s.append(" ");
        s.append(addressing_type.to_string(index, bytes[1], word2(bytes[1], bytes[2])).as_str());
    }
    proof {
        assert(s@ =~= spec_disasm_line(spec_mode_of(bytes@[0]), index, bytes@));
    }
    (s, bytes.len())
}

} // verus!
