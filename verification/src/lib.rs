//! Instruction-level emulator for an 8-bit 6502-class microprocessor.
//!
//! The crate models the documented instruction set at one-instruction
//! granularity: opcode dispatch, addressing-mode resolution, the
//! arithmetic/logic unit with its flag rules (including binary-coded-decimal
//! arithmetic), the page-one stack discipline, branch and interrupt control
//! flow, and the per-instruction cycle cost with page-crossing penalties.
//!
//! The whole machine step is specified by a pure model (`model::spec_step`);
//! the execution engine (`cpu::Cpu`) is proved to follow that model exactly,
//! one retired instruction at a time.

pub mod constants;
pub mod cpu;
pub mod memory;
pub mod model;
pub mod text;
