use mos6502::constants::{LDA_IMM, NOP, RTS};
use mos6502::cpu::{Cpu, CpuListener, CpuSnapshot, NullListener, RunStatus};
use mos6502::memory::Memory;

fn cpu_with(image: Vec<u8>) -> Cpu<NullListener> {
    Cpu::new(Memory::new_with_vec(image), None)
}

/// Executes the single instruction at `fetch_pc` through the engine's
/// one-instruction step and returns its cycle cost.
fn step(cpu: &mut Cpu<NullListener>, fetch_pc: u16) -> u64 {
    cpu.pc = fetch_pc;
    cpu.step().unwrap()
}

#[test]
fn step_refuses_an_unimplemented_opcode() {
    let mut cpu = cpu_with(vec![0x42, 0x00]);
    assert_eq!(cpu.step(), None);
    // Nothing moved: no byte consumed, no cycle accounted.
    assert_eq!(cpu.pc, 0x0000);
    assert_eq!(cpu.cycles, 0);
}

#[test]
fn pc_advances_by_instruction_length() {
    // A non-jumping instruction leaves the program counter exactly one
    // instruction length further on.
    let mut image = vec![0u8; 0x400];
    image[0x300] = 0xe8; // INX (1 byte)
    image[0x301] = LDA_IMM; // 2 bytes
    image[0x302] = 0x42;
    image[0x303] = 0xad; // LDA absolute (3 bytes)
    let mut cpu = cpu_with(image);
    step(&mut cpu, 0x300);
    assert_eq!(cpu.pc, 0x301);
    step(&mut cpu, 0x301);
    assert_eq!(cpu.pc, 0x303);
    step(&mut cpu, 0x303);
    assert_eq!(cpu.pc, 0x306);
}

#[test]
fn branch_taken_page_cross_costs_two_extra() {
    // A taken branch at 0x00FE landing at 0x0105: the target's page differs
    // from the instruction's page, so it costs base + 2.
    let mut image = vec![0u8; 0x200];
    image[0xfe] = 0xb0; // BCS
    image[0xff] = 0x05;
    let mut cpu = cpu_with(image);
    cpu.p.set_c(true);
    let cycles = step(&mut cpu, 0x00fe);
    assert_eq!(cpu.pc, 0x0105);
    assert_eq!(cycles, 2 + 2);
}

#[test]
fn branch_taken_same_page_costs_one_extra() {
    let mut image = vec![0u8; 0x100];
    image[0x10] = 0xb0; // BCS
    image[0x11] = 0x03;
    let mut cpu = cpu_with(image);
    cpu.p.set_c(true);
    let cycles = step(&mut cpu, 0x0010);
    assert_eq!(cpu.pc, 0x0015);
    assert_eq!(cycles, 2 + 1);
}

#[test]
fn branch_not_taken_costs_nothing_extra() {
    let mut image = vec![0u8; 0x100];
    image[0x10] = 0xb0; // BCS with carry clear
    image[0x11] = 0x03;
    let mut cpu = cpu_with(image);
    let cycles = step(&mut cpu, 0x0010);
    assert_eq!(cpu.pc, 0x0012);
    assert_eq!(cycles, 2);
}

#[test]
fn branch_backwards_displacement() {
    let mut image = vec![0u8; 0x100];
    image[0x20] = 0xd0; // BNE
    image[0x21] = 0xfa; // -6
    let mut cpu = cpu_with(image);
    let cycles = step(&mut cpu, 0x0020);
    // Zero flag clear at power-on, so the branch is taken: 0x22 - 6 = 0x1C.
    assert_eq!(cpu.pc, 0x001c);
    assert_eq!(cycles, 3);
}

#[test]
fn indexed_read_page_cross_penalty() {
    let mut image = vec![0u8; 0x300];
    image[0x00] = 0x7d; // ADC absolute,X at 0x00ff
    image[0x01] = 0xff;
    image[0x02] = 0x00;
    let mut cpu = cpu_with(image);
    cpu.x = 0x01; // 0x00ff + 1 crosses into page 1
    let cycles = step(&mut cpu, 0x0000);
    assert_eq!(cycles, 4 + 1);
    let mut cpu = cpu_with(vec![0x7d, 0x10, 0x00]);
    cpu.x = 0x01; // 0x0010 + 1 stays in page 0
    let cycles = step(&mut cpu, 0x0000);
    assert_eq!(cycles, 4);
}

#[test]
fn jsr_and_rts_round_trip() {
    let mut image = vec![0u8; 0x600];
    image[0x400] = 0x20; // JSR $0500
    image[0x401] = 0x00;
    image[0x402] = 0x05;
    image[0x500] = 0x60; // RTS
    let mut cpu = cpu_with(image);
    step(&mut cpu, 0x400);
    assert_eq!(cpu.pc, 0x0500);
    // JSR pushed the return address minus one.
    assert_eq!(cpu.memory.get(0x1ff), 0x04);
    assert_eq!(cpu.memory.get(0x1fe), 0x02);
    step(&mut cpu, 0x500);
    assert_eq!(cpu.pc, 0x0403);
}

#[test]
fn brk_enters_vector_and_rti_returns() {
    let mut image = vec![0u8; 0x10000];
    image[0x600] = 0x00; // BRK
    image[0x8000] = 0x40; // RTI
    image[0xfffe] = 0x00;
    image[0xffff] = 0x80; // vector -> 0x8000
    let mut cpu = cpu_with(image);
    let cycles = step(&mut cpu, 0x600);
    assert_eq!(cycles, 7);
    assert_eq!(cpu.pc, 0x8000);
    assert!(cpu.p.i());
    // Pushed: the word after the advanced counter, then the status byte
    // with Break and reserved set (Interrupt-disable is set only after the
    // push).
    assert_eq!(cpu.memory.get(0x1ff), 0x06);
    assert_eq!(cpu.memory.get(0x1fe), 0x02);
    assert_eq!(cpu.memory.get(0x1fd), 0x30);
    step(&mut cpu, 0x8000);
    assert_eq!(cpu.pc, 0x0602);
    assert_eq!(cpu.memory.sp_value(), 0xff);
}

#[test]
fn load_store_through_memory() {
    let mut image = vec![0u8; 0x100];
    image[0x00] = 0xa5; // LDA zero page
    image[0x01] = 0x42;
    image[0x42] = 0x99;
    image[0x02] = 0x85; // STA zero page
    image[0x03] = 0x43;
    let mut cpu = cpu_with(image);
    step(&mut cpu, 0x0000);
    assert_eq!(cpu.a, 0x99);
    assert!(cpu.p.n());
    step(&mut cpu, 0x0002);
    assert_eq!(cpu.memory.get(0x43), 0x99);
}

#[test]
fn end_to_end_lda_rts() {
    // The 3-byte program [LDA_IMM, 0x42, RTS] loaded at 0 and run from 0:
    // after LDA the accumulator is 0x42 with Zero and Negative clear; RTS
    // pops the (empty, zero-filled) stack word 0 and adds one, so the run
    // then stops on the unimplemented byte 0x42 at 0x0001.
    let program = vec![LDA_IMM, 0x42, RTS];
    let mut cpu = Cpu::new(Memory::new_with_vec(program), None::<NullListener>);
    let status = cpu.run(0x0);
    assert_eq!(cpu.a, 0x42);
    assert!(!cpu.p.z());
    assert!(!cpu.p.n());
    assert_eq!(cpu.pc, 0x0001);
    match status {
        RunStatus::Stop(success, reason) => {
            assert!(!success);
            assert_eq!(reason, "unknown opcode $42 at $0001");
        },
        RunStatus::Continue => panic!("run returned Continue"),
    }
}

#[test]
fn unknown_opcode_stops_without_executing() {
    let mut cpu = Cpu::new(Memory::new_with_vec(vec![0x42]), None::<NullListener>);
    let status = cpu.run(0x0);
    assert_eq!(cpu.pc, 0x0000);
    assert_eq!(cpu.cycles, 0);
    match status {
        RunStatus::Stop(success, reason) => {
            assert!(!success);
            assert_eq!(reason, "unknown opcode $42 at $0000");
        },
        RunStatus::Continue => panic!("run returned Continue"),
    }
}

struct CountingListener {
    seen: u64,
    limit: u64,
}

impl CpuListener for CountingListener {
    fn on_pc_changed(&mut self, _cpu: &CpuSnapshot) -> RunStatus {
        self.seen += 1;
        if self.seen >= self.limit {
            RunStatus::Stop(true, String::from("limit reached"))
        } else {
            RunStatus::Continue
        }
    }
}

#[test]
fn observer_stops_the_run() {
    let program = vec![NOP, NOP, NOP, NOP, NOP];
    let listener = CountingListener { seen: 0, limit: 3 };
    let mut cpu = Cpu::new(Memory::new_with_vec(program), Some(listener));
    let status = cpu.run(0x0);
    assert_eq!(cpu.pc, 0x0003);
    assert_eq!(cpu.cycles, 6); // three NOPs at 2 cycles each
    match status {
        RunStatus::Stop(success, reason) => {
            assert!(success);
            assert_eq!(reason, "limit reached");
        },
        RunStatus::Continue => panic!("run returned Continue"),
    }
}

#[test]
fn observer_sees_the_snapshot() {
    struct SnapshotChecker;
    impl CpuListener for SnapshotChecker {
        fn on_pc_changed(&mut self, cpu: &CpuSnapshot) -> RunStatus {
            assert_eq!(cpu.a, 0x42);
            assert_eq!(cpu.pc, 0x0002);
            assert_eq!(cpu.cycles, 2);
            assert_eq!(cpu.sp, 0xff);
            RunStatus::Stop(true, String::from("checked"))
        }
    }
    let program = vec![LDA_IMM, 0x42];
    let mut cpu = Cpu::new(Memory::new_with_vec(program), Some(SnapshotChecker));
    let status = cpu.run(0x0);
    assert!(matches!(status, RunStatus::Stop(true, _)));
}

#[test]
fn transfers_and_index_arithmetic() {
    let mut image = vec![0u8; 0x20];
    image[0x00] = 0xaa; // TAX
    image[0x01] = 0xe8; // INX
    image[0x02] = 0xca; // DEX
    image[0x03] = 0x88; // DEY (wraps 0 -> 0xFF)
    image[0x04] = 0x9a; // TXS
    image[0x05] = 0xba; // TSX
    let mut cpu = cpu_with(image);
    cpu.a = 0x7f;
    step(&mut cpu, 0x00);
    assert_eq!(cpu.x, 0x7f);
    step(&mut cpu, 0x01);
    assert_eq!(cpu.x, 0x80);
    assert!(cpu.p.n());
    step(&mut cpu, 0x02);
    assert_eq!(cpu.x, 0x7f);
    step(&mut cpu, 0x03);
    assert_eq!(cpu.y, 0xff);
    assert!(cpu.p.n());
    step(&mut cpu, 0x04);
    assert_eq!(cpu.memory.sp_value(), 0x7f);
    cpu.memory.set_sp(0x33);
    step(&mut cpu, 0x05);
    assert_eq!(cpu.x, 0x33);
}

#[test]
fn php_plp_keep_flags_with_break_set() {
    let mut image = vec![0u8; 0x10];
    image[0x00] = 0x08; // PHP
    image[0x01] = 0x28; // PLP
    let mut cpu = cpu_with(image);
    cpu.p.set_n(true);
    cpu.p.set_c(true);
    step(&mut cpu, 0x00);
    assert_eq!(cpu.memory.get(0x1ff), 0x80 | 0x30 | 0x01);
    cpu.p.set_n(false);
    cpu.p.set_c(false);
    step(&mut cpu, 0x01);
    assert!(cpu.p.n());
    assert!(cpu.p.c());
    assert_eq!(cpu.p.value(), 0x80 | 0x30 | 0x01);
}
