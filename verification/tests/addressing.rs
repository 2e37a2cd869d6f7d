use mos6502::cpu::{Cpu, NullListener};
use mos6502::memory::Memory;

fn cpu_with(image: Vec<u8>) -> Cpu<NullListener> {
    Cpu::new(Memory::new_with_vec(image), None)
}

fn step(cpu: &mut Cpu<NullListener>, fetch_pc: u16) -> u64 {
    cpu.pc = fetch_pc;
    cpu.step().unwrap()
}

#[test]
fn zero_page_indexed_wraps_in_page_zero() {
    let mut image = vec![0u8; 0x100];
    image[0x00] = 0xb5; // LDA zero page,X
    image[0x01] = 0xf0;
    image[0x10] = 0x77; // 0xf0 + 0x20 wraps to 0x10
    let mut cpu = cpu_with(image);
    cpu.x = 0x20;
    step(&mut cpu, 0x0000);
    assert_eq!(cpu.a, 0x77);
}

#[test]
fn absolute_indexed_adds_register() {
    let mut image = vec![0u8; 0x300];
    image[0x00] = 0xb9; // LDA absolute,Y
    image[0x01] = 0x00;
    image[0x02] = 0x02;
    image[0x205] = 0x5a;
    let mut cpu = cpu_with(image);
    cpu.y = 0x05;
    step(&mut cpu, 0x0000);
    assert_eq!(cpu.a, 0x5a);
}

#[test]
fn indirect_x_dereferences_pointer_in_page_zero() {
    let mut image = vec![0u8; 0x300];
    image[0x00] = 0xa1; // LDA (indirect,X)
    image[0x01] = 0x20;
    image[0x24] = 0x34; // pointer at 0x20 + X(4)
    image[0x25] = 0x02;
    image[0x234] = 0x99;
    let mut cpu = cpu_with(image);
    cpu.x = 0x04;
    step(&mut cpu, 0x0000);
    assert_eq!(cpu.a, 0x99);
}

#[test]
fn indirect_y_adds_register_to_pointer() {
    let mut image = vec![0u8; 0x300];
    image[0x00] = 0xb1; // LDA (indirect),Y
    image[0x01] = 0x20;
    image[0x20] = 0x30;
    image[0x21] = 0x02;
    image[0x235] = 0x42;
    let mut cpu = cpu_with(image);
    cpu.y = 0x05;
    step(&mut cpu, 0x0000);
    assert_eq!(cpu.a, 0x42);
}

#[test]
fn jmp_indirect_follows_the_pointer() {
    let mut image = vec![0u8; 0x400];
    image[0x00] = 0x6c; // JMP (0x0300)
    image[0x01] = 0x00;
    image[0x02] = 0x03;
    image[0x300] = 0x34;
    image[0x301] = 0x12;
    let mut cpu = cpu_with(image);
    let cycles = step(&mut cpu, 0x0000);
    assert_eq!(cpu.pc, 0x1234);
    assert_eq!(cycles, 5);
}

#[test]
fn logic_operations_set_nz_from_accumulator() {
    let mut image = vec![0u8; 0x20];
    image[0x00] = 0x29; // AND #
    image[0x01] = 0x0f;
    image[0x02] = 0x09; // ORA #
    image[0x03] = 0x80;
    image[0x04] = 0x49; // EOR #
    image[0x05] = 0x8a;
    let mut cpu = cpu_with(image);
    cpu.a = 0xf3;
    step(&mut cpu, 0x0000);
    assert_eq!(cpu.a, 0x03);
    assert!(!cpu.p.n());
    assert!(!cpu.p.z());
    step(&mut cpu, 0x0002);
    assert_eq!(cpu.a, 0x83);
    assert!(cpu.p.n());
    step(&mut cpu, 0x0004);
    assert_eq!(cpu.a, 0x09);
    assert!(!cpu.p.n());
}

#[test]
fn bit_reflects_memory_bits() {
    let mut image = vec![0u8; 0x100];
    image[0x00] = 0x24; // BIT zero page
    image[0x01] = 0x42;
    image[0x42] = 0xc0;
    let mut cpu = cpu_with(image);
    cpu.a = 0x0f;
    step(&mut cpu, 0x0000);
    assert!(cpu.p.z()); // 0xC0 & 0x0F == 0
    assert!(cpu.p.n()); // bit 7 of the memory byte
    assert!(cpu.p.v()); // bit 6 of the memory byte
    assert_eq!(cpu.a, 0x0f); // the accumulator is untouched
}

#[test]
fn inc_dec_memory_wrap_and_set_flags() {
    let mut image = vec![0u8; 0x100];
    image[0x00] = 0xe6; // INC zero page
    image[0x01] = 0x40;
    image[0x02] = 0xc6; // DEC zero page
    image[0x03] = 0x41;
    image[0x40] = 0xff;
    image[0x41] = 0x00;
    let mut cpu = cpu_with(image);
    step(&mut cpu, 0x0000);
    assert_eq!(cpu.memory.get(0x40), 0x00);
    assert!(cpu.p.z());
    step(&mut cpu, 0x0002);
    assert_eq!(cpu.memory.get(0x41), 0xff);
    assert!(cpu.p.n());
}

#[test]
fn cpx_cpy_compare_index_registers() {
    let mut image = vec![0u8; 0x10];
    image[0x00] = 0xe0; // CPX #
    image[0x01] = 0x10;
    image[0x02] = 0xc0; // CPY #
    image[0x03] = 0x10;
    let mut cpu = cpu_with(image);
    cpu.x = 0x10;
    cpu.y = 0x05;
    step(&mut cpu, 0x0000);
    assert!(cpu.p.c());
    assert!(cpu.p.z());
    step(&mut cpu, 0x0002);
    assert!(!cpu.p.c());
    assert!(!cpu.p.z());
    assert!(cpu.p.n());
}

#[test]
fn ldx_ldy_and_stores() {
    let mut image = vec![0u8; 0x100];
    image[0x00] = 0xa2; // LDX #
    image[0x01] = 0x80;
    image[0x02] = 0xa0; // LDY #
    image[0x03] = 0x00;
    image[0x04] = 0x86; // STX zero page
    image[0x05] = 0x50;
    image[0x06] = 0x84; // STY zero page
    image[0x07] = 0x51;
    let mut cpu = cpu_with(image);
    step(&mut cpu, 0x0000);
    assert_eq!(cpu.x, 0x80);
    assert!(cpu.p.n());
    step(&mut cpu, 0x0002);
    assert_eq!(cpu.y, 0x00);
    assert!(cpu.p.z());
    step(&mut cpu, 0x0004);
    step(&mut cpu, 0x0006);
    assert_eq!(cpu.memory.get(0x50), 0x80);
    assert_eq!(cpu.memory.get(0x51), 0x00);
}

#[test]
fn read_modify_write_through_memory() {
    let mut image = vec![0u8; 0x100];
    image[0x00] = 0x06; // ASL zero page
    image[0x01] = 0x40;
    image[0x40] = 0x81;
    let mut cpu = cpu_with(image);
    let cycles = step(&mut cpu, 0x0000);
    assert_eq!(cpu.memory.get(0x40), 0x02);
    assert!(cpu.p.c());
    assert_eq!(cycles, 5);
}

#[test]
fn pha_pla_round_trip_accumulator() {
    let mut image = vec![0u8; 0x10];
    image[0x00] = 0x48; // PHA
    image[0x01] = 0x68; // PLA
    let mut cpu = cpu_with(image);
    cpu.a = 0xcd;
    step(&mut cpu, 0x0000);
    assert_eq!(cpu.memory.get(0x1ff), 0xcd);
    cpu.a = 0x00;
    step(&mut cpu, 0x0001);
    assert_eq!(cpu.a, 0xcd);
    assert!(cpu.p.n());
    assert_eq!(cpu.memory.sp_value(), 0xff);
}
