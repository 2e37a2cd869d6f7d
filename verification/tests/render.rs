use mos6502::cpu::{Cpu, NullListener, StatusFlags};
use mos6502::memory::Memory;
use mos6502::text::{hex2_padded, unknown_opcode_message};

#[test]
fn flags_render_with_letters_for_set_flags() {
    let mut p = StatusFlags::new();
    assert_eq!(p.describe(), "P=$20 {---B----}");
    p.set_z(true);
    p.set_c(true);
    assert_eq!(p.describe(), "P=$23 {---B--ZC}");
    p.set_n(true);
    p.set_v(true);
    p.set_d(true);
    p.set_i(true);
    p.set_b(true);
    assert_eq!(p.describe(), "P=$FF {NV-BDIZC}");
}

#[test]
fn stack_renders_the_occupied_top() {
    let mut m = Memory::new_with_vec(Vec::new());
    assert_eq!(m.format_stack(), "SP={$FF stack:[ ]}}");
    m.push_byte(0x55);
    m.push_byte(0xaa);
    assert_eq!(m.format_stack(), "SP={$FD stack:[ FF=55 FE=AA ]}}");
}

#[test]
fn stack_render_shows_at_most_eight_slots() {
    let mut m = Memory::new_with_vec(Vec::new());
    m.set_sp(0x05);
    let line = m.format_stack();
    assert!(line.starts_with("SP={$ 5 stack:[ FF=00 FE=00"));
    assert!(line.ends_with("F8=00 ]}}"));
    // Offsets 0xFF down to 0xF8: eight entries of six characters each.
    assert_eq!(line.len(), "SP={$ 5 stack:[".len() + 8 * 6 + " ]}}".len());
}

#[test]
fn padded_hex_uses_a_space_below_sixteen() {
    assert_eq!(hex2_padded(0x05), " 5");
    assert_eq!(hex2_padded(0x15), "15");
    assert_eq!(hex2_padded(0xff), "FF");
}

#[test]
fn cpu_renders_registers_flags_and_stack() {
    let cpu: Cpu<NullListener> = Cpu::new(Memory::new_with_vec(Vec::new()), None);
    assert_eq!(
        cpu.describe(),
        "A=00 X=00 Y=00 S=FF P=$20 {---B----} SP={$FF stack:[ ]}}"
    );
}

#[test]
fn unknown_opcode_reason_text() {
    assert_eq!(unknown_opcode_message(0x42, 0x0001), "unknown opcode $42 at $0001");
    assert_eq!(unknown_opcode_message(0xff, 0xbeef), "unknown opcode $FF at $BEEF");
}
