use km6502::p6502::{Memory, P6502};

fn run(program: &[u8]) -> P6502 {
    let mut cpu = P6502::default();
    cpu.reset();
    cpu.set_memory(Memory::from_program_vec(program.to_vec()));
    cpu.execute();
    cpu
}

#[test]
fn halting_adc_indexed_indirect() {
    let cpu = run(&[
        0xa9, 0xfc, 0x85, 0xb4, 0xa9, 0x1c, 0x85, 0xb5, 0xa9, 0xab, 0x8d, 0xfc, 0x1c, 0xa9, 0xba,
        0xa2, 0x04, 0x61, 0xb0, 0x00,
    ]);
    assert_eq!(cpu.a, 0x65);
    assert_eq!(cpu.flags.as_binary(), 0b01110001);
}

#[test]
fn halting_sbc_immediate() {
    let cpu = run(&[0xa9, 0xab, 0xe9, 0x43, 0x00]);
    assert_eq!(cpu.a, 0x67);
    assert_eq!(cpu.flags.as_binary(), 0b01110001);
}

#[test]
fn halting_jmp_indirect() {
    let cpu = run(&[
        0xa9, 0x01, 0xaa, 0x86, 0x05, 0x69, 0x01, 0x69, 0x01, 0x69, 0x01, 0xaa, 0x86, 0x06, 0x6c,
        0x05, 0x00, 0x00,
    ]);
    assert_eq!(cpu.pc, 0x0401);
    assert_eq!(cpu.a, 0x04);
    assert_eq!(cpu.x, 0x04);
}

#[test]
fn halting_jmp_indirect_page_bug() {
    let cpu = run(&[
        0xa9, 0x40, 0x8d, 0x00, 0x30, 0xa9, 0x80, 0x8d, 0xff, 0x30, 0x6c, 0xff, 0x30, 0x00,
    ]);
    assert_eq!(cpu.pc, 0x4080);
    assert_eq!(cpu.memory.read(0x30ff), 0x80);
    assert_eq!(cpu.memory.read(0x3000), 0x40);
}

#[test]
fn halting_multiplication_by_repeated_addition() {
    let cpu = run(&[
        0xa9, 0x05, 0x85, 0x00, 0xa9, 0x0a, 0x85, 0x01, 0xa9, 0x00, 0x18, 0x65, 0x00, 0xc6, 0x01,
        0xa6, 0x01, 0xe0, 0x00, 0xd0, 0xf5, 0x00,
    ]);
    assert_eq!(cpu.a, 0x32);
    assert_eq!(cpu.flags.as_binary(), 0b00110011);
}

#[test]
fn halting_dex_from_zero() {
    let cpu = run(&[0xca, 0x00]);
    assert_eq!(cpu.x, 0xff);
    assert_eq!(cpu.flags.as_binary(), 0b10110000);
}
