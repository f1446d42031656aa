use km6502::opcode::{decode, Instruction, Mode, Operation, Register};
use km6502::p6502::{Memory, P6502};
use km6502::state::StepResult;

fn run(program: &[u8]) -> P6502 {
    let mut cpu = P6502::default();
    cpu.reset();
    cpu.set_memory(Memory::from_program_vec(program.to_vec()));
    cpu.execute();
    cpu
}

#[test]
fn reset_installs_the_initial_state() {
    let mut cpu = P6502::default();
    cpu.a = 1;
    cpu.x = 2;
    cpu.y = 3;
    cpu.memory.write(0x1234, 0x56);
    cpu.reset();
    assert_eq!(cpu.pc, 0x0600);
    assert_eq!(cpu.sp, 0xff);
    assert_eq!((cpu.a, cpu.x, cpu.y), (0, 0, 0));
    assert_eq!(cpu.flags.as_binary(), 0b00110000);
    assert_eq!(cpu.memory.read(0x1234), 0);
}

#[test]
fn zero_page_x_wraps_inside_the_zero_page() {
    let cpu = run(&[0xa9, 0xab, 0x85, 0x00, 0xa2, 0x01, 0xa9, 0x00, 0xb5, 0xff]);
    assert_eq!(cpu.a, 0xab);
    assert_eq!(cpu.flags.as_binary(), 0xb0);
    assert_eq!(cpu.pc, 0x060a);
}

#[test]
fn branch_with_displacement_0x80_goes_back_128_bytes() {
    let cpu = run(&[0x90, 0x80]);
    assert_eq!(cpu.pc, 0x0602 - 128);
}

#[test]
fn forward_branch_keeps_bit_six_of_the_displacement() {
    let cpu = run(&[0x90, 0x40]);
    assert_eq!(cpu.pc, 0x0642);
}

#[test]
fn stack_pointer_wraps_from_zero() {
    let cpu = run(&[0xa9, 0x5a, 0xa2, 0x00, 0x9a, 0x48, 0xba]);
    assert_eq!(cpu.sp, 0xff);
    assert_eq!(cpu.x, 0xff);
    assert_eq!(cpu.memory.read(0x0100), 0x5a);
}

#[test]
fn stack_pointer_wraps_from_the_top() {
    let mut cpu = P6502::default();
    cpu.reset();
    cpu.set_memory(Memory::from_program_vec(vec![0x68]));
    cpu.memory.write(0x0100, 0x80);
    cpu.execute();
    assert_eq!(cpu.sp, 0x00);
    assert_eq!(cpu.a, 0x80);
    assert_eq!(cpu.flags.as_binary(), 0xb0);
}

#[test]
fn program_counter_wraps_at_the_end_of_memory() {
    let mut cpu = P6502::default();
    cpu.reset();
    cpu.memory.write(0xffff, 0xea);
    cpu.pc = 0xffff;
    assert_eq!(cpu.step(), StepResult::Retired);
    assert_eq!(cpu.pc, 0x0000);
    assert_eq!(cpu.step(), StepResult::Halted);
    assert_eq!(cpu.pc, 0x0000);
}

#[test]
fn halt_leaves_the_program_counter_at_the_halt_byte() {
    let cpu = run(&[0xea, 0xea, 0x00, 0xea]);
    assert_eq!(cpu.pc, 0x0602);
}

#[test]
fn ldy_zero_page_x_loads_y() {
    let cpu = run(&[0xa9, 0x77, 0x85, 0x10, 0xa2, 0x05, 0xb4, 0x0b]);
    assert_eq!(cpu.y, 0x77);
    assert_eq!(cpu.x, 0x05);
}

#[test]
fn ldy_absolute_loads_y() {
    let cpu = run(&[0xa9, 0x42, 0x8d, 0x00, 0x20, 0xac, 0x00, 0x20]);
    assert_eq!(cpu.y, 0x42);
    assert_eq!(cpu.x, 0x00);
}

#[test]
fn ldy_absolute_x_loads_y() {
    let cpu = run(&[0xa9, 0x43, 0x8d, 0x04, 0x20, 0xa2, 0x04, 0xbc, 0x00, 0x20]);
    assert_eq!(cpu.y, 0x43);
    assert_eq!(cpu.x, 0x04);
}

#[test]
fn rotate_left_writes_back_to_memory() {
    let cpu = run(&[0xa9, 0x81, 0x85, 0x20, 0x38, 0x26, 0x20]);
    assert_eq!(cpu.memory.read(0x20), 0x03);
    assert_eq!(cpu.a, 0x81);
    assert_eq!(cpu.flags.as_binary(), 0x31);
}

#[test]
fn rotate_left_of_the_accumulator_sets_negative() {
    let cpu = run(&[0xa9, 0x40, 0x2a]);
    assert_eq!(cpu.a, 0x80);
    assert_eq!(cpu.flags.as_binary(), 0xb0);
}

#[test]
fn rotate_right_of_memory_takes_the_carry_in() {
    let cpu = run(&[0xa9, 0x01, 0x85, 0x30, 0x38, 0x66, 0x30]);
    assert_eq!(cpu.memory.read(0x30), 0x80);
    assert_eq!(cpu.flags.as_binary(), 0xb1);
}

#[test]
fn logical_shift_right_of_memory() {
    let cpu = run(&[0xa9, 0x03, 0x85, 0x30, 0x46, 0x30]);
    assert_eq!(cpu.memory.read(0x30), 0x01);
    assert_eq!(cpu.flags.as_binary(), 0x31);
}

#[test]
fn absolute_x_wraps_at_the_end_of_memory() {
    let cpu = run(&[0xa9, 0x5a, 0x85, 0x01, 0xa2, 0x02, 0xbd, 0xff, 0xff]);
    assert_eq!(cpu.a, 0x5a);
}

#[test]
fn eor_absolute_y_takes_a_two_byte_operand() {
    let cpu = run(&[0xa9, 0x0f, 0x8d, 0x10, 0x02, 0xa0, 0x10, 0xa9, 0xff, 0x59, 0x00, 0x02]);
    assert_eq!(cpu.a, 0xf0);
    assert_eq!(cpu.pc, 0x060c);
}

#[test]
fn and_indirect_indexed_is_an_and() {
    let cpu = run(&[
        0xa9, 0x00, 0x85, 0x40, 0xa9, 0x03, 0x85, 0x41, 0xa9, 0x3c, 0x8d, 0x05, 0x03, 0xa0, 0x05,
        0xa9, 0x0f, 0x31, 0x40,
    ]);
    assert_eq!(cpu.a, 0x0c);
}

#[test]
fn or_sets_the_bits_of_both() {
    let cpu = run(&[0xa9, 0x0f, 0x09, 0xf0]);
    assert_eq!(cpu.a, 0xff);
    assert_eq!(cpu.flags.as_binary(), 0xb0);
}

#[test]
fn stx_zero_page_y_indexes_with_y() {
    let cpu = run(&[0xa2, 0xaa, 0xa0, 0x03, 0x96, 0x10]);
    assert_eq!(cpu.memory.read(0x13), 0xaa);
    assert_eq!(cpu.flags.as_binary(), 0x30);
}

#[test]
fn sta_indirect_indexed_adds_y_to_the_base() {
    let cpu = run(&[
        0xa9, 0xf0, 0x85, 0x40, 0xa9, 0x02, 0x85, 0x41, 0xa0, 0x20, 0xa9, 0x77, 0x91, 0x40,
    ]);
    assert_eq!(cpu.memory.read(0x0310), 0x77);
}

#[test]
fn dec_absolute_x_adds_x() {
    let cpu = run(&[0xa9, 0x05, 0x8d, 0x03, 0x03, 0xa2, 0x03, 0xde, 0x00, 0x03]);
    assert_eq!(cpu.memory.read(0x0303), 0x04);
    assert_eq!(cpu.memory.read(0x0300), 0x00);
}

#[test]
fn inx_wraps_to_zero() {
    let cpu = run(&[0xa2, 0xff, 0xe8]);
    assert_eq!(cpu.x, 0x00);
    assert_eq!(cpu.flags.as_binary(), 0x32);
}

#[test]
fn dey_wraps_from_zero() {
    let cpu = run(&[0x88]);
    assert_eq!(cpu.y, 0xff);
    assert_eq!(cpu.flags.as_binary(), 0xb0);
}

#[test]
fn adc_clears_the_carry_without_a_carry_out() {
    let cpu = run(&[0x38, 0xa9, 0x01, 0x69, 0x01]);
    assert_eq!(cpu.a, 0x03);
    assert_eq!(cpu.flags.as_binary(), 0x30);
}

#[test]
fn adc_clears_the_overflow_without_an_overflow() {
    let cpu = run(&[0xa9, 0x7f, 0x69, 0x01, 0x69, 0x01]);
    assert_eq!(cpu.a, 0x81);
    assert_eq!(cpu.flags.as_binary(), 0xb0);
}

#[test]
fn indexed_indirect_pointer_wraps_inside_the_zero_page() {
    let cpu = run(&[
        0xa9, 0x34, 0x85, 0xff, 0xa9, 0x12, 0x85, 0x00, 0xa9, 0x99, 0x8d, 0x34, 0x12, 0xa2, 0x00,
        0xa9, 0x00, 0xa1, 0xff,
    ]);
    assert_eq!(cpu.a, 0x99);
}

#[test]
fn bit_takes_negative_and_overflow_from_memory() {
    let cpu = run(&[0xa9, 0x40, 0x8d, 0x00, 0x20, 0xa9, 0x0f, 0x2c, 0x00, 0x20]);
    assert_eq!(cpu.a, 0x0f);
    assert_eq!(cpu.flags.as_binary(), 0x72);
}

#[test]
fn compare_with_a_larger_value() {
    let cpu = run(&[0xa9, 0x10, 0xc9, 0x20]);
    assert_eq!(cpu.a, 0x10);
    assert_eq!(cpu.flags.as_binary(), 0xb0);
}

#[test]
fn pushed_flags_have_bit_five_set() {
    let cpu = run(&[0x08, 0x68]);
    assert_eq!(cpu.a, 0x30);
    assert_eq!(cpu.memory.read(0x01ff), 0x30);
}

#[test]
fn subroutine_call_and_return() {
    let cpu = run(&[0x20, 0x06, 0x06, 0xa2, 0x11, 0x00, 0xa0, 0x22, 0x60]);
    assert_eq!(cpu.x, 0x11);
    assert_eq!(cpu.y, 0x22);
    assert_eq!(cpu.pc, 0x0605);
    assert_eq!(cpu.sp, 0xff);
    assert_eq!(cpu.memory.read(0x01ff), 0x06);
    assert_eq!(cpu.memory.read(0x01fe), 0x02);
}

#[test]
fn return_from_interrupt_pulls_flags_then_address() {
    let cpu = run(&[0xa9, 0x06, 0x48, 0xa9, 0x0a, 0x48, 0xa9, 0xc3, 0x48, 0x40, 0xa2, 0x33]);
    assert_eq!(cpu.x, 0x33);
    assert_eq!(cpu.pc, 0x060c);
    assert_eq!(cpu.flags.as_binary(), 0x61);
    assert_eq!(cpu.sp, 0xff);
}

#[test]
fn unknown_opcode_is_reported_and_nothing_changes() {
    let mut cpu = P6502::default();
    cpu.reset();
    cpu.set_memory(Memory::from_program_vec(vec![0xea, 0x02]));
    assert_eq!(cpu.step(), StepResult::Retired);
    let cycles = cpu.cycles;
    assert_eq!(cpu.step(), StepResult::UnknownOpcode(0x02));
    assert_eq!(cpu.pc, 0x0601);
    assert_eq!(cpu.cycles, cycles);
    assert_eq!(cpu.run(10), StepResult::UnknownOpcode(0x02));
    assert_eq!(cpu.pc, 0x0601);
}

#[test]
fn run_stops_at_the_limit() {
    let mut cpu = P6502::default();
    cpu.reset();
    cpu.set_memory(Memory::from_program_vec(vec![0xe8, 0x4c, 0x00, 0x06]));
    assert_eq!(cpu.run(0), StepResult::Retired);
    assert_eq!(cpu.x, 0);
    assert_eq!(cpu.run(10), StepResult::Retired);
    assert_eq!(cpu.x, 5);
    assert_eq!(cpu.pc, 0x0600);
    assert_eq!(cpu.cycles, 25);
}

#[test]
fn run_stops_at_the_halt_opcode() {
    let mut cpu = P6502::default();
    cpu.reset();
    cpu.set_memory(Memory::from_program_vec(vec![0xe8, 0xe8]));
    assert_eq!(cpu.run(100), StepResult::Halted);
    assert_eq!(cpu.x, 2);
    assert_eq!(cpu.pc, 0x0602);
    assert_eq!(cpu.cycles, 4);
}

#[test]
fn load_immediate_takes_two_cycles() {
    let cpu = run(&[0xa9, 0x01]);
    assert_eq!(cpu.cycles, 2);
}

#[test]
fn indexed_read_takes_one_more_cycle_across_a_page() {
    let same_page = run(&[0xa2, 0x01, 0xbd, 0x00, 0x10]);
    assert_eq!(same_page.cycles, 2 + 4);
    let other_page = run(&[0xa2, 0x01, 0xbd, 0xff, 0x10]);
    assert_eq!(other_page.cycles, 2 + 5);
}

#[test]
fn indexed_write_takes_the_same_cycles_across_a_page() {
    let same_page = run(&[0xa2, 0x01, 0x9d, 0x00, 0x10]);
    let other_page = run(&[0xa2, 0x01, 0x9d, 0xff, 0x10]);
    assert_eq!(same_page.cycles, 2 + 5);
    assert_eq!(other_page.cycles, 2 + 5);
}

#[test]
fn branch_cycles_depend_on_taken_and_page() {
    let not_taken = run(&[0xb0, 0x02]);
    assert_eq!(not_taken.cycles, 2);
    let taken = run(&[0x90, 0x02]);
    assert_eq!(taken.cycles, 3);
    assert_eq!(taken.pc, 0x0604);
    let taken_across = run(&[0x90, 0x80]);
    assert_eq!(taken_across.cycles, 4);
}

#[test]
fn cycle_counter_stops_at_its_largest_value() {
    let mut cpu = P6502::default();
    cpu.reset();
    cpu.set_memory(Memory::from_program_vec(vec![0xea, 0xea]));
    cpu.cycles = usize::MAX - 1;
    assert_eq!(cpu.step(), StepResult::Retired);
    assert_eq!(cpu.cycles, usize::MAX);
    assert_eq!(cpu.step(), StepResult::Retired);
    assert_eq!(cpu.cycles, usize::MAX);
}

#[test]
fn decode_knows_the_documented_opcodes() {
    assert_eq!(
        decode(0xa9),
        Some(Instruction { operation: Operation::Load(Register::A), mode: Mode::Immediate })
    );
    assert_eq!(decode(0x00), Some(Instruction { operation: Operation::Halt, mode: Mode::Implied }));
    assert_eq!(decode(0x6c), Some(Instruction { operation: Operation::Jump, mode: Mode::Indirect }));
    assert_eq!(decode(0x02), None);
    assert_eq!(decode(0x89), None);
    let mut assigned = 0;
    for opcode in 0..=255u8 {
        if decode(opcode).is_some() {
            assigned += 1;
        }
    }
    assert_eq!(assigned, 151);
}
