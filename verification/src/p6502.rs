//! The processor: registers, flags, memory and the interpreter that runs
//! programs on them.

use vstd::prelude::*;
use crate::alu::{adc, asl, compare, lsr, rol, ror, sbc, Shifted, Sum};
use crate::flags::lemma_masks;
use crate::laws::{lemma_cycles_monotonic, lemma_step_cycles};
pub use crate::flags::P6502Flags;
pub use crate::memory::Memory;
use crate::memory::{zeroed, PROGRAM_START};
use crate::opcode::{
    decode, Flag, Instruction, Logic, Mode, Operation, Register, Shift, StackItem, Transfer,
};
use crate::state::{
    lemma_final_state, lemma_run_fixed, lemma_run_split, CpuState, Operand, StepResult,
};

verus! {

/// The first address of the stack page.
pub const STACK_PAGE: u16 = 0x0100;

/// A 6502 processor together with the memory it is wired to.
pub struct P6502 {
    /// Program counter
    pub pc: u16,
    /// Stack pointer
    pub sp: u8,
    /// Accumulator
    pub a: u8,
    /// Register X
    pub x: u8,
    /// Register Y
    pub y: u8,
    /// Processor flags
    pub flags: P6502Flags,
    /// The memory associated to the CPU
    pub memory: Memory,
    /// The number of cycles consumed by the CPU
    pub cycles: usize,
}

impl View for P6502 {
    type V = CpuState;

    open spec fn view(&self) -> CpuState {
        CpuState {
            pc: self.pc,
            sp: self.sp,
            a: self.a,
            x: self.x,
            y: self.y,
            flags: self.flags,
            memory: self.memory@,
            cycles: self.cycles,
        }
    }
}

impl Default for P6502 {
    fn default() -> (cpu: Self)
        ensures
            cpu@ == (CpuState {
                pc: 0,
                sp: 0,
                a: 0,
                x: 0,
                y: 0,
                flags: P6502Flags::cleared(),
                memory: zeroed(),
                cycles: 0,
            }),
    {
        Self {
            pc: 0,
            sp: 0,
            a: 0,
            x: 0,
            y: 0,
            flags: P6502Flags::default(),
            memory: Memory::default(),
            cycles: 0,
        }
    }
}

/// Joins two bytes into a word.
fn make_word(low: u8, high: u8) -> (joined: u16)
    ensures
        joined == crate::state::word(low, high),
{
    assert((high as u16) << 8 | (low as u16) == high * 0x100 + low) by (bit_vector);
    (high as u16) << 8 | (low as u16)
}

impl P6502 {
    /// Keeps track of the CPU's clock ticks.
    fn clock_tick(&mut self, ticks: usize)
        ensures
            final(self)@ == old(self)@.ticked(ticks as int),
    {
        self.cycles = self.cycles.saturating_add(ticks);
    }

    /// Sets the memory to another
    pub fn set_memory(&mut self, memory: Memory)
        ensures
            final(self)@ == (CpuState { memory: memory@, ..old(self)@ }),
    {
        self.memory = memory;
    }

    /// Reads and returns the content of the specified memory location.
    fn read_byte_from_addr(&self, addr: u16) -> (data: u8)
        ensures
            data == self@.byte_at(addr),
    {
        self.memory.read(addr as usize)
    }

    /// Reads and returns as one 16-bit number the contents of two
    /// contiguous memory locations.
    fn read_word_from_addr(&self, addr: u16) -> (data: u16)
        ensures
            data == self@.word_at(addr),
    {
        let low: u8 = self.read_byte_from_addr(addr);
        let high: u8 = self.read_byte_from_addr(addr.wrapping_add(1));
        make_word(low, high)
    }

    /// Reads a 16-bit number from the zero page, staying inside that page.
    fn read_zero_page_word(&self, addr: u8) -> (data: u16)
        ensures
            data == self@.zero_page_word_at(addr),
    {
        let low: u8 = self.read_byte_from_addr(addr as u16);
        let high: u8 = self.read_byte_from_addr(addr.wrapping_add(1) as u16);
        make_word(low, high)
    }

    /// Writes one byte to the specified memory location.
    fn write_byte_to_addr(&mut self, addr: u16, data: u8)
        ensures
            final(self)@ == old(self)@.with_byte(addr, data),
    {
        self.memory.write(addr as usize, data);
    }

    /// Reads the next byte from memory and increments the Program Counter.
    fn next_byte(&mut self) -> (data: u8)
        ensures
            data == old(self)@.byte_at(old(self).pc),
            final(self)@ == old(self)@.advanced(1),
    {
        let data: u8 = self.read_byte_from_addr(self.pc);
        self.pc = self.pc.wrapping_add(1);
        data
    }

    /// Reads the next two bytes from memory and increments the Program
    /// Counter two times.
    fn next_word(&mut self) -> (data: u16)
        ensures
            data == old(self)@.word_at(old(self).pc),
            final(self)@ == old(self)@.advanced(2),
    {
        let data: u16 = self.read_word_from_addr(self.pc);
        self.pc = self.pc.wrapping_add(2);
        data
    }

    /// Pushes one byte onto the stack and decrements the Stack Pointer.
    fn push_byte(&mut self, data: u8)
        ensures
            final(self)@ == old(self)@.pushed(data),
    {
        self.write_byte_to_addr(STACK_PAGE + self.sp as u16, data);
        self.sp = self.sp.wrapping_sub(1);
    }

    /// Increments the Stack Pointer and pulls one byte from the stack.
    fn pull_byte(&mut self) -> (data: u8)
        ensures
            final(self)@ == old(self)@.pulled(),
            data == final(self)@.top(),
    {
        self.sp = self.sp.wrapping_add(1);
        self.read_byte_from_addr(STACK_PAGE + self.sp as u16)
    }

    /// Pushes two bytes onto the stack, the high byte first.
    fn push_word(&mut self, data: u16)
        ensures
            final(self)@ == old(self)@.word_pushed(data),
    {
        assert(data >> 8 == data / 0x100) by (bit_vector);
        assert(data & 0x00FF == data % 0x100) by (bit_vector);
        let msb: u8 = (data >> 8) as u8;
        let lsb: u8 = (data & 0x00FF) as u8;
        self.push_byte(msb);
        self.push_byte(lsb);
    }

    /// Pulls two bytes from the stack, the low byte first.
    fn pull_word(&mut self) -> (data: u16)
        ensures
            data == old(self)@.top_word(),
            final(self)@ == old(self)@.word_pulled(),
    {
        let lsb: u8 = self.pull_byte();
        let msb: u8 = self.pull_byte();
        make_word(lsb, msb)
    }
}


/// Whether two addresses lie in different pages.
fn page_differs(from: u16, to: u16) -> (differs: bool)
    ensures
        differs == (crate::state::page(from) != crate::state::page(to)),
{
    assert((from & 0xFF00 != to & 0xFF00) == (from / 0x100 != to / 0x100)) by (bit_vector);
    from & 0xFF00 != to & 0xFF00
}

/// Adds an index to a base address and tells whether that changed the page.
fn index_address(base: u16, index: u8) -> (operand: Operand)
    ensures
        operand == crate::state::indexed(base, index),
{
    let address: u16 = base.wrapping_add(index as u16);
    Operand { address, page_crossed: page_differs(base, address) }
}

fn read_cost(mode: Mode) -> (cost: usize)
    ensures
        cost == crate::state::read_cycles(mode),
{
    match mode {
        Mode::ZeroPage => 3,
        Mode::ZeroPageX | Mode::ZeroPageY | Mode::Absolute | Mode::AbsoluteX | Mode::AbsoluteY => 4,
        Mode::IndirectIndexed => 5,
        Mode::IndexedIndirect => 6,
        _ => 2,
    }
}

fn write_cost(mode: Mode) -> (cost: usize)
    ensures
        cost == crate::state::write_cycles(mode),
{
    match mode {
        Mode::ZeroPage => 3,
        Mode::ZeroPageX | Mode::ZeroPageY | Mode::Absolute => 4,
        Mode::AbsoluteX | Mode::AbsoluteY => 5,
        Mode::IndexedIndirect | Mode::IndirectIndexed => 6,
        _ => 2,
    }
}

fn modify_cost(mode: Mode) -> (cost: usize)
    ensures
        cost == crate::state::modify_cycles(mode),
{
    match mode {
        Mode::ZeroPage => 5,
        Mode::ZeroPageX | Mode::Absolute => 6,
        Mode::AbsoluteX => 7,
        _ => 2,
    }
}

/// The cycles that an instruction takes, a taken branch's extra cycles left
/// aside.
pub fn cycle_cost(instruction: Instruction, page_crossed: bool) -> (cost: usize)
    ensures
        cost == crate::state::instruction_cycles(instruction, page_crossed),
{
    match instruction.operation {
        Operation::Load(_)
        | Operation::Add
        | Operation::Subtract
        | Operation::Compare(_)
        | Operation::Logic(_)
        | Operation::BitTest => {
            let base: usize = read_cost(instruction.mode);
            if page_crossed {
                base + 1
            } else {
                base
            }
        },
        Operation::Store(_) => write_cost(instruction.mode),
        Operation::Shift(_) | Operation::Increment | Operation::Decrement => modify_cost(
            instruction.mode,
        ),
        Operation::Push(_) => 3,
        Operation::Pull(_) => 4,
        Operation::Jump => match instruction.mode {
            Mode::Indirect => 5,
            _ => 3,
        },
        Operation::Call | Operation::Return | Operation::ReturnFromInterrupt => 6,
        _ => 2,
    }
}

impl P6502 {
    /// Parses a (ADDR),Y indirect indexing operand.
    fn parse_indirect_indexing_addr(&self, indirect: u8) -> (operand: Operand)
        ensures
            operand == crate::state::indexed(self@.zero_page_word_at(indirect), self.y),
    {
        let base: u16 = self.read_zero_page_word(indirect);
        index_address(base, self.y)
    }

    /// Parses a (ADDR,X) indexed indirect operand.
    fn parse_indexed_indirect_addr(&self, indirect_addr: u8) -> (addr: u16)
        ensures
            addr == self@.zero_page_word_at(crate::alu::low_byte(indirect_addr + self.x)),
    {
        self.read_zero_page_word(indirect_addr.wrapping_add(self.x))
    }

    /// Reads the target of an indirect jump. The high byte is read from the
    /// page of the low byte, also when the pointer ends in `0xFF`.
    fn read_jump_vector(&self, pointer: u16) -> (target: u16)
        ensures
            target == self@.jump_vector_at(pointer),
    {
        assert(pointer & 0x00FF == pointer % 0x100) by (bit_vector);
        assert(pointer & 0xFF00 == (pointer / 0x100) * 0x100) by (bit_vector);
        if pointer & 0x00FF == 0x00FF {
            let lsb: u8 = self.read_byte_from_addr(pointer);
            let msb: u8 = self.read_byte_from_addr(pointer & 0xFF00);
            make_word(lsb, msb)
        } else {
            self.read_word_from_addr(pointer)
        }
    }

    /// Locates the operand of an instruction and moves the Program Counter
    /// behind the operand bytes.
    fn resolve(&mut self, mode: Mode) -> (operand: Operand)
        ensures
            operand == old(self)@.operand(mode),
            final(self)@ == old(self)@.advanced(crate::opcode::operand_length(mode)),
    {
        match mode {
            Mode::Implied | Mode::Accumulator => Operand { address: 0, page_crossed: false },
            Mode::Immediate | Mode::Relative => {
                let address: u16 = self.pc;
                self.pc = self.pc.wrapping_add(1);
                Operand { address, page_crossed: false }
            },
            Mode::ZeroPage => {
                let zp_addr: u8 = self.next_byte();
                Operand { address: zp_addr as u16, page_crossed: false }
            },
            Mode::ZeroPageX => {
                let zp_addr: u8 = self.next_byte();
                Operand { address: zp_addr.wrapping_add(self.x) as u16, page_crossed: false }
            },
            Mode::ZeroPageY => {
                let zp_addr: u8 = self.next_byte();
                Operand { address: zp_addr.wrapping_add(self.y) as u16, page_crossed: false }
            },
            Mode::Absolute => {
                let addr: u16 = self.next_word();
                Operand { address: addr, page_crossed: false }
            },
            Mode::AbsoluteX => {
                let addr: u16 = self.next_word();
                index_address(addr, self.x)
            },
            Mode::AbsoluteY => {
                let addr: u16 = self.next_word();
                index_address(addr, self.y)
            },
            Mode::Indirect => {
                let indirect_addr: u16 = self.next_word();
                Operand { address: self.read_jump_vector(indirect_addr), page_crossed: false }
            },
            Mode::IndexedIndirect => {
                let indirect: u8 = self.next_byte();
                Operand { address: self.parse_indexed_indirect_addr(indirect), page_crossed: false }
            },
            Mode::IndirectIndexed => {
                let indirect: u8 = self.next_byte();
                self.parse_indirect_indexing_addr(indirect)
            },
        }
    }
}


impl P6502 {
    /// The content of a register.
    fn register(&self, register: Register) -> (value: u8)
        ensures
            value == self@.register(register),
    {
        match register {
            Register::A => self.a,
            Register::X => self.x,
            Register::Y => self.y,
        }
    }

    /// Puts a value into a register.
    fn set_register(&mut self, register: Register, value: u8)
        ensures
            final(self)@ == old(self)@.with_register(register, value),
    {
        match register {
            Register::A => {
                self.a = value;
            },
            Register::X => {
                self.x = value;
            },
            Register::Y => {
                self.y = value;
            },
        }
    }

    /// Sets the zero and negative flags from a value.
    fn set_zero_and_negative(&mut self, value: u8)
        ensures
            final(self)@ == old(self)@.with_nz(value),
    {
        self.flags.z = value == 0;
        self.flags.n = value >= 0x80;
    }

    /// The value of a flag.
    fn flag(&self, flag: Flag) -> (value: bool)
        ensures
            value == self@.flag(flag),
    {
        match flag {
            Flag::Carry => self.flags.c,
            Flag::Zero => self.flags.z,
            Flag::Interrupt => self.flags.i,
            Flag::Decimal => self.flags.d,
            Flag::Overflow => self.flags.v,
            Flag::Negative => self.flags.n,
        }
    }

    /// Gives a flag a value.
    fn set_flag(&mut self, flag: Flag, value: bool)
        ensures
            final(self)@ == old(self)@.with_flag(flag, value),
    {
        match flag {
            Flag::Carry => {
                self.flags.c = value;
            },
            Flag::Zero => {
                self.flags.z = value;
            },
            Flag::Interrupt => {
                self.flags.i = value;
            },
            Flag::Decimal => {
                self.flags.d = value;
            },
            Flag::Overflow => {
                self.flags.v = value;
            },
            Flag::Negative => {
                self.flags.n = value;
            },
        }
    }

    /// Loads a register from a memory location.
    fn load(&mut self, register: Register, addr: u16)
        ensures
            final(self)@ == old(self)@.loaded(register, addr),
    {
        let value: u8 = self.read_byte_from_addr(addr);
        self.set_register(register, value);
        self.set_zero_and_negative(value);
    }

    /// Stores a register to a memory location.
    fn store(&mut self, register: Register, addr: u16)
        ensures
            final(self)@ == old(self)@.stored(register, addr),
    {
        let value: u8 = self.register(register);
        self.write_byte_to_addr(addr, value);
    }

    /// Copies one register to another.
    fn transfer(&mut self, transfer: Transfer)
        ensures
            final(self)@ == old(self)@.transferred(transfer),
    {
        match transfer {
            Transfer::AToX => {
                self.x = self.a;
                self.set_zero_and_negative(self.a);
            },
            Transfer::AToY => {
                self.y = self.a;
                self.set_zero_and_negative(self.a);
            },
            Transfer::XToA => {
                self.a = self.x;
                self.set_zero_and_negative(self.x);
            },
            Transfer::YToA => {
                self.a = self.y;
                self.set_zero_and_negative(self.y);
            },
            Transfer::SpToX => {
                self.x = self.sp;
                self.set_zero_and_negative(self.sp);
            },
            Transfer::XToSp => {
                self.sp = self.x;
            },
        }
    }

    /// Puts the outcome of an addition or subtraction into the accumulator
    /// and the flags.
    fn set_sum(&mut self, sum: Sum)
        ensures
            final(self)@ == old(self)@.with_sum(sum),
    {
        self.a = sum.value;
        self.flags.c = sum.carry;
        self.flags.v = sum.overflow;
        self.flags.z = sum.value == 0;
        self.flags.n = sum.value >= 0x80;
    }

    /// Performs the addition with carry in the accumulator with another
    /// value and sets all flags appropriately.
    fn add_with_carry(&mut self, value: u8)
        ensures
            final(self)@ == old(self)@.added(value),
    {
        let sum: Sum = adc(self.a, value, self.flags.c);
        self.set_sum(sum);
    }

    /// Performs the substraction with carry in the accumulator with another
    /// value and sets all flags appropriately.
    fn substract_with_carry(&mut self, value: u8)
        ensures
            final(self)@ == old(self)@.subtracted(value),
    {
        let difference: Sum = sbc(self.a, value, self.flags.c);
        self.set_sum(difference);
    }

    /// Compares a register with a value.
    fn compare_register(&mut self, register: Register, value: u8)
        ensures
            final(self)@ == old(self)@.compared(register, value),
    {
        let outcome = compare(self.register(register), value);
        self.flags.c = outcome.carry;
        self.flags.z = outcome.zero;
        self.flags.n = outcome.negative;
    }

    /// Combines the accumulator bitwise with a value.
    fn combine(&mut self, logic: Logic, value: u8)
        ensures
            final(self)@ == old(self)@.combined(logic, value),
    {
        let result: u8 = match logic {
            Logic::And => self.a & value,
            Logic::Or => self.a | value,
            Logic::ExclusiveOr => self.a ^ value,
        };
        self.a = result;
        self.set_zero_and_negative(result);
    }

    /// Tests the bits of a value against the accumulator.
    fn bit_test(&mut self, value: u8)
        ensures
            final(self)@ == old(self)@.bit_tested(value),
    {
        proof {
            lemma_masks(value);
        }
        self.flags.z = self.a & value == 0;
        self.flags.v = value & 0b0100_0000 != 0;
        self.flags.n = value >= 0x80;
    }

    /// Shifts or rotates a value with the current carry.
    fn shift_value(&self, shift: Shift, value: u8) -> (outcome: Shifted)
        ensures
            outcome == crate::state::shift_result(shift, value, self.flags.c),
    {
        match shift {
            Shift::Left => asl(value),
            Shift::Right => lsr(value),
            Shift::RotateLeft => rol(value, self.flags.c),
            Shift::RotateRight => ror(value, self.flags.c),
        }
    }

    /// Shifts or rotates the accumulator.
    fn shift_accumulator(&mut self, shift: Shift)
        ensures
            final(self)@ == old(self)@.accumulator_shifted(shift),
    {
        let outcome: Shifted = self.shift_value(shift, self.a);
        self.a = outcome.value;
        self.flags.c = outcome.carry;
        self.set_zero_and_negative(outcome.value);
    }

    /// Shifts or rotates the contents of a memory location.
    fn shift_memory(&mut self, shift: Shift, addr: u16)
        ensures
            final(self)@ == old(self)@.memory_shifted(shift, addr),
    {
        let value: u8 = self.read_byte_from_addr(addr);
        let outcome: Shifted = self.shift_value(shift, value);
        self.write_byte_to_addr(addr, outcome.value);
        self.flags.c = outcome.carry;
        self.set_zero_and_negative(outcome.value);
    }

    /// Rotates to the left by one bit the contents of a memory location.
    fn rotate_left_memory(&mut self, addr: u16)
        ensures
            final(self)@ == old(self)@.memory_shifted(Shift::RotateLeft, addr),
    {
        self.shift_memory(Shift::RotateLeft, addr);
    }

    /// Rotates to the right by one bit the contents of a memory location.
    fn rotate_right_memory(&mut self, addr: u16)
        ensures
            final(self)@ == old(self)@.memory_shifted(Shift::RotateRight, addr),
    {
        self.shift_memory(Shift::RotateRight, addr);
    }

    /// Shifts left by one bit the contents of a memory location.
    fn shift_left_memory(&mut self, addr: u16)
        ensures
            final(self)@ == old(self)@.memory_shifted(Shift::Left, addr),
    {
        self.shift_memory(Shift::Left, addr);
    }

    /// Performs the LSR on a memory location.
    fn logical_shift_right_memory(&mut self, addr: u16)
        ensures
            final(self)@ == old(self)@.memory_shifted(Shift::Right, addr),
    {
        self.shift_memory(Shift::Right, addr);
    }

    /// Increments the value of a memory location. Wraps when necessary.
    fn increment_memory(&mut self, addr: u16)
        ensures
            final(self)@ == old(self)@.memory_stepped(addr, 1),
    {
        let current_value: u8 = self.read_byte_from_addr(addr);
        let new_value: u8 = current_value.wrapping_add(1);
        self.write_byte_to_addr(addr, new_value);
        self.set_zero_and_negative(new_value);
    }

    /// Decrements the value of a memory location. Wraps when necessary.
    fn decrement_memory(&mut self, addr: u16)
        ensures
            final(self)@ == old(self)@.memory_stepped(addr, -1),
    {
        let current_value: u8 = self.read_byte_from_addr(addr);
        let new_value: u8 = current_value.wrapping_sub(1);
        self.write_byte_to_addr(addr, new_value);
        self.set_zero_and_negative(new_value);
    }

    /// Increments a register. Wraps when necessary.
    fn increment_register(&mut self, register: Register)
        ensures
            final(self)@ == old(self)@.register_stepped(register, 1),
    {
        let new_value: u8 = self.register(register).wrapping_add(1);
        self.set_register(register, new_value);
        self.set_zero_and_negative(new_value);
    }

    /// Decrements a register. Wraps when necessary.
    fn decrement_register(&mut self, register: Register)
        ensures
            final(self)@ == old(self)@.register_stepped(register, -1),
    {
        let new_value: u8 = self.register(register).wrapping_sub(1);
        self.set_register(register, new_value);
        self.set_zero_and_negative(new_value);
    }

    /// Performs a relative jump from a signed 8-bit address.
    fn relative_jump(&mut self, jump_addr: u8)
        ensures
            final(self)@ == old(self)@.branched(jump_addr),
    {
        let old_pc: u16 = self.pc;
        if jump_addr < 0x80 {
            self.pc = old_pc.wrapping_add(jump_addr as u16);
        } else {
            self.pc = old_pc.wrapping_sub(0x100 - jump_addr as u16);
        }
        // Check if the old page and the new one match.
        if page_differs(old_pc, self.pc) {
            self.clock_tick(2);
        } else {
            self.clock_tick(1);
        }
    }

    /// Jumps to a subroutine, leaving the address of the instruction's last
    /// byte on the stack.
    fn call(&mut self, addr: u16)
        ensures
            final(self)@ == old(self)@.called(addr),
    {
        self.push_word(self.pc.wrapping_sub(1));
        self.pc = addr;
    }

    /// Returns from a subroutine.
    fn return_from_subroutine(&mut self)
        ensures
            final(self)@ == old(self)@.returned(),
    {
        let addr: u16 = self.pull_word();
        self.pc = addr.wrapping_add(1);
    }

    /// Returns from an interrupt.
    fn return_from_interrupt(&mut self)
        ensures
            final(self)@ == old(self)@.interrupt_returned(),
    {
        let bin_flags: u8 = self.pull_byte();
        let new_pc: u16 = self.pull_word();
        self.flags = P6502Flags::from_binary(bin_flags);
        self.pc = new_pc;
    }

    /// Pushes the accumulator or the flags.
    fn push_item(&mut self, item: StackItem)
        ensures
            final(self)@ == old(self)@.item_pushed(item),
    {
        match item {
            StackItem::Accumulator => {
                self.push_byte(self.a);
            },
            StackItem::Status => {
                self.push_byte(self.flags.as_binary());
            },
        }
    }

    /// Pulls the accumulator or the flags.
    fn pull_item(&mut self, item: StackItem)
        ensures
            final(self)@ == old(self)@.item_pulled(item),
    {
        let value: u8 = self.pull_byte();
        match item {
            StackItem::Accumulator => {
                self.a = value;
                self.set_zero_and_negative(value);
            },
            StackItem::Status => {
                self.flags = P6502Flags::from_binary(value);
            },
        }
    }
}


/// The state that a reset leaves: the program counter at `PROGRAM_START`,
/// the stack empty, the registers zero, only the break flag set and the
/// memory zeroed. The cycle counter keeps its value.
pub open spec fn reset_state(cycles: usize) -> CpuState {
    CpuState {
        pc: PROGRAM_START,
        sp: 0xFF,
        a: 0,
        x: 0,
        y: 0,
        flags: P6502Flags { b: true, ..P6502Flags::cleared() },
        memory: zeroed(),
        cycles,
    }
}

impl P6502 {
    /// Resets the CPU by:
    /// - Erasing the memory (all memory is set to zero).
    /// - Setting the Program Counter to the default program start address.
    /// - Setting the Stack Pointer to $FF (initial position).
    /// - Setting the registers to zero.
    /// - Setting all flags to false except for the B-flag, which is set.
    pub fn reset(&mut self)
        ensures
            final(self)@ == reset_state(old(self).cycles),
    {
        self.pc = PROGRAM_START;
        self.flags = P6502Flags::default();
        self.flags.b = true;
        self.sp = 0xFF;
        self.a = 0;
        self.x = 0;
        self.y = 0;
        self.memory.clear();
    }

    /// Applies an operation to its operand. The Program Counter stands
    /// behind the instruction.
    fn perform(&mut self, instruction: Instruction, operand: Operand)
        ensures
            final(self)@ == old(self)@.applied(instruction, operand),
    {
        let addr: u16 = operand.address;
        match instruction.operation {
            Operation::Halt | Operation::NoOperation => {},
            Operation::Load(register) => {
                self.load(register, addr);
            },
            Operation::Store(register) => {
                self.store(register, addr);
            },
            Operation::Transfer(transfer) => {
                self.transfer(transfer);
            },
            Operation::Add => {
                let value: u8 = self.read_byte_from_addr(addr);
                self.add_with_carry(value);
            },
            Operation::Subtract => {
                let value: u8 = self.read_byte_from_addr(addr);
                self.substract_with_carry(value);
            },
            Operation::Compare(register) => {
                let value: u8 = self.read_byte_from_addr(addr);
                self.compare_register(register, value);
            },
            Operation::Logic(logic) => {
                let value: u8 = self.read_byte_from_addr(addr);
                self.combine(logic, value);
            },
            Operation::BitTest => {
                let value: u8 = self.read_byte_from_addr(addr);
                self.bit_test(value);
            },
            Operation::Shift(shift) => match instruction.mode {
                Mode::Accumulator => {
                    self.shift_accumulator(shift);
                },
                _ => match shift {
                    Shift::Left => {
                        self.shift_left_memory(addr);
                    },
                    Shift::Right => {
                        self.logical_shift_right_memory(addr);
                    },
                    Shift::RotateLeft => {
                        self.rotate_left_memory(addr);
                    },
                    Shift::RotateRight => {
                        self.rotate_right_memory(addr);
                    },
                },
            },
            Operation::Increment => {
                self.increment_memory(addr);
            },
            Operation::Decrement => {
                self.decrement_memory(addr);
            },
            Operation::IncrementRegister(register) => {
                self.increment_register(register);
            },
            Operation::DecrementRegister(register) => {
                self.decrement_register(register);
            },
            Operation::Branch(flag, wanted) => {
                let jump_addr: u8 = self.read_byte_from_addr(addr);
                if self.flag(flag) == wanted {
                    self.relative_jump(jump_addr);
                }
            },
            Operation::Jump => {
                self.pc = addr;
            },
            Operation::Call => {
                self.call(addr);
            },
            Operation::Return => {
                self.return_from_subroutine();
            },
            Operation::ReturnFromInterrupt => {
                self.return_from_interrupt();
            },
            Operation::Push(item) => {
                self.push_item(item);
            },
            Operation::Pull(item) => {
                self.pull_item(item);
            },
            Operation::SetFlag(flag, value) => {
                self.set_flag(flag, value);
            },
        }
    }

    /// Fetches the opcode at the Program Counter and executes the
    /// instruction it stands for. At the halt opcode and at an unassigned
    /// opcode nothing is executed and the state stays as it was, with the
    /// Program Counter at that opcode.
    pub fn step(&mut self) -> (result: StepResult)
        ensures
            final(self)@ == old(self)@.step(),
            result == old(self)@.step_result(),
            final(self).cycles >= old(self).cycles,
    {
        proof {
            lemma_step_cycles(self@);
        }
        let opcode: u8 = self.next_byte();
        match decode(opcode) {
            None => {
                self.pc = self.pc.wrapping_sub(1);
                StepResult::UnknownOpcode(opcode)
            },
            Some(instruction) => match instruction.operation {
                Operation::Halt => {
                    self.pc = self.pc.wrapping_sub(1);
                    StepResult::Halted
                },
                _ => {
                    let operand: Operand = self.resolve(instruction.mode);
                    self.perform(instruction, operand);
                    self.clock_tick(cycle_cost(instruction, operand.page_crossed));
                    StepResult::Retired
                },
            },
        }
    }

    /// Runs the code loaded into memory for at most `limit` steps, and
    /// stops before that at the halt opcode or at an unassigned opcode.
    /// Returns how the last step ended: `Retired` says that the limit was
    /// reached.
    pub fn run(&mut self, limit: usize) -> (last: StepResult)
        ensures
            final(self)@ == old(self)@.run(limit as nat),
            last == old(self)@.run_result(limit as nat),
            final(self).cycles >= old(self).cycles,
    {
        let ghost start = self@;
        proof {
            lemma_cycles_monotonic(start, 0, limit as nat);
        }
        let mut last: StepResult = StepResult::Retired;
        let mut taken: usize = 0;
        while taken < limit
            invariant_except_break
                last == StepResult::Retired,
            invariant
                taken <= limit,
                self@ == start.run(taken as nat),
                last == start.run_result(taken as nat),
            ensures
                self@ == start.run(limit as nat),
                last == start.run_result(limit as nat),
            decreases limit - taken,
        {
            let ghost before = self@;
            last = self.step();
            proof {
                lemma_run_split(start, taken as nat, 1);
                assert(before.run(1) == before.step().run(0));
            }
            taken += 1;
            match last {
                StepResult::Retired => {},
                _ => {
                    proof {
                        let rest = (limit - taken) as nat;
                        lemma_run_split(start, (taken - 1) as nat, rest);
                        lemma_run_split(start, taken as nat, rest);
                        lemma_run_fixed(before, rest);
                    }
                    break ;
                },
            }
        }
        last
    }

    /// Runs the whole code loaded into memory until a $00 opcode (BRK) is
    /// reached. The Program Counter is left at that opcode.
    ///
    /// The program must reach the halt opcode, and so must neither loop for
    /// ever nor run into an unassigned opcode. Where that is not known,
    /// `run` and `step` serve: they report an unassigned opcode. Called on
    /// such a program all the same, `execute` stops at the unassigned opcode
    /// as `step` does.
    pub fn execute(&mut self)
        requires
            old(self)@.halts(),
        ensures
            final(self)@ == old(self)@.final_state(),
            final(self)@.halted(),
            final(self).cycles >= old(self).cycles,
    {
        let ghost start = self@;
        let ghost mut left: nat = choose|steps: nat| #[trigger] start.run(steps).halted();
        let ghost mut taken: nat = 0;
        loop
            invariant
                self@ == start.run(taken),
                self@.run(left).halted(),
            ensures
                self@ == start.run(taken),
                self@.halted(),
            decreases left,
        {
            let ghost before = self@;
            match self.step() {
                StepResult::Retired => {
                    proof {
                        lemma_run_split(start, taken, 1);
                        assert(before.run(1) == before.step().run(0));
                        taken = taken + 1;
                        left = (left - 1) as nat;
                    }
                },
                StepResult::Halted => {
                    break ;
                },
                StepResult::UnknownOpcode(_) => {
                    proof {
                        lemma_run_fixed(before, left);
                    }
                    break ;
                },
            }
        }
        proof {
            lemma_final_state(start, taken);
            lemma_cycles_monotonic(start, 0, taken);
        }
    }
}


impl P6502 {
    /// Returns a string representation of the processor's registers and
    /// flags.
    pub fn status(&self) -> (text: String)
        ensures
            text@ == crate::text::status_text(self@),
    {
        let mut text: String = String::new();
        text.append("PC=$");
        crate::text::push_hex_word(&mut text, self.pc);
        text.append(", SP=$");
        crate::text::push_hex_byte(&mut text, self.sp);
        text.append("\nA=$");
        crate::text::push_hex_byte(&mut text, self.a);
        text.append(", X=$");
        crate::text::push_hex_byte(&mut text, self.x);
        text.append(", Y=$");
        crate::text::push_hex_byte(&mut text, self.y);
        text.append("\nFlags=");
        crate::text::push_binary_byte(&mut text, self.flags.as_binary());
        text.append("\n");
        assert(text@ =~= crate::text::status_text(self@));
        text
    }
}

} // verus!
