//! The mathematical model of the processor: its state as plain values and
//! the meaning of every instruction as a function from state to state.

use vstd::prelude::*;
use crate::alu::{
    comparison, difference_with_borrow, is_negative, low_byte, rotated_left, rotated_right,
    shifted_left, shifted_right, signed, sum_with_carry, Shifted, Sum,
};
use crate::flags::P6502Flags;
use crate::memory::MAX_SIZE;
use crate::opcode::{
    decoded, operand_length, Flag, Instruction, Logic, Mode, Operation, Register, Shift,
    StackItem, Transfer,
};

verus! {

/// The state of the processor and its memory.
pub struct CpuState {
    /// Program counter.
    pub pc: u16,
    /// Stack pointer: the low byte of the next free slot in the stack page.
    pub sp: u8,
    /// Accumulator.
    pub a: u8,
    /// Index register X.
    pub x: u8,
    /// Index register Y.
    pub y: u8,
    /// Status flags.
    pub flags: P6502Flags,
    /// The contents of the address space, one byte per address.
    pub memory: Seq<u8>,
    /// Cycles consumed so far.
    pub cycles: usize,
}

/// How one step of the interpreter ended.
#[derive(Clone, Copy, Debug, PartialEq, Eq, Structural)]
pub enum StepResult {
    /// An instruction was executed.
    Retired,
    /// The halt opcode stands at the program counter; nothing was executed.
    Halted,
    /// The opcode at the program counter, given here, is not assigned;
    /// nothing was executed.
    UnknownOpcode(u8),
}

/// Where an instruction's operand lies.
#[derive(Clone, Copy, Debug, PartialEq, Eq, Structural)]
pub struct Operand {
    /// The effective address. For an immediate or relative operand this is
    /// the address of the operand byte itself.
    pub address: u16,
    /// Whether indexing carried the address into another page than its base.
    pub page_crossed: bool,
}

/// An integer reduced to a 16-bit address.
pub open spec fn wrap16(i: int) -> u16 {
    (i % 0x10000) as u16
}

/// The 16-bit word with the given low and high bytes.
pub open spec fn word(low: u8, high: u8) -> u16 {
    (high as int * 0x100 + low as int) as u16
}

/// The high byte of a word.
pub open spec fn high_byte(value: u16) -> u8 {
    (value / 0x100) as u8
}

/// The number of the 256-byte page that holds an address.
pub open spec fn page(addr: u16) -> int {
    addr as int / 0x100
}

/// The address in the stack page that a stack pointer value names.
pub open spec fn stack_address(sp: u8) -> u16 {
    (0x0100 + sp) as u16
}

/// A base address plus an index, and whether the sum lies in another page
/// than the base.
pub open spec fn indexed(base: u16, index: u8) -> Operand {
    let address = wrap16(base + index);
    Operand { address, page_crossed: page(base) != page(address) }
}

/// The result of a bitwise operation.
pub open spec fn logic_result(logic: Logic, a: u8, m: u8) -> u8 {
    match logic {
        Logic::And => a & m,
        Logic::Or => a | m,
        Logic::ExclusiveOr => a ^ m,
    }
}

/// The result of a shift or rotate.
pub open spec fn shift_result(shift: Shift, value: u8, carry: bool) -> Shifted {
    match shift {
        Shift::Left => shifted_left(value),
        Shift::Right => shifted_right(value),
        Shift::RotateLeft => rotated_left(value, carry),
        Shift::RotateRight => rotated_right(value, carry),
    }
}

/// Cycles of an instruction that reads its operand, without the page-cross
/// penalty.
pub open spec fn read_cycles(mode: Mode) -> int {
    match mode {
        Mode::ZeroPage => 3,
        Mode::ZeroPageX | Mode::ZeroPageY | Mode::Absolute | Mode::AbsoluteX | Mode::AbsoluteY => 4,
        Mode::IndirectIndexed => 5,
        Mode::IndexedIndirect => 6,
        _ => 2,
    }
}

/// Cycles of an instruction that writes a register to memory.
pub open spec fn write_cycles(mode: Mode) -> int {
    match mode {
        Mode::ZeroPage => 3,
        Mode::ZeroPageX | Mode::ZeroPageY | Mode::Absolute => 4,
        Mode::AbsoluteX | Mode::AbsoluteY => 5,
        Mode::IndexedIndirect | Mode::IndirectIndexed => 6,
        _ => 2,
    }
}

/// Cycles of an instruction that reads, changes and writes back its operand.
pub open spec fn modify_cycles(mode: Mode) -> int {
    match mode {
        Mode::ZeroPage => 5,
        Mode::ZeroPageX | Mode::Absolute => 6,
        Mode::AbsoluteX => 7,
        _ => 2,
    }
}

/// The cycles that an instruction takes. A read through an indexed mode
/// takes one more when the index carries the address into another page. The
/// extra cycles of a taken branch are not part of this number.
pub open spec fn instruction_cycles(instruction: Instruction, page_crossed: bool) -> int {
    match instruction.operation {
        Operation::Load(_)
        | Operation::Add
        | Operation::Subtract
        | Operation::Compare(_)
        | Operation::Logic(_)
        | Operation::BitTest => read_cycles(instruction.mode) + if page_crossed {
            1int
        } else {
            0int
        },
        Operation::Store(_) => write_cycles(instruction.mode),
        Operation::Shift(_) | Operation::Increment | Operation::Decrement => modify_cycles(
            instruction.mode,
        ),
        Operation::Push(_) => 3,
        Operation::Pull(_) => 4,
        Operation::Jump => if instruction.mode == Mode::Indirect {
            5
        } else {
            3
        },
        Operation::Call | Operation::Return | Operation::ReturnFromInterrupt => 6,
        _ => 2,
    }
}

impl CpuState {
    /// The memory covers exactly the 16-bit address space.
    pub open spec fn well_formed(self) -> bool {
        self.memory.len() == MAX_SIZE
    }

    /// The byte stored at an address.
    pub open spec fn byte_at(self, addr: u16) -> u8 {
        self.memory[addr as int]
    }

    /// The little-endian word stored at an address and the address after it;
    /// the address after `0xFFFF` is `0x0000`.
    pub open spec fn word_at(self, addr: u16) -> u16 {
        word(self.byte_at(addr), self.byte_at(wrap16(addr + 1)))
    }

    /// The little-endian word stored at a zero-page address; the address
    /// after `0xFF` is `0x00`.
    pub open spec fn zero_page_word_at(self, addr: u8) -> u16 {
        word(self.byte_at(addr as u16), self.byte_at(low_byte(addr + 1) as u16))
    }

    /// The word that an indirect jump reads through `pointer`: the high byte
    /// comes from the same page as the low byte, so that after a pointer
    /// ending in `0xFF` it is read from the start of that page.
    pub open spec fn jump_vector_at(self, pointer: u16) -> u16 {
        word(
            self.byte_at(pointer),
            self.byte_at(word(low_byte(pointer % 0x100 + 1), high_byte(pointer))),
        )
    }

    /// The state with one byte of memory replaced.
    pub open spec fn with_byte(self, addr: u16, data: u8) -> CpuState {
        CpuState { memory: self.memory.update(addr as int, data), ..self }
    }

    /// The state with another program counter.
    pub open spec fn with_pc(self, pc: u16) -> CpuState {
        CpuState { pc, ..self }
    }

    /// The state with the program counter moved forward.
    pub open spec fn advanced(self, bytes: int) -> CpuState {
        CpuState { pc: wrap16(self.pc + bytes), ..self }
    }

    /// The state with the cycle counter moved forward. The counter stops at
    /// the largest value it can hold.
    pub open spec fn ticked(self, ticks: int) -> CpuState {
        CpuState {
            cycles: if self.cycles + ticks > usize::MAX {
                usize::MAX
            } else {
                (self.cycles + ticks) as usize
            },
            ..self
        }
    }

    /// The value of a register.
    pub open spec fn register(self, register: Register) -> u8 {
        match register {
            Register::A => self.a,
            Register::X => self.x,
            Register::Y => self.y,
        }
    }

    /// The state with another value in a register.
    pub open spec fn with_register(self, register: Register, value: u8) -> CpuState {
        match register {
            Register::A => CpuState { a: value, ..self },
            Register::X => CpuState { x: value, ..self },
            Register::Y => CpuState { y: value, ..self },
        }
    }

    /// The state with the zero and negative flags taken from `value`.
    pub open spec fn with_nz(self, value: u8) -> CpuState {
        CpuState {
            flags: P6502Flags { z: value == 0, n: is_negative(value), ..self.flags },
            ..self
        }
    }

    /// The value of a flag.
    pub open spec fn flag(self, flag: Flag) -> bool {
        match flag {
            Flag::Carry => self.flags.c,
            Flag::Zero => self.flags.z,
            Flag::Interrupt => self.flags.i,
            Flag::Decimal => self.flags.d,
            Flag::Overflow => self.flags.v,
            Flag::Negative => self.flags.n,
        }
    }

    /// The state with another value for a flag.
    pub open spec fn with_flag(self, flag: Flag, value: bool) -> CpuState {
        CpuState {
            flags: match flag {
                Flag::Carry => P6502Flags { c: value, ..self.flags },
                Flag::Zero => P6502Flags { z: value, ..self.flags },
                Flag::Interrupt => P6502Flags { i: value, ..self.flags },
                Flag::Decimal => P6502Flags { d: value, ..self.flags },
                Flag::Overflow => P6502Flags { v: value, ..self.flags },
                Flag::Negative => P6502Flags { n: value, ..self.flags },
            },
            ..self
        }
    }

    /// The state after a push: the byte is stored at the slot that the stack
    /// pointer names, and the stack pointer moves down by one, from `0x00`
    /// to `0xFF`.
    pub open spec fn pushed(self, data: u8) -> CpuState {
        CpuState {
            memory: self.memory.update(stack_address(self.sp) as int, data),
            sp: low_byte(self.sp - 1),
            ..self
        }
    }

    /// The state after a pull: the stack pointer moves up by one, from `0xFF`
    /// to `0x00`. The byte pulled is then `top()`.
    pub open spec fn pulled(self) -> CpuState {
        CpuState { sp: low_byte(self.sp + 1), ..self }
    }

    /// The byte at the slot that the stack pointer names.
    pub open spec fn top(self) -> u8 {
        self.byte_at(stack_address(self.sp))
    }

    /// Where the operand of an instruction with the given addressing mode
    /// lies, in a state whose program counter is at the first operand byte.
    pub open spec fn operand(self, mode: Mode) -> Operand {
        let byte = self.byte_at(self.pc);
        match mode {
            Mode::Implied | Mode::Accumulator => Operand { address: 0, page_crossed: false },
            Mode::Immediate | Mode::Relative => Operand { address: self.pc, page_crossed: false },
            Mode::ZeroPage => Operand { address: byte as u16, page_crossed: false },
            Mode::ZeroPageX => Operand {
                address: low_byte(byte + self.x) as u16,
                page_crossed: false,
            },
            Mode::ZeroPageY => Operand {
                address: low_byte(byte + self.y) as u16,
                page_crossed: false,
            },
            Mode::Absolute => Operand { address: self.word_at(self.pc), page_crossed: false },
            Mode::AbsoluteX => indexed(self.word_at(self.pc), self.x),
            Mode::AbsoluteY => indexed(self.word_at(self.pc), self.y),
            Mode::Indirect => Operand {
                address: self.jump_vector_at(self.word_at(self.pc)),
                page_crossed: false,
            },
            Mode::IndexedIndirect => Operand {
                address: self.zero_page_word_at(low_byte(byte + self.x)),
                page_crossed: false,
            },
            Mode::IndirectIndexed => indexed(self.zero_page_word_at(byte), self.y),
        }
    }

    /// Load a register from memory.
    pub open spec fn loaded(self, register: Register, address: u16) -> CpuState {
        let value = self.byte_at(address);
        self.with_register(register, value).with_nz(value)
    }

    /// Store a register to memory. No flag changes.
    pub open spec fn stored(self, register: Register, address: u16) -> CpuState {
        self.with_byte(address, self.register(register))
    }

    /// Copy one register to another. A copy to the stack pointer changes no
    /// flag.
    pub open spec fn transferred(self, transfer: Transfer) -> CpuState {
        match transfer {
            Transfer::AToX => self.with_register(Register::X, self.a).with_nz(self.a),
            Transfer::AToY => self.with_register(Register::Y, self.a).with_nz(self.a),
            Transfer::XToA => self.with_register(Register::A, self.x).with_nz(self.x),
            Transfer::YToA => self.with_register(Register::A, self.y).with_nz(self.y),
            Transfer::SpToX => self.with_register(Register::X, self.sp).with_nz(self.sp),
            Transfer::XToSp => CpuState { sp: self.x, ..self },
        }
    }

    /// Put the outcome of an addition or subtraction into the accumulator
    /// and the flags.
    pub open spec fn with_sum(self, sum: Sum) -> CpuState {
        CpuState {
            a: sum.value,
            flags: P6502Flags {
                c: sum.carry,
                v: sum.overflow,
                z: sum.value == 0,
                n: is_negative(sum.value),
                ..self.flags
            },
            ..self
        }
    }

    /// Add a byte and the carry to the accumulator.
    pub open spec fn added(self, value: u8) -> CpuState {
        self.with_sum(sum_with_carry(self.a, value, self.flags.c))
    }

    /// Subtract a byte and the borrow from the accumulator.
    pub open spec fn subtracted(self, value: u8) -> CpuState {
        self.with_sum(difference_with_borrow(self.a, value, self.flags.c))
    }

    /// Compare a register with a byte. No register changes.
    pub open spec fn compared(self, register: Register, value: u8) -> CpuState {
        let outcome = comparison(self.register(register), value);
        CpuState {
            flags: P6502Flags {
                c: outcome.carry,
                z: outcome.zero,
                n: outcome.negative,
                ..self.flags
            },
            ..self
        }
    }

    /// Combine the accumulator bitwise with a byte.
    pub open spec fn combined(self, logic: Logic, value: u8) -> CpuState {
        let result = logic_result(logic, self.a, value);
        self.with_register(Register::A, result).with_nz(result)
    }

    /// Test the bits of a byte against the accumulator. The accumulator
    /// stays.
    pub open spec fn bit_tested(self, value: u8) -> CpuState {
        CpuState {
            flags: P6502Flags {
                z: self.a & value == 0,
                v: (value / 0x40) % 2 == 1,
                n: is_negative(value),
                ..self.flags
            },
            ..self
        }
    }

    /// Shift or rotate the accumulator.
    pub open spec fn accumulator_shifted(self, shift: Shift) -> CpuState {
        let outcome = shift_result(shift, self.a, self.flags.c);
        CpuState {
            a: outcome.value,
            flags: P6502Flags { c: outcome.carry, ..self.flags },
            ..self
        }.with_nz(outcome.value)
    }

    /// Shift or rotate a memory cell.
    pub open spec fn memory_shifted(self, shift: Shift, address: u16) -> CpuState {
        let outcome = shift_result(shift, self.byte_at(address), self.flags.c);
        CpuState {
            memory: self.memory.update(address as int, outcome.value),
            flags: P6502Flags { c: outcome.carry, ..self.flags },
            ..self
        }.with_nz(outcome.value)
    }

    /// Add `delta` to a memory cell, modulo 256.
    pub open spec fn memory_stepped(self, address: u16, delta: int) -> CpuState {
        let value = low_byte(self.byte_at(address) + delta);
        self.with_byte(address, value).with_nz(value)
    }

    /// Add `delta` to a register, modulo 256.
    pub open spec fn register_stepped(self, register: Register, delta: int) -> CpuState {
        let value = low_byte(self.register(register) + delta);
        self.with_register(register, value).with_nz(value)
    }

    /// Take a branch: the signed displacement is added to the program
    /// counter, which stands behind the branch instruction. One cycle is
    /// added, and one more when the target lies in another page.
    pub open spec fn branched(self, displacement: u8) -> CpuState {
        let target = wrap16(self.pc + signed(displacement));
        self.with_pc(target).ticked(
            if page(self.pc) != page(target) {
                2
            } else {
                1
            },
        )
    }

    /// Branch when the flag has the value asked for.
    pub open spec fn branched_if(self, flag: Flag, wanted: bool, displacement: u8) -> CpuState {
        if self.flag(flag) == wanted {
            self.branched(displacement)
        } else {
            self
        }
    }

    /// The state after a word has been pushed, high byte first.
    pub open spec fn word_pushed(self, data: u16) -> CpuState {
        self.pushed(high_byte(data)).pushed(low_byte(data as int))
    }

    /// The state after a word has been pulled, low byte first.
    pub open spec fn word_pulled(self) -> CpuState {
        self.pulled().pulled()
    }

    /// The word that `word_pulled` pulls.
    pub open spec fn top_word(self) -> u16 {
        word(self.pulled().top(), self.pulled().pulled().top())
    }

    /// Jump to a subroutine: the address of the last byte of the
    /// instruction is pushed.
    pub open spec fn called(self, address: u16) -> CpuState {
        self.word_pushed(wrap16(self.pc - 1)).with_pc(address)
    }

    /// Return from a subroutine: execution goes on behind the address
    /// pulled.
    pub open spec fn returned(self) -> CpuState {
        self.word_pulled().with_pc(wrap16(self.top_word() + 1))
    }

    /// Return from an interrupt: the flags are pulled, then the program
    /// counter.
    pub open spec fn interrupt_returned(self) -> CpuState {
        let status = self.pulled();
        CpuState {
            flags: P6502Flags::unpacked(status.top()),
            pc: status.top_word(),
            ..status.word_pulled()
        }
    }

    /// Push the accumulator or the packed flags.
    pub open spec fn item_pushed(self, item: StackItem) -> CpuState {
        match item {
            StackItem::Accumulator => self.pushed(self.a),
            StackItem::Status => self.pushed(self.flags.packed()),
        }
    }

    /// Pull the accumulator or the flags.
    pub open spec fn item_pulled(self, item: StackItem) -> CpuState {
        let pulled = self.pulled();
        match item {
            StackItem::Accumulator => pulled.with_register(Register::A, pulled.top()).with_nz(
                pulled.top(),
            ),
            StackItem::Status => CpuState {
                flags: P6502Flags::unpacked(pulled.top()),
                ..pulled
            },
        }
    }

    /// The effect of an operation on a state whose program counter stands
    /// behind the instruction.
    pub open spec fn applied(self, instruction: Instruction, operand: Operand) -> CpuState {
        let address = operand.address;
        let value = self.byte_at(address);
        match instruction.operation {
            Operation::Halt | Operation::NoOperation => self,
            Operation::Load(register) => self.loaded(register, address),
            Operation::Store(register) => self.stored(register, address),
            Operation::Transfer(transfer) => self.transferred(transfer),
            Operation::Add => self.added(value),
            Operation::Subtract => self.subtracted(value),
            Operation::Compare(register) => self.compared(register, value),
            Operation::Logic(logic) => self.combined(logic, value),
            Operation::BitTest => self.bit_tested(value),
            Operation::Shift(shift) => if instruction.mode == Mode::Accumulator {
                self.accumulator_shifted(shift)
            } else {
                self.memory_shifted(shift, address)
            },
            Operation::Increment => self.memory_stepped(address, 1),
            Operation::Decrement => self.memory_stepped(address, -1),
            Operation::IncrementRegister(register) => self.register_stepped(register, 1),
            Operation::DecrementRegister(register) => self.register_stepped(register, -1),
            Operation::Branch(flag, wanted) => self.branched_if(flag, wanted, value),
            Operation::Jump => self.with_pc(address),
            Operation::Call => self.called(address),
            Operation::Return => self.returned(),
            Operation::ReturnFromInterrupt => self.interrupt_returned(),
            Operation::Push(item) => self.item_pushed(item),
            Operation::Pull(item) => self.item_pulled(item),
            Operation::SetFlag(flag, value) => self.with_flag(flag, value),
        }
    }

    /// The effect of a whole instruction on a state whose program counter
    /// stands at the first operand byte: the operand is located, the program
    /// counter moves behind the instruction, the operation is applied and
    /// the cycles are counted.
    pub open spec fn executed(self, instruction: Instruction) -> CpuState {
        let operand = self.operand(instruction.mode);
        self.advanced(operand_length(instruction.mode)).applied(instruction, operand).ticked(
            instruction_cycles(instruction, operand.page_crossed),
        )
    }

    /// The instruction at the program counter, if the opcode there is
    /// assigned.
    pub open spec fn current(self) -> Option<Instruction> {
        decoded(self.byte_at(self.pc))
    }

    /// The opcode at the program counter is the halt opcode.
    pub open spec fn halted(self) -> bool {
        self.current() matches Some(instruction) && instruction.operation == Operation::Halt
    }

    /// The opcode at the program counter is not assigned.
    pub open spec fn stuck(self) -> bool {
        self.current() is None
    }

    /// One step of the interpreter. A halted or stuck state stays as it is;
    /// otherwise the instruction at the program counter is fetched and
    /// executed.
    pub open spec fn step(self) -> CpuState {
        match self.current() {
            Some(instruction) => if instruction.operation == Operation::Halt {
                self
            } else {
                self.advanced(1).executed(instruction)
            },
            None => self,
        }
    }

    /// How the step from this state ends.
    pub open spec fn step_result(self) -> StepResult {
        match self.current() {
            Some(instruction) => if instruction.operation == Operation::Halt {
                StepResult::Halted
            } else {
                StepResult::Retired
            },
            None => StepResult::UnknownOpcode(self.byte_at(self.pc)),
        }
    }

    /// The state after `steps` steps of the interpreter.
    pub open spec fn run(self, steps: nat) -> CpuState
        decreases steps,
    {
        if steps == 0 {
            self
        } else {
            self.step().run((steps - 1) as nat)
        }
    }

    /// The interpreter reaches the halt opcode from this state.
    pub open spec fn halts(self) -> bool {
        exists|steps: nat| #[trigger] self.run(steps).halted()
    }

    /// The state in which the interpreter halts, for a state from which it
    /// does.
    pub open spec fn final_state(self) -> CpuState {
        self.run(choose|steps: nat| #[trigger] self.run(steps).halted())
    }

    /// How the last of `limit` steps ends.
    pub open spec fn run_result(self, limit: nat) -> StepResult {
        if limit == 0 {
            StepResult::Retired
        } else {
            self.run((limit - 1) as nat).step_result()
        }
    }
}

/// Running `first` steps and then `then` steps is running them all.
pub proof fn lemma_run_split(state: CpuState, first: nat, then: nat)
    ensures
        state.run(first + then) == state.run(first).run(then),
    decreases first,
{
    if first > 0 {
        lemma_run_split(state.step(), (first - 1) as nat, then);
    }
}

/// A state that a step leaves unchanged is left unchanged by any number of
/// steps. Halted and stuck states are such states.
pub proof fn lemma_run_fixed(state: CpuState, steps: nat)
    requires
        state.step() == state,
    ensures
        state.run(steps) == state,
    decreases steps,
{
    if steps > 0 {
        lemma_run_fixed(state, (steps - 1) as nat);
    }
}

/// The interpreter halts in one state only: whenever the state after some
/// number of steps is halted, it is the final state.
pub proof fn lemma_final_state(state: CpuState, steps: nat)
    requires
        state.run(steps).halted(),
    ensures
        state.halts(),
        state.final_state() == state.run(steps),
        state.final_state().halted(),
{
    let chosen = choose|n: nat| #[trigger] state.run(n).halted();
    if chosen <= steps {
        lemma_run_split(state, chosen, (steps - chosen) as nat);
        lemma_run_fixed(state.run(chosen), (steps - chosen) as nat);
    } else {
        lemma_run_split(state, steps, (chosen - steps) as nat);
        lemma_run_fixed(state.run(steps), (chosen - steps) as nat);
    }
}

} // verus!
