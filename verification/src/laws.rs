//! Facts about the instruction set that hold in every state.

use vstd::prelude::*;
use crate::alu::{complement, lemma_add_is_subtract_complement, low_byte};
use crate::opcode::{
    Flag, Instruction, Mode, Operation, Register, Shift, StackItem, Transfer,
};
use crate::state::{
    high_byte, lemma_run_split, page, stack_address, word, wrap16, CpuState, StepResult,
};

verus! {

/// Applying an operation keeps the memory as large as it was.
pub proof fn lemma_applied_well_formed(
    state: CpuState,
    instruction: Instruction,
    operand: crate::state::Operand,
)
    requires
        state.well_formed(),
    ensures
        state.applied(instruction, operand).well_formed(),
{
}

/// A step keeps the memory as large as the address space.
pub proof fn lemma_step_well_formed(state: CpuState)
    requires
        state.well_formed(),
    ensures
        state.step().well_formed(),
{
    match state.current() {
        Some(instruction) => {
            let fetched = state.advanced(1);
            lemma_applied_well_formed(
                fetched.advanced(crate::opcode::operand_length(instruction.mode)),
                instruction,
                fetched.operand(instruction.mode),
            );
        },
        None => {},
    }
}

/// Any number of steps keeps the memory as large as the address space.
pub proof fn lemma_run_well_formed(state: CpuState, steps: nat)
    requires
        state.well_formed(),
    ensures
        state.run(steps).well_formed(),
    decreases steps,
{
    if steps > 0 {
        lemma_step_well_formed(state);
        lemma_run_well_formed(state.step(), (steps - 1) as nat);
    }
}

/// A halted state and a stuck state stay as they are, and the step says
/// which of the two it met; from any other state an instruction retires.
pub proof fn lemma_step_result(state: CpuState)
    ensures
        state.halted() <==> state.step_result() == StepResult::Halted,
        state.stuck() <==> state.step_result() == StepResult::UnknownOpcode(
            state.byte_at(state.pc),
        ),
        state.halted() || state.stuck() ==> state.step() == state,
        state.halted() <==> state.byte_at(state.pc) == 0x00,
{
}

/// The interpreter never halts from a state in which it is stuck at an
/// unassigned opcode.
pub proof fn lemma_stuck_never_halts(state: CpuState)
    requires
        state.stuck(),
    ensures
        !state.halts(),
{
    assert forall|steps: nat| !(#[trigger] state.run(steps).halted()) by {
        crate::state::lemma_run_fixed(state, steps);
    }
}

/// A byte stored at an address is the byte found there afterwards, and no
/// other address is touched.
pub proof fn lemma_store_then_read(state: CpuState, addr: u16, data: u8)
    requires
        state.well_formed(),
    ensures
        state.with_byte(addr, data).byte_at(addr) == data,
        forall|other: u16|
            other != addr ==> #[trigger] state.with_byte(addr, data).byte_at(other)
                == state.byte_at(other),
{
}

/// Every load leaves the loaded byte in its register, the zero flag set
/// exactly when that byte is zero, and the negative flag set exactly when it
/// is `0x80` or more.
pub proof fn lemma_load_flags(state: CpuState, register: Register, mode: Mode)
    requires
        state.current() == Some(Instruction { operation: Operation::Load(register), mode }),
    ensures
        ({
            let fetched = state.advanced(1);
            let value = state.byte_at(fetched.operand(mode).address);
            &&& state.step().register(register) == value
            &&& state.step().flags.z == (value == 0)
            &&& state.step().flags.n == (value >= 0x80)
            &&& state.step().memory == state.memory
        }),
{
}

/// The byte that an instruction produces, in the state that it leaves: the
/// register or memory cell that it wrote.
pub open spec fn produced(after: CpuState, instruction: Instruction, address: u16) -> u8 {
    match instruction.operation {
        Operation::Load(register)
        | Operation::IncrementRegister(register)
        | Operation::DecrementRegister(register) => after.register(register),
        Operation::Transfer(Transfer::AToX) | Operation::Transfer(Transfer::SpToX) => after.x,
        Operation::Transfer(Transfer::AToY) => after.y,
        Operation::Shift(_) => if instruction.mode == Mode::Accumulator {
            after.a
        } else {
            after.byte_at(address)
        },
        Operation::Increment | Operation::Decrement => after.byte_at(address),
        _ => after.a,
    }
}

/// Loads, transfers to a register, additions and subtractions, bitwise
/// operations, shifts and rotates, increments and decrements, and the pull
/// of the accumulator leave the zero flag set exactly when the byte they
/// produced is zero, and the negative flag set exactly when its bit 7 is
/// set.
pub proof fn lemma_zero_and_negative_follow(
    state: CpuState,
    instruction: Instruction,
    operand: crate::state::Operand,
)
    requires
        state.well_formed(),
        match instruction.operation {
            Operation::Load(_)
            | Operation::Add
            | Operation::Subtract
            | Operation::Logic(_)
            | Operation::Shift(_)
            | Operation::Increment
            | Operation::Decrement
            | Operation::IncrementRegister(_)
            | Operation::DecrementRegister(_)
            | Operation::Pull(StackItem::Accumulator) => true,
            Operation::Transfer(transfer) => transfer != Transfer::XToSp,
            _ => false,
        },
    ensures
        ({
            let after = state.applied(instruction, operand);
            let value = produced(after, instruction, operand.address);
            &&& after.flags.z == (value == 0)
            &&& after.flags.n == (value >= 0x80)
        }),
{
}

/// A comparison sets the carry flag exactly when the register is not below
/// the operand, the zero flag exactly when the two are equal, and the
/// negative flag from bit 7 of their difference modulo 256. It changes no
/// register and no memory.
pub proof fn lemma_compare(state: CpuState, register: Register, value: u8)
    ensures
        ({
            let after = state.compared(register, value);
            &&& after.flags.c == (state.register(register) >= value)
            &&& after.flags.z == (state.register(register) == value)
            &&& after.flags.n == (low_byte(state.register(register) - value) >= 0x80)
            &&& after.a == state.a && after.x == state.x && after.y == state.y
            &&& after.memory == state.memory
        }),
{
}

/// Stores, pushes, flag instructions other than on the two flags themselves
/// and the transfer to the stack pointer leave the zero and negative flags
/// alone.
pub proof fn lemma_zero_and_negative_kept(
    state: CpuState,
    instruction: Instruction,
    operand: crate::state::Operand,
)
    requires
        instruction.operation matches Operation::Store(_) || instruction.operation matches Operation::Push(
            _,
        ) || instruction.operation == Operation::Transfer(Transfer::XToSp) || (
        instruction.operation matches Operation::SetFlag(flag, _) && flag != Flag::Zero && flag
            != Flag::Negative),
    ensures
        state.applied(instruction, operand).flags.z == state.flags.z,
        state.applied(instruction, operand).flags.n == state.flags.n,
{
}

/// A shift left followed by a shift right of the accumulator clears its bit
/// 7 and keeps the rest: a value below `0x80` comes back, a larger one does
/// not.
pub proof fn lemma_accumulator_shift_round_trip(state: CpuState)
    ensures
        ({
            let after = state.accumulator_shifted(Shift::Left).accumulator_shifted(Shift::Right);
            &&& after.a == state.a % 0x80
            &&& state.a < 0x80 ==> after.a == state.a
            &&& state.a >= 0x80 ==> after.a != state.a
            &&& !after.flags.c
        }),
{
}

/// Adding a byte and subtracting its complement give the same state: the
/// same accumulator and the same carry, overflow, negative and zero flags.
pub proof fn lemma_add_equals_subtract_complement(state: CpuState, value: u8)
    ensures
        state.added(value) == state.subtracted(complement(value)),
        state.subtracted(value) == state.added(complement(value)),
{
    lemma_add_is_subtract_complement(state.a, value, state.flags.c);
    lemma_add_is_subtract_complement(state.a, complement(value), state.flags.c);
}

/// Counting cycles never lowers the counter.
pub proof fn lemma_ticked_cycles(state: CpuState, ticks: int)
    requires
        ticks >= 0,
    ensures
        state.ticked(ticks).cycles >= state.cycles,
{
}

/// Applying an operation never lowers the cycle counter.
pub proof fn lemma_applied_cycles(
    state: CpuState,
    instruction: Instruction,
    operand: crate::state::Operand,
)
    ensures
        state.applied(instruction, operand).cycles >= state.cycles,
{
}

/// A step never lowers the cycle counter.
pub proof fn lemma_step_cycles(state: CpuState)
    ensures
        state.step().cycles >= state.cycles,
{
    match state.current() {
        Some(instruction) => {
            let fetched = state.advanced(1);
            lemma_applied_cycles(
                fetched.advanced(crate::opcode::operand_length(instruction.mode)),
                instruction,
                fetched.operand(instruction.mode),
            );
        },
        None => {},
    }
}

/// The cycle counter never goes down while a program runs: after more steps
/// it is at least what it was after fewer.
pub proof fn lemma_cycles_monotonic(state: CpuState, earlier: nat, later: nat)
    requires
        earlier <= later,
    ensures
        state.run(earlier).cycles <= state.run(later).cycles,
    decreases later - earlier,
{
    if earlier < later {
        lemma_cycles_monotonic(state, earlier, (later - 1) as nat);
        lemma_run_split(state, (later - 1) as nat, 1);
        let before = state.run((later - 1) as nat);
        assert(before.run(1) == before.step().run(0));
        lemma_step_cycles(before);
    }
}

/// An instruction that retires while the counter has room adds at least
/// two cycles and at most seven.
pub proof fn lemma_retired_step_cycles(state: CpuState)
    requires
        state.step_result() == StepResult::Retired,
        state.cycles + 7 <= usize::MAX,
    ensures
        state.cycles + 2 <= state.step().cycles <= state.cycles + 7,
{
    match state.current() {
        Some(instruction) => {
            let fetched = state.advanced(1);
            let operand = fetched.operand(instruction.mode);
            let behind = fetched.advanced(crate::opcode::operand_length(instruction.mode));
            lemma_applied_cycles(behind, instruction, operand);
            assert(behind.applied(instruction, operand).cycles <= behind.cycles + 2);
        },
        None => {},
    }
}

/// A taken branch costs one cycle more than one not taken, and two more
/// when its target lies in another page.
pub proof fn lemma_branch_cycles(state: CpuState, flag: Flag, wanted: bool, displacement: u8)
    requires
        state.cycles + 2 <= usize::MAX,
    ensures
        state.flag(flag) != wanted ==> state.branched_if(flag, wanted, displacement) == state,
        state.flag(flag) == wanted ==> state.branched_if(flag, wanted, displacement).cycles
            == state.cycles + if page(state.pc) != page(
            state.branched_if(flag, wanted, displacement).pc,
        ) {
            2int
        } else {
            1int
        },
{
}

/// A read through an indexed addressing mode costs one cycle more when the
/// index carries the address into another page.
pub proof fn lemma_page_cross_cycles(instruction: Instruction)
    requires
        instruction.operation matches Operation::Load(_) || instruction.operation
            == Operation::Add || instruction.operation == Operation::Subtract
            || instruction.operation matches Operation::Compare(_)
            || instruction.operation matches Operation::Logic(_) || instruction.operation
            == Operation::BitTest,
    ensures
        crate::state::instruction_cycles(instruction, true) == crate::state::instruction_cycles(
            instruction,
            false,
        ) + 1,
{
}

/// Zero-page indexing stays in the zero page: the sum of operand and index
/// is taken modulo 256.
pub proof fn lemma_zero_page_index_wraps(state: CpuState)
    ensures
        state.operand(Mode::ZeroPageX).address == (state.byte_at(state.pc) + state.x) % 0x100,
        state.operand(Mode::ZeroPageY).address == (state.byte_at(state.pc) + state.y) % 0x100,
        state.operand(Mode::ZeroPageX).address < 0x100,
        state.operand(Mode::ZeroPageY).address < 0x100,
        state.byte_at(state.pc) == 0xFF && state.x == 0x01 ==> state.operand(
            Mode::ZeroPageX,
        ).address == 0x00,
{
}

/// An indirect jump reads both bytes of its target from the page of the
/// pointer: after a pointer that ends in `0xFF` the high byte comes from the
/// start of that page.
pub proof fn lemma_indirect_jump_stays_in_page(state: CpuState, pointer: u16)
    ensures
        pointer % 0x100 == 0xFF ==> state.jump_vector_at(pointer) == word(
            state.byte_at(pointer),
            state.byte_at((pointer - 0xFF) as u16),
        ),
        pointer % 0x100 != 0xFF ==> state.jump_vector_at(pointer) == state.word_at(pointer),
        state.jump_vector_at(0x30FF) == word(state.byte_at(0x30FF), state.byte_at(0x3000)),
{
}

/// A branch adds its displacement as a signed byte: one of `0x80` or more
/// moves the program counter backwards, `0x80` itself by 128.
pub proof fn lemma_branch_displacement(state: CpuState, displacement: u8)
    ensures
        displacement < 0x80 ==> state.branched(displacement).pc == wrap16(
            state.pc + displacement,
        ),
        displacement >= 0x80 ==> state.branched(displacement).pc == wrap16(
            state.pc - (0x100 - displacement),
        ),
        state.branched(0x80).pc == wrap16(state.pc - 128),
{
}

/// The stack pointer wraps: a push at `0x00` leaves it at `0xFF`, and a
/// pull at `0xFF` leaves it at `0x00`. A pull after a push gives the byte
/// back and restores the stack pointer.
pub proof fn lemma_stack_wraps(state: CpuState, data: u8)
    requires
        state.well_formed(),
    ensures
        state.sp == 0x00 ==> state.pushed(data).sp == 0xFF,
        state.sp == 0xFF ==> state.pulled().sp == 0x00,
        state.pushed(data).pulled().sp == state.sp,
        state.pushed(data).pulled().top() == data,
        state.pushed(data).byte_at(stack_address(state.sp)) == data,
{
}

/// A subroutine call followed at once by a return goes on behind the call
/// instruction with the stack pointer restored.
pub proof fn lemma_call_then_return(state: CpuState, address: u16)
    requires
        state.well_formed(),
    ensures
        state.called(address).returned().pc == state.pc,
        state.called(address).returned().sp == state.sp,
{
    let ret = wrap16(state.pc - 1);
    let first = state.pushed(high_byte(ret));
    let second = first.pushed(low_byte(ret as int));
    assert(second.pulled().top() == low_byte(ret as int));
    assert(second.pulled().pulled().top() == high_byte(ret));
    assert(word(low_byte(ret as int), high_byte(ret)) == ret);
}

} // verus!
