//! The instruction set: operations, addressing modes and the opcode table.

use vstd::prelude::*;

verus! {

/// One of the three general-purpose registers.
#[derive(Clone, Copy, Debug, PartialEq, Eq, Structural)]
pub enum Register {
    /// The accumulator.
    A,
    /// Index register X.
    X,
    /// Index register Y.
    Y,
}

/// A status flag that an instruction tests or sets directly.
#[derive(Clone, Copy, Debug, PartialEq, Eq, Structural)]
pub enum Flag {
    Carry,
    Zero,
    Interrupt,
    Decimal,
    Overflow,
    Negative,
}

/// A register-to-register copy.
#[derive(Clone, Copy, Debug, PartialEq, Eq, Structural)]
pub enum Transfer {
    AToX,
    AToY,
    XToA,
    YToA,
    SpToX,
    XToSp,
}

/// A bitwise operation on the accumulator.
#[derive(Clone, Copy, Debug, PartialEq, Eq, Structural)]
pub enum Logic {
    And,
    Or,
    ExclusiveOr,
}

/// A one-bit shift or rotate.
#[derive(Clone, Copy, Debug, PartialEq, Eq, Structural)]
pub enum Shift {
    Left,
    Right,
    RotateLeft,
    RotateRight,
}

/// What a stack instruction pushes or pulls.
#[derive(Clone, Copy, Debug, PartialEq, Eq, Structural)]
pub enum StackItem {
    Accumulator,
    Status,
}

/// What an instruction does, apart from how it finds its operand.
#[derive(Clone, Copy, Debug, PartialEq, Eq, Structural)]
pub enum Operation {
    /// Opcode `0x00`: stops the interpreter.
    Halt,
    NoOperation,
    Load(Register),
    Store(Register),
    Transfer(Transfer),
    Add,
    Subtract,
    Compare(Register),
    Logic(Logic),
    BitTest,
    Shift(Shift),
    /// Adds one to a memory cell.
    Increment,
    /// Subtracts one from a memory cell.
    Decrement,
    IncrementRegister(Register),
    DecrementRegister(Register),
    /// Branches when the flag has the given value.
    Branch(Flag, bool),
    Jump,
    Call,
    Return,
    ReturnFromInterrupt,
    Push(StackItem),
    Pull(StackItem),
    /// Gives the flag the given value.
    SetFlag(Flag, bool),
}

/// How an instruction finds its operand.
#[derive(Clone, Copy, Debug, PartialEq, Eq, Structural)]
pub enum Mode {
    Implied,
    Accumulator,
    Immediate,
    ZeroPage,
    ZeroPageX,
    ZeroPageY,
    Absolute,
    AbsoluteX,
    AbsoluteY,
    /// `(abs)`, used by `JMP` only.
    Indirect,
    /// `(zp,X)`
    IndexedIndirect,
    /// `(zp),Y`
    IndirectIndexed,
    Relative,
}

/// A decoded opcode.
#[derive(Clone, Copy, Debug, PartialEq, Eq, Structural)]
pub struct Instruction {
    pub operation: Operation,
    pub mode: Mode,
}

/// The number of operand bytes that follow the opcode.
pub open spec fn operand_length(mode: Mode) -> int {
    match mode {
        Mode::Implied | Mode::Accumulator => 0,
        Mode::Immediate
        | Mode::ZeroPage
        | Mode::ZeroPageX
        | Mode::ZeroPageY
        | Mode::IndexedIndirect
        | Mode::IndirectIndexed
        | Mode::Relative => 1,
        Mode::Absolute | Mode::AbsoluteX | Mode::AbsoluteY | Mode::Indirect => 2,
    }
}

/// An entry of the opcode table.
pub open spec fn entry(operation: Operation, mode: Mode) -> Option<Instruction> {
    Some(Instruction { operation, mode })
}

/// The opcode table of the documented instruction set: what each of the 151
/// assigned opcodes stands for. An unassigned opcode has no entry.
pub open spec fn decoded(opcode: u8) -> Option<Instruction> {
    match opcode {
        0x00 => entry(Operation::Halt, Mode::Implied),  // BRK
        0x01 => entry(Operation::Logic(Logic::Or), Mode::IndexedIndirect),  // ORA (zp,X)
        0x05 => entry(Operation::Logic(Logic::Or), Mode::ZeroPage),  // ORA zp
        0x06 => entry(Operation::Shift(Shift::Left), Mode::ZeroPage),  // ASL zp
        0x08 => entry(Operation::Push(StackItem::Status), Mode::Implied),  // PHP
        0x09 => entry(Operation::Logic(Logic::Or), Mode::Immediate),  // ORA #imm
        0x0A => entry(Operation::Shift(Shift::Left), Mode::Accumulator),  // ASL A
        0x0D => entry(Operation::Logic(Logic::Or), Mode::Absolute),  // ORA abs
        0x0E => entry(Operation::Shift(Shift::Left), Mode::Absolute),  // ASL abs
        0x10 => entry(Operation::Branch(Flag::Negative, false), Mode::Relative),  // BPL rel
        0x11 => entry(Operation::Logic(Logic::Or), Mode::IndirectIndexed),  // ORA (zp),Y
        0x15 => entry(Operation::Logic(Logic::Or), Mode::ZeroPageX),  // ORA zp,X
        0x16 => entry(Operation::Shift(Shift::Left), Mode::ZeroPageX),  // ASL zp,X
        0x18 => entry(Operation::SetFlag(Flag::Carry, false), Mode::Implied),  // CLC
        0x19 => entry(Operation::Logic(Logic::Or), Mode::AbsoluteY),  // ORA abs,Y
        0x1D => entry(Operation::Logic(Logic::Or), Mode::AbsoluteX),  // ORA abs,X
        0x1E => entry(Operation::Shift(Shift::Left), Mode::AbsoluteX),  // ASL abs,X
        0x20 => entry(Operation::Call, Mode::Absolute),  // JSR abs
        0x21 => entry(Operation::Logic(Logic::And), Mode::IndexedIndirect),  // AND (zp,X)
        0x24 => entry(Operation::BitTest, Mode::ZeroPage),  // BIT zp
        0x25 => entry(Operation::Logic(Logic::And), Mode::ZeroPage),  // AND zp
        0x26 => entry(Operation::Shift(Shift::RotateLeft), Mode::ZeroPage),  // ROL zp
        0x28 => entry(Operation::Pull(StackItem::Status), Mode::Implied),  // PLP
        0x29 => entry(Operation::Logic(Logic::And), Mode::Immediate),  // AND #imm
        0x2A => entry(Operation::Shift(Shift::RotateLeft), Mode::Accumulator),  // ROL A
        0x2C => entry(Operation::BitTest, Mode::Absolute),  // BIT abs
        0x2D => entry(Operation::Logic(Logic::And), Mode::Absolute),  // AND abs
        0x2E => entry(Operation::Shift(Shift::RotateLeft), Mode::Absolute),  // ROL abs
        0x30 => entry(Operation::Branch(Flag::Negative, true), Mode::Relative),  // BMI rel
        0x31 => entry(Operation::Logic(Logic::And), Mode::IndirectIndexed),  // AND (zp),Y
        0x35 => entry(Operation::Logic(Logic::And), Mode::ZeroPageX),  // AND zp,X
        0x36 => entry(Operation::Shift(Shift::RotateLeft), Mode::ZeroPageX),  // ROL zp,X
        0x38 => entry(Operation::SetFlag(Flag::Carry, true), Mode::Implied),  // SEC
        0x39 => entry(Operation::Logic(Logic::And), Mode::AbsoluteY),  // AND abs,Y
        0x3D => entry(Operation::Logic(Logic::And), Mode::AbsoluteX),  // AND abs,X
        0x3E => entry(Operation::Shift(Shift::RotateLeft), Mode::AbsoluteX),  // ROL abs,X
        0x40 => entry(Operation::ReturnFromInterrupt, Mode::Implied),  // RTI
        0x41 => entry(Operation::Logic(Logic::ExclusiveOr), Mode::IndexedIndirect),  // EOR (zp,X)
        0x45 => entry(Operation::Logic(Logic::ExclusiveOr), Mode::ZeroPage),  // EOR zp
        0x46 => entry(Operation::Shift(Shift::Right), Mode::ZeroPage),  // LSR zp
        0x48 => entry(Operation::Push(StackItem::Accumulator), Mode::Implied),  // PHA
        0x49 => entry(Operation::Logic(Logic::ExclusiveOr), Mode::Immediate),  // EOR #imm
        0x4A => entry(Operation::Shift(Shift::Right), Mode::Accumulator),  // LSR A
        0x4C => entry(Operation::Jump, Mode::Absolute),  // JMP abs
        0x4D => entry(Operation::Logic(Logic::ExclusiveOr), Mode::Absolute),  // EOR abs
        0x4E => entry(Operation::Shift(Shift::Right), Mode::Absolute),  // LSR abs
        0x50 => entry(Operation::Branch(Flag::Overflow, false), Mode::Relative),  // BVC rel
        0x51 => entry(Operation::Logic(Logic::ExclusiveOr), Mode::IndirectIndexed),  // EOR (zp),Y
        0x55 => entry(Operation::Logic(Logic::ExclusiveOr), Mode::ZeroPageX),  // EOR zp,X
        0x56 => entry(Operation::Shift(Shift::Right), Mode::ZeroPageX),  // LSR zp,X
        0x58 => entry(Operation::SetFlag(Flag::Interrupt, false), Mode::Implied),  // CLI
        0x59 => entry(Operation::Logic(Logic::ExclusiveOr), Mode::AbsoluteY),  // EOR abs,Y
        0x5D => entry(Operation::Logic(Logic::ExclusiveOr), Mode::AbsoluteX),  // EOR abs,X
        0x5E => entry(Operation::Shift(Shift::Right), Mode::AbsoluteX),  // LSR abs,X
        0x60 => entry(Operation::Return, Mode::Implied),  // RTS
        0x61 => entry(Operation::Add, Mode::IndexedIndirect),  // ADC (zp,X)
        0x65 => entry(Operation::Add, Mode::ZeroPage),  // ADC zp
        0x66 => entry(Operation::Shift(Shift::RotateRight), Mode::ZeroPage),  // ROR zp
        0x68 => entry(Operation::Pull(StackItem::Accumulator), Mode::Implied),  // PLA
        0x69 => entry(Operation::Add, Mode::Immediate),  // ADC #imm
        0x6A => entry(Operation::Shift(Shift::RotateRight), Mode::Accumulator),  // ROR A
        0x6C => entry(Operation::Jump, Mode::Indirect),  // JMP (abs)
        0x6D => entry(Operation::Add, Mode::Absolute),  // ADC abs
        0x6E => entry(Operation::Shift(Shift::RotateRight), Mode::Absolute),  // ROR abs
        0x70 => entry(Operation::Branch(Flag::Overflow, true), Mode::Relative),  // BVS rel
        0x71 => entry(Operation::Add, Mode::IndirectIndexed),  // ADC (zp),Y
        0x75 => entry(Operation::Add, Mode::ZeroPageX),  // ADC zp,X
        0x76 => entry(Operation::Shift(Shift::RotateRight), Mode::ZeroPageX),  // ROR zp,X
        0x78 => entry(Operation::SetFlag(Flag::Interrupt, true), Mode::Implied),  // SEI
        0x79 => entry(Operation::Add, Mode::AbsoluteY),  // ADC abs,Y
        0x7D => entry(Operation::Add, Mode::AbsoluteX),  // ADC abs,X
        0x7E => entry(Operation::Shift(Shift::RotateRight), Mode::AbsoluteX),  // ROR abs,X
        0x81 => entry(Operation::Store(Register::A), Mode::IndexedIndirect),  // STA (zp,X)
        0x84 => entry(Operation::Store(Register::Y), Mode::ZeroPage),  // STY zp
        0x85 => entry(Operation::Store(Register::A), Mode::ZeroPage),  // STA zp
        0x86 => entry(Operation::Store(Register::X), Mode::ZeroPage),  // STX zp
        0x88 => entry(Operation::DecrementRegister(Register::Y), Mode::Implied),  // DEY
        0x8A => entry(Operation::Transfer(Transfer::XToA), Mode::Implied),  // TXA
        0x8C => entry(Operation::Store(Register::Y), Mode::Absolute),  // STY abs
        0x8D => entry(Operation::Store(Register::A), Mode::Absolute),  // STA abs
        0x8E => entry(Operation::Store(Register::X), Mode::Absolute),  // STX abs
        0x90 => entry(Operation::Branch(Flag::Carry, false), Mode::Relative),  // BCC rel
        0x91 => entry(Operation::Store(Register::A), Mode::IndirectIndexed),  // STA (zp),Y
        0x94 => entry(Operation::Store(Register::Y), Mode::ZeroPageX),  // STY zp,X
        0x95 => entry(Operation::Store(Register::A), Mode::ZeroPageX),  // STA zp,X
        0x96 => entry(Operation::Store(Register::X), Mode::ZeroPageY),  // STX zp,Y
        0x98 => entry(Operation::Transfer(Transfer::YToA), Mode::Implied),  // TYA
        0x99 => entry(Operation::Store(Register::A), Mode::AbsoluteY),  // STA abs,Y
        0x9A => entry(Operation::Transfer(Transfer::XToSp), Mode::Implied),  // TXS
        0x9D => entry(Operation::Store(Register::A), Mode::AbsoluteX),  // STA abs,X
        0xA0 => entry(Operation::Load(Register::Y), Mode::Immediate),  // LDY #imm
        0xA1 => entry(Operation::Load(Register::A), Mode::IndexedIndirect),  // LDA (zp,X)
        0xA2 => entry(Operation::Load(Register::X), Mode::Immediate),  // LDX #imm
        0xA4 => entry(Operation::Load(Register::Y), Mode::ZeroPage),  // LDY zp
        0xA5 => entry(Operation::Load(Register::A), Mode::ZeroPage),  // LDA zp
        0xA6 => entry(Operation::Load(Register::X), Mode::ZeroPage),  // LDX zp
        0xA8 => entry(Operation::Transfer(Transfer::AToY), Mode::Implied),  // TAY
        0xA9 => entry(Operation::Load(Register::A), Mode::Immediate),  // LDA #imm
        0xAA => entry(Operation::Transfer(Transfer::AToX), Mode::Implied),  // TAX
        0xAC => entry(Operation::Load(Register::Y), Mode::Absolute),  // LDY abs
        0xAD => entry(Operation::Load(Register::A), Mode::Absolute),  // LDA abs
        0xAE => entry(Operation::Load(Register::X), Mode::Absolute),  // LDX abs
        0xB0 => entry(Operation::Branch(Flag::Carry, true), Mode::Relative),  // BCS rel
        0xB1 => entry(Operation::Load(Register::A), Mode::IndirectIndexed),  // LDA (zp),Y
        0xB4 => entry(Operation::Load(Register::Y), Mode::ZeroPageX),  // LDY zp,X
        0xB5 => entry(Operation::Load(Register::A), Mode::ZeroPageX),  // LDA zp,X
        0xB6 => entry(Operation::Load(Register::X), Mode::ZeroPageY),  // LDX zp,Y
        0xB8 => entry(Operation::SetFlag(Flag::Overflow, false), Mode::Implied),  // CLV
        0xB9 => entry(Operation::Load(Register::A), Mode::AbsoluteY),  // LDA abs,Y
        0xBA => entry(Operation::Transfer(Transfer::SpToX), Mode::Implied),  // TSX
        0xBC => entry(Operation::Load(Register::Y), Mode::AbsoluteX),  // LDY abs,X
        0xBD => entry(Operation::Load(Register::A), Mode::AbsoluteX),  // LDA abs,X
        0xBE => entry(Operation::Load(Register::X), Mode::AbsoluteY),  // LDX abs,Y
        0xC0 => entry(Operation::Compare(Register::Y), Mode::Immediate),  // CPY #imm
        0xC1 => entry(Operation::Compare(Register::A), Mode::IndexedIndirect),  // CMP (zp,X)
        0xC4 => entry(Operation::Compare(Register::Y), Mode::ZeroPage),  // CPY zp
        0xC5 => entry(Operation::Compare(Register::A), Mode::ZeroPage),  // CMP zp
        0xC6 => entry(Operation::Decrement, Mode::ZeroPage),  // DEC zp
        0xC8 => entry(Operation::IncrementRegister(Register::Y), Mode::Implied),  // INY
        0xC9 => entry(Operation::Compare(Register::A), Mode::Immediate),  // CMP #imm
        0xCA => entry(Operation::DecrementRegister(Register::X), Mode::Implied),  // DEX
        0xCC => entry(Operation::Compare(Register::Y), Mode::Absolute),  // CPY abs
        0xCD => entry(Operation::Compare(Register::A), Mode::Absolute),  // CMP abs
        0xCE => entry(Operation::Decrement, Mode::Absolute),  // DEC abs
        0xD0 => entry(Operation::Branch(Flag::Zero, false), Mode::Relative),  // BNE rel
        0xD1 => entry(Operation::Compare(Register::A), Mode::IndirectIndexed),  // CMP (zp),Y
        0xD5 => entry(Operation::Compare(Register::A), Mode::ZeroPageX),  // CMP zp,X
        0xD6 => entry(Operation::Decrement, Mode::ZeroPageX),  // DEC zp,X
        0xD8 => entry(Operation::SetFlag(Flag::Decimal, false), Mode::Implied),  // CLD
        0xD9 => entry(Operation::Compare(Register::A), Mode::AbsoluteY),  // CMP abs,Y
        0xDD => entry(Operation::Compare(Register::A), Mode::AbsoluteX),  // CMP abs,X
        0xDE => entry(Operation::Decrement, Mode::AbsoluteX),  // DEC abs,X
        0xE0 => entry(Operation::Compare(Register::X), Mode::Immediate),  // CPX #imm
        0xE1 => entry(Operation::Subtract, Mode::IndexedIndirect),  // SBC (zp,X)
        0xE4 => entry(Operation::Compare(Register::X), Mode::ZeroPage),  // CPX zp
        0xE5 => entry(Operation::Subtract, Mode::ZeroPage),  // SBC zp
        0xE6 => entry(Operation::Increment, Mode::ZeroPage),  // INC zp
        0xE8 => entry(Operation::IncrementRegister(Register::X), Mode::Implied),  // INX
        0xE9 => entry(Operation::Subtract, Mode::Immediate),  // SBC #imm
        0xEA => entry(Operation::NoOperation, Mode::Implied),  // NOP
        0xEC => entry(Operation::Compare(Register::X), Mode::Absolute),  // CPX abs
        0xED => entry(Operation::Subtract, Mode::Absolute),  // SBC abs
        0xEE => entry(Operation::Increment, Mode::Absolute),  // INC abs
        0xF0 => entry(Operation::Branch(Flag::Zero, true), Mode::Relative),  // BEQ rel
        0xF1 => entry(Operation::Subtract, Mode::IndirectIndexed),  // SBC (zp),Y
        0xF5 => entry(Operation::Subtract, Mode::ZeroPageX),  // SBC zp,X
        0xF6 => entry(Operation::Increment, Mode::ZeroPageX),  // INC zp,X
        0xF8 => entry(Operation::SetFlag(Flag::Decimal, true), Mode::Implied),  // SED
        0xF9 => entry(Operation::Subtract, Mode::AbsoluteY),  // SBC abs,Y
        0xFD => entry(Operation::Subtract, Mode::AbsoluteX),  // SBC abs,X
        0xFE => entry(Operation::Increment, Mode::AbsoluteX),  // INC abs,X
        _ => None,
    }
}

fn instruction(operation: Operation, mode: Mode) -> (found: Option<Instruction>)
    ensures
        found == entry(operation, mode),
{
    Some(Instruction { operation, mode })
}

/// Looks an opcode up in the opcode table.
pub fn decode(opcode: u8) -> (found: Option<Instruction>)
    ensures
        found == decoded(opcode),
{
    match opcode {
        0x00 => instruction(Operation::Halt, Mode::Implied),  // BRK
        0x01 => instruction(Operation::Logic(Logic::Or), Mode::IndexedIndirect),  // ORA (zp,X)
        0x05 => instruction(Operation::Logic(Logic::Or), Mode::ZeroPage),  // ORA zp
        0x06 => instruction(Operation::Shift(Shift::Left), Mode::ZeroPage),  // ASL zp
        0x08 => instruction(Operation::Push(StackItem::Status), Mode::Implied),  // PHP
        0x09 => instruction(Operation::Logic(Logic::Or), Mode::Immediate),  // ORA #imm
        0x0A => instruction(Operation::Shift(Shift::Left), Mode::Accumulator),  // ASL A
        0x0D => instruction(Operation::Logic(Logic::Or), Mode::Absolute),  // ORA abs
        0x0E => instruction(Operation::Shift(Shift::Left), Mode::Absolute),  // ASL abs
        0x10 => instruction(Operation::Branch(Flag::Negative, false), Mode::Relative),  // BPL rel
        0x11 => instruction(Operation::Logic(Logic::Or), Mode::IndirectIndexed),  // ORA (zp),Y
        0x15 => instruction(Operation::Logic(Logic::Or), Mode::ZeroPageX),  // ORA zp,X
        0x16 => instruction(Operation::Shift(Shift::Left), Mode::ZeroPageX),  // ASL zp,X
        0x18 => instruction(Operation::SetFlag(Flag::Carry, false), Mode::Implied),  // CLC
        0x19 => instruction(Operation::Logic(Logic::Or), Mode::AbsoluteY),  // ORA abs,Y
        0x1D => instruction(Operation::Logic(Logic::Or), Mode::AbsoluteX),  // ORA abs,X
        0x1E => instruction(Operation::Shift(Shift::Left), Mode::AbsoluteX),  // ASL abs,X
        0x20 => instruction(Operation::Call, Mode::Absolute),  // JSR abs
        0x21 => instruction(Operation::Logic(Logic::And), Mode::IndexedIndirect),  // AND (zp,X)
        0x24 => instruction(Operation::BitTest, Mode::ZeroPage),  // BIT zp
        0x25 => instruction(Operation::Logic(Logic::And), Mode::ZeroPage),  // AND zp
        0x26 => instruction(Operation::Shift(Shift::RotateLeft), Mode::ZeroPage),  // ROL zp
        0x28 => instruction(Operation::Pull(StackItem::Status), Mode::Implied),  // PLP
        0x29 => instruction(Operation::Logic(Logic::And), Mode::Immediate),  // AND #imm
        0x2A => instruction(Operation::Shift(Shift::RotateLeft), Mode::Accumulator),  // ROL A
        0x2C => instruction(Operation::BitTest, Mode::Absolute),  // BIT abs
        0x2D => instruction(Operation::Logic(Logic::And), Mode::Absolute),  // AND abs
        0x2E => instruction(Operation::Shift(Shift::RotateLeft), Mode::Absolute),  // ROL abs
        0x30 => instruction(Operation::Branch(Flag::Negative, true), Mode::Relative),  // BMI rel
        0x31 => instruction(Operation::Logic(Logic::And), Mode::IndirectIndexed),  // AND (zp),Y
        0x35 => instruction(Operation::Logic(Logic::And), Mode::ZeroPageX),  // AND zp,X
        0x36 => instruction(Operation::Shift(Shift::RotateLeft), Mode::ZeroPageX),  // ROL zp,X
        0x38 => instruction(Operation::SetFlag(Flag::Carry, true), Mode::Implied),  // SEC
        0x39 => instruction(Operation::Logic(Logic::And), Mode::AbsoluteY),  // AND abs,Y
        0x3D => instruction(Operation::Logic(Logic::And), Mode::AbsoluteX),  // AND abs,X
        0x3E => instruction(Operation::Shift(Shift::RotateLeft), Mode::AbsoluteX),  // ROL abs,X
        0x40 => instruction(Operation::ReturnFromInterrupt, Mode::Implied),  // RTI
        0x41 => instruction(Operation::Logic(Logic::ExclusiveOr), Mode::IndexedIndirect),  // EOR (zp,X)
        0x45 => instruction(Operation::Logic(Logic::ExclusiveOr), Mode::ZeroPage),  // EOR zp
        0x46 => instruction(Operation::Shift(Shift::Right), Mode::ZeroPage),  // LSR zp
        0x48 => instruction(Operation::Push(StackItem::Accumulator), Mode::Implied),  // PHA
        0x49 => instruction(Operation::Logic(Logic::ExclusiveOr), Mode::Immediate),  // EOR #imm
        0x4A => instruction(Operation::Shift(Shift::Right), Mode::Accumulator),  // LSR A
        0x4C => instruction(Operation::Jump, Mode::Absolute),  // JMP abs
        0x4D => instruction(Operation::Logic(Logic::ExclusiveOr), Mode::Absolute),  // EOR abs
        0x4E => instruction(Operation::Shift(Shift::Right), Mode::Absolute),  // LSR abs
        0x50 => instruction(Operation::Branch(Flag::Overflow, false), Mode::Relative),  // BVC rel
        0x51 => instruction(Operation::Logic(Logic::ExclusiveOr), Mode::IndirectIndexed),  // EOR (zp),Y
        0x55 => instruction(Operation::Logic(Logic::ExclusiveOr), Mode::ZeroPageX),  // EOR zp,X
        0x56 => instruction(Operation::Shift(Shift::Right), Mode::ZeroPageX),  // LSR zp,X
        0x58 => instruction(Operation::SetFlag(Flag::Interrupt, false), Mode::Implied),  // CLI
        0x59 => instruction(Operation::Logic(Logic::ExclusiveOr), Mode::AbsoluteY),  // EOR abs,Y
        0x5D => instruction(Operation::Logic(Logic::ExclusiveOr), Mode::AbsoluteX),  // EOR abs,X
        0x5E => instruction(Operation::Shift(Shift::Right), Mode::AbsoluteX),  // LSR abs,X
        0x60 => instruction(Operation::Return, Mode::Implied),  // RTS
        0x61 => instruction(Operation::Add, Mode::IndexedIndirect),  // ADC (zp,X)
        0x65 => instruction(Operation::Add, Mode::ZeroPage),  // ADC zp
        0x66 => instruction(Operation::Shift(Shift::RotateRight), Mode::ZeroPage),  // ROR zp
        0x68 => instruction(Operation::Pull(StackItem::Accumulator), Mode::Implied),  // PLA
        0x69 => instruction(Operation::Add, Mode::Immediate),  // ADC #imm
        0x6A => instruction(Operation::Shift(Shift::RotateRight), Mode::Accumulator),  // ROR A
        0x6C => instruction(Operation::Jump, Mode::Indirect),  // JMP (abs)
        0x6D => instruction(Operation::Add, Mode::Absolute),  // ADC abs
        0x6E => instruction(Operation::Shift(Shift::RotateRight), Mode::Absolute),  // ROR abs
        0x70 => instruction(Operation::Branch(Flag::Overflow, true), Mode::Relative),  // BVS rel
        0x71 => instruction(Operation::Add, Mode::IndirectIndexed),  // ADC (zp),Y
        0x75 => instruction(Operation::Add, Mode::ZeroPageX),  // ADC zp,X
        0x76 => instruction(Operation::Shift(Shift::RotateRight), Mode::ZeroPageX),  // ROR zp,X
        0x78 => instruction(Operation::SetFlag(Flag::Interrupt, true), Mode::Implied),  // SEI
        0x79 => instruction(Operation::Add, Mode::AbsoluteY),  // ADC abs,Y
        0x7D => instruction(Operation::Add, Mode::AbsoluteX),  // ADC abs,X
        0x7E => instruction(Operation::Shift(Shift::RotateRight), Mode::AbsoluteX),  // ROR abs,X
        0x81 => instruction(Operation::Store(Register::A), Mode::IndexedIndirect),  // STA (zp,X)
        0x84 => instruction(Operation::Store(Register::Y), Mode::ZeroPage),  // STY zp
        0x85 => instruction(Operation::Store(Register::A), Mode::ZeroPage),  // STA zp
        0x86 => instruction(Operation::Store(Register::X), Mode::ZeroPage),  // STX zp
        0x88 => instruction(Operation::DecrementRegister(Register::Y), Mode::Implied),  // DEY
        0x8A => instruction(Operation::Transfer(Transfer::XToA), Mode::Implied),  // TXA
        0x8C => instruction(Operation::Store(Register::Y), Mode::Absolute),  // STY abs
        0x8D => instruction(Operation::Store(Register::A), Mode::Absolute),  // STA abs
        0x8E => instruction(Operation::Store(Register::X), Mode::Absolute),  // STX abs
        0x90 => instruction(Operation::Branch(Flag::Carry, false), Mode::Relative),  // BCC rel
        0x91 => instruction(Operation::Store(Register::A), Mode::IndirectIndexed),  // STA (zp),Y
        0x94 => instruction(Operation::Store(Register::Y), Mode::ZeroPageX),  // STY zp,X
        0x95 => instruction(Operation::Store(Register::A), Mode::ZeroPageX),  // STA zp,X
        0x96 => instruction(Operation::Store(Register::X), Mode::ZeroPageY),  // STX zp,Y
        0x98 => instruction(Operation::Transfer(Transfer::YToA), Mode::Implied),  // TYA
        0x99 => instruction(Operation::Store(Register::A), Mode::AbsoluteY),  // STA abs,Y
        0x9A => instruction(Operation::Transfer(Transfer::XToSp), Mode::Implied),  // TXS
        0x9D => instruction(Operation::Store(Register::A), Mode::AbsoluteX),  // STA abs,X
        0xA0 => instruction(Operation::Load(Register::Y), Mode::Immediate),  // LDY #imm
        0xA1 => instruction(Operation::Load(Register::A), Mode::IndexedIndirect),  // LDA (zp,X)
        0xA2 => instruction(Operation::Load(Register::X), Mode::Immediate),  // LDX #imm
        0xA4 => instruction(Operation::Load(Register::Y), Mode::ZeroPage),  // LDY zp
        0xA5 => instruction(Operation::Load(Register::A), Mode::ZeroPage),  // LDA zp
        0xA6 => instruction(Operation::Load(Register::X), Mode::ZeroPage),  // LDX zp
        0xA8 => instruction(Operation::Transfer(Transfer::AToY), Mode::Implied),  // TAY
        0xA9 => instruction(Operation::Load(Register::A), Mode::Immediate),  // LDA #imm
        0xAA => instruction(Operation::Transfer(Transfer::AToX), Mode::Implied),  // TAX
        0xAC => instruction(Operation::Load(Register::Y), Mode::Absolute),  // LDY abs
        0xAD => instruction(Operation::Load(Register::A), Mode::Absolute),  // LDA abs
        0xAE => instruction(Operation::Load(Register::X), Mode::Absolute),  // LDX abs
        0xB0 => instruction(Operation::Branch(Flag::Carry, true), Mode::Relative),  // BCS rel
        0xB1 => instruction(Operation::Load(Register::A), Mode::IndirectIndexed),  // LDA (zp),Y
        0xB4 => instruction(Operation::Load(Register::Y), Mode::ZeroPageX),  // LDY zp,X
        0xB5 => instruction(Operation::Load(Register::A), Mode::ZeroPageX),  // LDA zp,X
        0xB6 => instruction(Operation::Load(Register::X), Mode::ZeroPageY),  // LDX zp,Y
        0xB8 => instruction(Operation::SetFlag(Flag::Overflow, false), Mode::Implied),  // CLV
        0xB9 => instruction(Operation::Load(Register::A), Mode::AbsoluteY),  // LDA abs,Y
        0xBA => instruction(Operation::Transfer(Transfer::SpToX), Mode::Implied),  // TSX
        0xBC => instruction(Operation::Load(Register::Y), Mode::AbsoluteX),  // LDY abs,X
        0xBD => instruction(Operation::Load(Register::A), Mode::AbsoluteX),  // LDA abs,X
        0xBE => instruction(Operation::Load(Register::X), Mode::AbsoluteY),  // LDX abs,Y
        0xC0 => instruction(Operation::Compare(Register::Y), Mode::Immediate),  // CPY #imm
        0xC1 => instruction(Operation::Compare(Register::A), Mode::IndexedIndirect),  // CMP (zp,X)
        0xC4 => instruction(Operation::Compare(Register::Y), Mode::ZeroPage),  // CPY zp
        0xC5 => instruction(Operation::Compare(Register::A), Mode::ZeroPage),  // CMP zp
        0xC6 => instruction(Operation::Decrement, Mode::ZeroPage),  // DEC zp
        0xC8 => instruction(Operation::IncrementRegister(Register::Y), Mode::Implied),  // INY
        0xC9 => instruction(Operation::Compare(Register::A), Mode::Immediate),  // CMP #imm
        0xCA => instruction(Operation::DecrementRegister(Register::X), Mode::Implied),  // DEX
        0xCC => instruction(Operation::Compare(Register::Y), Mode::Absolute),  // CPY abs
        0xCD => instruction(Operation::Compare(Register::A), Mode::Absolute),  // CMP abs
        0xCE => instruction(Operation::Decrement, Mode::Absolute),  // DEC abs
        0xD0 => instruction(Operation::Branch(Flag::Zero, false), Mode::Relative),  // BNE rel
        0xD1 => instruction(Operation::Compare(Register::A), Mode::IndirectIndexed),  // CMP (zp),Y
        0xD5 => instruction(Operation::Compare(Register::A), Mode::ZeroPageX),  // CMP zp,X
        0xD6 => instruction(Operation::Decrement, Mode::ZeroPageX),  // DEC zp,X
        0xD8 => instruction(Operation::SetFlag(Flag::Decimal, false), Mode::Implied),  // CLD
        0xD9 => instruction(Operation::Compare(Register::A), Mode::AbsoluteY),  // CMP abs,Y
        0xDD => instruction(Operation::Compare(Register::A), Mode::AbsoluteX),  // CMP abs,X
        0xDE => instruction(Operation::Decrement, Mode::AbsoluteX),  // DEC abs,X
        0xE0 => instruction(Operation::Compare(Register::X), Mode::Immediate),  // CPX #imm
        0xE1 => instruction(Operation::Subtract, Mode::IndexedIndirect),  // SBC (zp,X)
        0xE4 => instruction(Operation::Compare(Register::X), Mode::ZeroPage),  // CPX zp
        0xE5 => instruction(Operation::Subtract, Mode::ZeroPage),  // SBC zp
        0xE6 => instruction(Operation::Increment, Mode::ZeroPage),  // INC zp
        0xE8 => instruction(Operation::IncrementRegister(Register::X), Mode::Implied),  // INX
        0xE9 => instruction(Operation::Subtract, Mode::Immediate),  // SBC #imm
        0xEA => instruction(Operation::NoOperation, Mode::Implied),  // NOP
        0xEC => instruction(Operation::Compare(Register::X), Mode::Absolute),  // CPX abs
        0xED => instruction(Operation::Subtract, Mode::Absolute),  // SBC abs
        0xEE => instruction(Operation::Increment, Mode::Absolute),  // INC abs
        0xF0 => instruction(Operation::Branch(Flag::Zero, true), Mode::Relative),  // BEQ rel
        0xF1 => instruction(Operation::Subtract, Mode::IndirectIndexed),  // SBC (zp),Y
        0xF5 => instruction(Operation::Subtract, Mode::ZeroPageX),  // SBC zp,X
        0xF6 => instruction(Operation::Increment, Mode::ZeroPageX),  // INC zp,X
        0xF8 => instruction(Operation::SetFlag(Flag::Decimal, true), Mode::Implied),  // SED
        0xF9 => instruction(Operation::Subtract, Mode::AbsoluteY),  // SBC abs,Y
        0xFD => instruction(Operation::Subtract, Mode::AbsoluteX),  // SBC abs,X
        0xFE => instruction(Operation::Increment, Mode::AbsoluteX),  // INC abs,X
        _ => None,
    }
}

/// No two opcodes stand for the same instruction.
pub proof fn lemma_decoded_injective(first: u8, second: u8)
    requires
        decoded(first) is Some,
        decoded(first) == decoded(second),
    ensures
        first == second,
{
}

} // verus!
