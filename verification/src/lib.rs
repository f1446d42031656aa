//! A verified emulator core for the MOS 6502 microprocessor.
//!
//! The crate models the processor's registers, status flags and flat 64 KiB
//! memory, and proves that the executable interpreter follows the
//! mathematical description of every documented instruction.
//!
//! - `flags`, `memory` and `alu` hold the parts of the machine: the status
//!   register, the address space and the arithmetic.
//! - `opcode` holds the instruction set and its opcode table.
//! - `state` is the mathematical model: the state of the machine as plain
//!   values and the meaning of each instruction as a function on it.
//! - `p6502` is the processor that runs: every method is proved to do to
//!   the machine what the model says.
//! - `laws` states what follows from the model for every state.
//! - `scan`, `loader`, `command` and `text` read hex dumps and monitor
//!   commands and write the monitor's output.

pub mod alu;
pub mod command;
pub mod flags;
pub mod laws;
pub mod loader;
pub mod memory;
pub mod opcode;
pub mod p6502;
pub mod scan;
pub mod state;
pub mod text;
