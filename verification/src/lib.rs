//! An instruction-level emulator core for a 6502-class processor: the memory
//! bus with its address decoding, the register file, the addressing-mode
//! resolver and the opcode dispatcher, each with a machine-checked contract.
//!
//! The processor is clocked one instruction at a time. [`Cpu::clock`] fetches
//! the opcode at the program counter, looks it up in the opcode table,
//! resolves the operand, executes the instruction and adds its cycles to the
//! cycle counter. A step that cannot complete (an illegal opcode, an address
//! without an owner) returns an error and leaves processor and memory as
//! they were.
//!
//! What an instruction does is defined once, in [`semantics`], as a function
//! on the state of the machine; every executable instruction is proved to
//! do exactly that, and [`laws`] states what follows for all instructions.

pub mod error;
pub mod ram;
pub mod rom;
pub mod bus;
pub mod flags;
pub mod mode;
pub mod cpu;
pub mod resolver;
pub mod alu;
pub mod table;
pub mod semantics;
pub mod operand;
pub mod load_store;
pub mod logic;
pub mod arithmetic;
pub mod shift;
pub mod transfer;
pub mod control;
pub mod dispatch;
pub mod laws;

pub use crate::bus::Bus;
pub use crate::cpu::Cpu;
pub use crate::error::{AccessKind, AddressError, CpuError, ImageError};
pub use crate::flags::CpuFlag;
pub use crate::mode::AddrMode;
pub use crate::ram::Ram;
pub use crate::rom::Rom;
