//! The conditions the core reports to its caller. None of them aborts the
//! host: each is a value the caller can log, inspect and act on.

use vstd::prelude::*;

verus! {

/// Whether a failed bus access was a read or a write.
#[derive(Clone, Copy, Debug, PartialEq, Eq, Structural)]
pub enum AccessKind {
    Read,
    Write,
}

/// An access to an address that no owner answers for.
#[derive(Clone, Copy, Debug, PartialEq, Eq, Structural)]
pub struct AddressError {
    pub addr: usize,
    pub kind: AccessKind,
}

/// Why a program image was refused when it was mapped.
#[derive(Clone, Copy, Debug, PartialEq, Eq, Structural)]
pub enum ImageError {
    /// The image is shorter than the vector table it has to hold.
    TooSmall,
    /// The image does not fit into the cartridge window.
    TooLarge,
    /// The reset vector points at an address that nothing owns.
    BadResetVector,
}

/// Why a step of the processor did not complete.
#[derive(Clone, Copy, Debug, PartialEq, Eq, Structural)]
pub enum CpuError {
    /// The byte fetched at `pc` is not a documented opcode.
    IllegalOpcode { opcode: u8, pc: u16 },
    /// The instruction touched an address that nothing owns.
    Address(AddressError),
}

} // verus!
