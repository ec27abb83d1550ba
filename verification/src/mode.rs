//! The thirteen addressing modes.

use vstd::prelude::*;

verus! {

/// How an instruction finds its operand.
#[derive(Clone, Copy, Debug, PartialEq, Eq, Structural)]
pub enum AddrMode {
    /// Zero page indexed by X
    ZPX,
    /// Zero page indexed by Y
    ZPY,
    /// Absolute indexed by X
    ABX,
    /// Absolute indexed by Y
    ABY,
    /// Indexed indirect: the pointer in page zero is indexed by X
    INX,
    /// Indirect indexed: the address behind the pointer is indexed by Y
    INY,
    /// Implicit: no operand
    IMP,
    /// Accumulator: the operand is the accumulator
    ACC,
    /// Immediate: the operand is the byte after the opcode
    IMM,
    /// Zero page
    ZPG,
    /// Absolute
    ABS,
    /// Relative: a signed displacement from the next instruction
    REL,
    /// Indirect: the address behind a pointer, for jumps only
    IND,
}

impl AddrMode {
    /// The number of instruction bytes the mode consumes after the opcode.
    pub open spec fn operand_len(self) -> u8 {
        match self {
            AddrMode::IMP | AddrMode::ACC => 0,
            AddrMode::ABS | AddrMode::ABX | AddrMode::ABY | AddrMode::IND => 2,
            _ => 1,
        }
    }

    #[verifier::when_used_as_spec(operand_len)]
    pub fn operand_bytes(self) -> (n: u8)
        ensures
            n == self.operand_len(),
    {
        match self {
            AddrMode::IMP | AddrMode::ACC => 0,
            AddrMode::ABS | AddrMode::ABX | AddrMode::ABY | AddrMode::IND => 2,
            _ => 1,
        }
    }

    /// Whether the effective address is a base address plus an index that
    /// may carry into the next page.
    pub open spec fn indexed(self) -> bool {
        self == AddrMode::ABX || self == AddrMode::ABY || self == AddrMode::INY
    }

    #[verifier::when_used_as_spec(indexed)]
    pub fn is_indexed(self) -> (r: bool)
        ensures
            r == self.indexed(),
    {
        match self {
            AddrMode::ABX | AddrMode::ABY | AddrMode::INY => true,
            _ => false,
        }
    }
}

} // verus!
