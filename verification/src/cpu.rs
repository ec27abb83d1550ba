//! The register file, the cycle counter and the primitives that change
//! them: flag updates and the two ways in which the program counter moves.

use vstd::prelude::*;
use crate::flags::{with_flag, with_nz, has_flag, CpuFlag};

verus! {

/// The processor: registers, status flags and the cycles owed by the
/// instruction that retired last.
#[derive(Clone, Copy, Debug, PartialEq, Eq, Structural)]
pub struct Cpu {
    /// Accumulator
    pub a: u8,
    /// X index
    pub x: u8,
    /// Y index
    pub y: u8,
    /// Program counter: the next byte that has not been consumed
    pub pc: u16,
    /// Stack pointer, an offset into page one
    pub sp: u8,
    /// Status flags
    pub p: u8,
    /// Clock ticks still owed; the driver counts them down
    pub cycles: usize,
    /// Whether the last operand address lay in another page than its base
    pub page_crossed: bool,
}

/// A read-only copy of the registers, the flags and the cycle counter.
#[derive(Clone, Copy, Debug, PartialEq, Eq, Structural)]
pub struct Snapshot {
    pub a: u8,
    pub x: u8,
    pub y: u8,
    pub pc: u16,
    pub sp: u8,
    pub p: u8,
    pub cycles: usize,
}

/// The address `n` bytes away from `addr`, wrapping at 16 bits.
#[verifier::opaque]
pub open spec fn offset(addr: u16, n: int) -> u16 {
    ((addr + n) % 0x10000) as u16
}

/// The address after `addr`, wrapping at the top of memory.
pub fn next_address(addr: u16) -> (r: u16)
    ensures
        r == offset(addr, 1),
{
    reveal(offset);
    addr.wrapping_add(1)
}

/// The address before `addr`, wrapping at the bottom of memory.
pub fn previous_address(addr: u16) -> (r: u16)
    ensures
        r == offset(addr, -1),
{
    reveal(offset);
    addr.wrapping_sub(1)
}

/// Going forward and back again ends where it began.
pub proof fn lemma_offset_inverse(addr: u16, n: int)
    requires
        -0x10000 < n < 0x10000,
    ensures
        offset(offset(addr, n), -n) == addr,
        offset(addr, 0) == addr,
{
    reveal(offset);
}

impl Cpu {
    /// The processor with every register and the counter at zero. The
    /// program counter gets its start address from `reset`, or at once from
    /// `power_on`.
    pub fn new() -> (r: Self)
        ensures
            r == (Cpu {
                a: 0,
                x: 0,
                y: 0,
                pc: 0,
                sp: 0,
                p: 0,
                cycles: 0,
                page_crossed: false,
            }),
    {
        Self {
            a: 0x00,
            x: 0x00,
            y: 0x00,
            pc: 0x0000,
            sp: 0x00,
            p: 0x00,
            cycles: 0,
            page_crossed: false,
        }
    }

    /// Sets or clears one flag; the other seven keep their values.
    pub fn set_flag(&mut self, flag: CpuFlag, flag_set: bool)
        ensures
            *final(self) == (Cpu { p: with_flag(old(self).p, flag, flag_set), ..*old(self) }),
    {
        if flag_set {
            self.p |= flag.mask();
        } else {
            self.p &= !flag.mask();
        }
    }

    /// Whether a flag is set.
    pub fn flag(&self, flag: CpuFlag) -> (r: bool)
        ensures
            r == has_flag(self.p, flag),
    {
        self.p & flag.mask() != 0
    }

    /// Derives Negative and Zero from a result: Negative is its bit 7, Zero
    /// says that it is zero.
    pub fn set_flag_negative_zero(&mut self, value: u8)
        ensures
            *final(self) == (Cpu { p: with_nz(old(self).p, value), ..*old(self) }),
    {
        self.set_flag(CpuFlag::N, (value & 0b1000_0000) != 0);
        self.set_flag(CpuFlag::Z, value == 0);
    }

    /// Moves the program counter past `n` consumed bytes, wrapping at the
    /// top of memory.
    pub fn advance(&mut self, n: u8)
        ensures
            *final(self) == (Cpu { pc: offset(old(self).pc, n as int), ..*old(self) }),
    {
        reveal(offset);
        self.pc = self.pc.wrapping_add(n as u16);
    }

    /// Sets the program counter to an absolute address.
    pub fn jump(&mut self, addr: u16)
        ensures
            *final(self) == (Cpu { pc: addr, ..*old(self) }),
    {
        self.pc = addr;
    }

    /// A copy of the registers, the flags and the cycle counter for a
    /// monitor to look at. Nothing done to the copy reaches the processor.
    pub fn snapshot(&self) -> (s: Snapshot)
        ensures
            s == (Snapshot {
                a: self.a,
                x: self.x,
                y: self.y,
                pc: self.pc,
                sp: self.sp,
                p: self.p,
                cycles: self.cycles,
            }),
    {
        Snapshot {
            a: self.a,
            x: self.x,
            y: self.y,
            pc: self.pc,
            sp: self.sp,
            p: self.p,
            cycles: self.cycles,
        }
    }
}

} // verus!
