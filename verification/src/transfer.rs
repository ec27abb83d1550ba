//! Register transfers and the stack instructions.

use vstd::prelude::*;
use crate::bus::Bus;
use crate::cpu::Cpu;
use crate::error::AddressError;
use crate::mode::AddrMode;
use crate::semantics::{ran, run};
use crate::table::Instruction;

verus! {

impl Cpu {
    /// `TAX`: copies the accumulator into the X register and derives Negative
    /// and Zero from it.
    pub fn opcode_tax(&mut self, addr: AddrMode, cycles: u8, bus: &Bus) -> (r: Result<
        (),
        AddressError,
    >)
        requires
            old(self).cycles + cycles + 1 <= usize::MAX,
        ensures
            ran(*old(self), bus@, Instruction::TAX, addr, cycles, r, *final(self), bus@),
    {
        proof {
            reveal(run);
        }
        self.fetch_addr(addr, bus)?;
        self.x = self.a;
        self.set_flag_negative_zero(self.x);
        self.charge(cycles, false);
        Ok(())
    }

    /// `TAY`: copies the accumulator into the Y register and derives Negative
    /// and Zero from it.
    pub fn opcode_tay(&mut self, addr: AddrMode, cycles: u8, bus: &Bus) -> (r: Result<
        (),
        AddressError,
    >)
        requires
            old(self).cycles + cycles + 1 <= usize::MAX,
        ensures
            ran(*old(self), bus@, Instruction::TAY, addr, cycles, r, *final(self), bus@),
    {
        proof {
            reveal(run);
        }
        self.fetch_addr(addr, bus)?;
        self.y = self.a;
        self.set_flag_negative_zero(self.y);
        self.charge(cycles, false);
        Ok(())
    }

    /// `TXA`: copies the X register into the accumulator and derives Negative
    /// and Zero from it.
    pub fn opcode_txa(&mut self, addr: AddrMode, cycles: u8, bus: &Bus) -> (r: Result<
        (),
        AddressError,
    >)
        requires
            old(self).cycles + cycles + 1 <= usize::MAX,
        ensures
            ran(*old(self), bus@, Instruction::TXA, addr, cycles, r, *final(self), bus@),
    {
        proof {
            reveal(run);
        }
        self.fetch_addr(addr, bus)?;
        self.a = self.x;
        self.set_flag_negative_zero(self.a);
        self.charge(cycles, false);
        Ok(())
    }

    /// `TYA`: copies the Y register into the accumulator and derives Negative
    /// and Zero from it.
    pub fn opcode_tya(&mut self, addr: AddrMode, cycles: u8, bus: &Bus) -> (r: Result<
        (),
        AddressError,
    >)
        requires
            old(self).cycles + cycles + 1 <= usize::MAX,
        ensures
            ran(*old(self), bus@, Instruction::TYA, addr, cycles, r, *final(self), bus@),
    {
        proof {
            reveal(run);
        }
        self.fetch_addr(addr, bus)?;
        self.a = self.y;
        self.set_flag_negative_zero(self.a);
        self.charge(cycles, false);
        Ok(())
    }

    /// `TSX`: copies the stack pointer into the X register and derives
    /// Negative and Zero from it.
    pub fn opcode_tsx(&mut self, addr: AddrMode, cycles: u8, bus: &Bus) -> (r: Result<
        (),
        AddressError,
    >)
        requires
            old(self).cycles + cycles + 1 <= usize::MAX,
        ensures
            ran(*old(self), bus@, Instruction::TSX, addr, cycles, r, *final(self), bus@),
    {
        proof {
            reveal(run);
        }
        self.fetch_addr(addr, bus)?;
        self.x = self.sp;
        self.set_flag_negative_zero(self.x);
        self.charge(cycles, false);
        Ok(())
    }

    /// `TXS`: copies the X register into the stack pointer. No flag changes.
    pub fn opcode_txs(&mut self, addr: AddrMode, cycles: u8, bus: &Bus) -> (r: Result<
        (),
        AddressError,
    >)
        requires
            old(self).cycles + cycles + 1 <= usize::MAX,
        ensures
            ran(*old(self), bus@, Instruction::TXS, addr, cycles, r, *final(self), bus@),
    {
        proof {
            reveal(run);
        }
        self.fetch_addr(addr, bus)?;
        self.sp = self.x;
        self.charge(cycles, false);
        Ok(())
    }

    /// `PHA`: pushes the accumulator.
    pub fn opcode_pha(&mut self, addr: AddrMode, cycles: u8, bus: &mut Bus) -> (r: Result<
        (),
        AddressError,
    >)
        requires
            old(self).cycles + cycles + 1 <= usize::MAX,
        ensures
            ran(
                *old(self),
                old(bus)@,
                Instruction::PHA,
                addr,
                cycles,
                r,
                *final(self),
                final(bus)@,
            ),
    {
        proof {
            reveal(run);
        }
        self.fetch_addr(addr, bus)?;
        self.push(bus, self.a);
        self.charge(cycles, false);
        Ok(())
    }

    /// `PHP`: pushes the status byte; Break and Unused are set in the copy on
    /// the stack.
    pub fn opcode_php(&mut self, addr: AddrMode, cycles: u8, bus: &mut Bus) -> (r: Result<
        (),
        AddressError,
    >)
        requires
            old(self).cycles + cycles + 1 <= usize::MAX,
        ensures
            ran(
                *old(self),
                old(bus)@,
                Instruction::PHP,
                addr,
                cycles,
                r,
                *final(self),
                final(bus)@,
            ),
    {
        proof {
            reveal(run);
        }
        self.fetch_addr(addr, bus)?;
        self.push(bus, self.p | 0x30);
        self.charge(cycles, false);
        Ok(())
    }

    /// `PLA`: pulls the accumulator and derives Negative and Zero from it.
    pub fn opcode_pla(&mut self, addr: AddrMode, cycles: u8, bus: &Bus) -> (r: Result<
        (),
        AddressError,
    >)
        requires
            old(self).cycles + cycles + 1 <= usize::MAX,
        ensures
            ran(*old(self), bus@, Instruction::PLA, addr, cycles, r, *final(self), bus@),
    {
        proof {
            reveal(run);
        }
        self.fetch_addr(addr, bus)?;
        self.a = self.pull(bus);
        self.set_flag_negative_zero(self.a);
        self.charge(cycles, false);
        Ok(())
    }

    /// `PLP`: pulls the status byte. Break and Unused are not loaded: they
    /// keep the values they have in the register.
    pub fn opcode_plp(&mut self, addr: AddrMode, cycles: u8, bus: &Bus) -> (r: Result<
        (),
        AddressError,
    >)
        requires
            old(self).cycles + cycles + 1 <= usize::MAX,
        ensures
            ran(*old(self), bus@, Instruction::PLP, addr, cycles, r, *final(self), bus@),
    {
        proof {
            reveal(run);
        }
        self.fetch_addr(addr, bus)?;
        let value = self.pull(bus);
        self.p = (value & 0xCF) | (self.p & 0x30);
        self.charge(cycles, false);
        Ok(())
    }
}

} // verus!
