//! Loads and stores.

use vstd::prelude::*;
use crate::bus::Bus;
use crate::cpu::Cpu;
use crate::error::AddressError;
use crate::mode::AddrMode;
use crate::semantics::{ran, run};
use crate::table::Instruction;

verus! {

impl Cpu {
    /// `LDA`: loads the operand into the accumulator and derives Negative and
    /// Zero from it. A crossed page costs one cycle.
    pub fn opcode_lda(&mut self, addr: AddrMode, cycles: u8, bus: &Bus) -> (r: Result<
        (),
        AddressError,
    >)
        requires
            old(self).cycles + cycles + 1 <= usize::MAX,
        ensures
            ran(*old(self), bus@, Instruction::LDA, addr, cycles, r, *final(self), bus@),
    {
        proof {
            reveal(run);
        }
        let (_, value) = self.fetch_operand(addr, bus)?;
        self.a = value;
        self.set_flag_negative_zero(value);
        self.charge(cycles, addr.is_indexed() && self.page_crossed);
        Ok(())
    }

    /// `LDX`: loads the operand into the X register and derives Negative and
    /// Zero from it. A crossed page costs one cycle.
    pub fn opcode_ldx(&mut self, addr: AddrMode, cycles: u8, bus: &Bus) -> (r: Result<
        (),
        AddressError,
    >)
        requires
            old(self).cycles + cycles + 1 <= usize::MAX,
        ensures
            ran(*old(self), bus@, Instruction::LDX, addr, cycles, r, *final(self), bus@),
    {
        proof {
            reveal(run);
        }
        let (_, value) = self.fetch_operand(addr, bus)?;
        self.x = value;
        self.set_flag_negative_zero(value);
        self.charge(cycles, addr.is_indexed() && self.page_crossed);
        Ok(())
    }

    /// `LDY`: loads the operand into the Y register and derives Negative and
    /// Zero from it. A crossed page costs one cycle.
    pub fn opcode_ldy(&mut self, addr: AddrMode, cycles: u8, bus: &Bus) -> (r: Result<
        (),
        AddressError,
    >)
        requires
            old(self).cycles + cycles + 1 <= usize::MAX,
        ensures
            ran(*old(self), bus@, Instruction::LDY, addr, cycles, r, *final(self), bus@),
    {
        proof {
            reveal(run);
        }
        let (_, value) = self.fetch_operand(addr, bus)?;
        self.y = value;
        self.set_flag_negative_zero(value);
        self.charge(cycles, addr.is_indexed() && self.page_crossed);
        Ok(())
    }

    /// `STA`: stores the accumulator at the effective address. No flag
    /// changes, and a crossed page costs nothing.
    pub fn opcode_sta(&mut self, addr: AddrMode, cycles: u8, bus: &mut Bus) -> (r: Result<
        (),
        AddressError,
    >)
        requires
            old(self).cycles + cycles + 1 <= usize::MAX,
        ensures
            ran(
                *old(self),
                old(bus)@,
                Instruction::STA,
                addr,
                cycles,
                r,
                *final(self),
                final(bus)@,
            ),
    {
        proof {
            reveal(run);
        }
        let saved = *self;
        let target = self.fetch_addr(addr, bus)?;
        match bus.write(target, self.a) {
            Ok(()) => {
                self.charge(cycles, false);
                Ok(())
            },
            Err(e) => {
                *self = saved;
                Err(e)
            },
        }
    }

    /// `STX`: stores the X register at the effective address. No flag
    /// changes, and a crossed page costs nothing.
    pub fn opcode_stx(&mut self, addr: AddrMode, cycles: u8, bus: &mut Bus) -> (r: Result<
        (),
        AddressError,
    >)
        requires
            old(self).cycles + cycles + 1 <= usize::MAX,
        ensures
            ran(
                *old(self),
                old(bus)@,
                Instruction::STX,
                addr,
                cycles,
                r,
                *final(self),
                final(bus)@,
            ),
    {
        proof {
            reveal(run);
        }
        let saved = *self;
        let target = self.fetch_addr(addr, bus)?;
        match bus.write(target, self.x) {
            Ok(()) => {
                self.charge(cycles, false);
                Ok(())
            },
            Err(e) => {
                *self = saved;
                Err(e)
            },
        }
    }

    /// `STY`: stores the Y register at the effective address. No flag
    /// changes, and a crossed page costs nothing.
    pub fn opcode_sty(&mut self, addr: AddrMode, cycles: u8, bus: &mut Bus) -> (r: Result<
        (),
        AddressError,
    >)
        requires
            old(self).cycles + cycles + 1 <= usize::MAX,
        ensures
            ran(
                *old(self),
                old(bus)@,
                Instruction::STY,
                addr,
                cycles,
                r,
                *final(self),
                final(bus)@,
            ),
    {
        proof {
            reveal(run);
        }
        let saved = *self;
        let target = self.fetch_addr(addr, bus)?;
        match bus.write(target, self.y) {
            Ok(()) => {
                self.charge(cycles, false);
                Ok(())
            },
            Err(e) => {
                *self = saved;
                Err(e)
            },
        }
    }
}

} // verus!
