//! The logical instructions and the bit test.

use vstd::prelude::*;
use crate::bus::Bus;
use crate::cpu::Cpu;
use crate::error::AddressError;
use crate::flags::CpuFlag;
use crate::mode::AddrMode;
use crate::semantics::{ran, run};
use crate::table::Instruction;

verus! {

impl Cpu {
    /// `AND`: ANDs the operand into the accumulator and derives Negative and
    /// Zero from the result. A crossed page costs one cycle.
    pub fn opcode_and(&mut self, addr: AddrMode, cycles: u8, bus: &Bus) -> (r: Result<
        (),
        AddressError,
    >)
        requires
            old(self).cycles + cycles + 1 <= usize::MAX,
        ensures
            ran(*old(self), bus@, Instruction::AND, addr, cycles, r, *final(self), bus@),
    {
        proof {
            reveal(run);
        }
        let (_, value) = self.fetch_operand(addr, bus)?;
        self.a = self.a & value;
        self.set_flag_negative_zero(self.a);
        self.charge(cycles, addr.is_indexed() && self.page_crossed);
        Ok(())
    }

    /// `EOR`: exclusive-ORs the operand into the accumulator and derives
    /// Negative and Zero from the result. A crossed page costs one cycle.
    pub fn opcode_eor(&mut self, addr: AddrMode, cycles: u8, bus: &Bus) -> (r: Result<
        (),
        AddressError,
    >)
        requires
            old(self).cycles + cycles + 1 <= usize::MAX,
        ensures
            ran(*old(self), bus@, Instruction::EOR, addr, cycles, r, *final(self), bus@),
    {
        proof {
            reveal(run);
        }
        let (_, value) = self.fetch_operand(addr, bus)?;
        self.a = self.a ^ value;
        self.set_flag_negative_zero(self.a);
        self.charge(cycles, addr.is_indexed() && self.page_crossed);
        Ok(())
    }

    /// `ORA`: ORs the operand into the accumulator and derives Negative and
    /// Zero from the result. A crossed page costs one cycle.
    pub fn opcode_ora(&mut self, addr: AddrMode, cycles: u8, bus: &Bus) -> (r: Result<
        (),
        AddressError,
    >)
        requires
            old(self).cycles + cycles + 1 <= usize::MAX,
        ensures
            ran(*old(self), bus@, Instruction::ORA, addr, cycles, r, *final(self), bus@),
    {
        proof {
            reveal(run);
        }
        let (_, value) = self.fetch_operand(addr, bus)?;
        self.a = self.a | value;
        self.set_flag_negative_zero(self.a);
        self.charge(cycles, addr.is_indexed() && self.page_crossed);
        Ok(())
    }

    /// `BIT`: tests the operand against the accumulator. Zero says that they
    /// share no bit; Overflow and Negative become bits 6 and 7 of the
    /// operand. The accumulator stays.
    pub fn opcode_bit(&mut self, addr: AddrMode, cycles: u8, bus: &Bus) -> (r: Result<
        (),
        AddressError,
    >)
        requires
            old(self).cycles + cycles + 1 <= usize::MAX,
        ensures
            ran(*old(self), bus@, Instruction::BIT, addr, cycles, r, *final(self), bus@),
    {
        proof {
            reveal(run);
        }
        let (_, value) = self.fetch_operand(addr, bus)?;
        self.set_flag(CpuFlag::Z, self.a & value == 0);
        self.set_flag(CpuFlag::V, value & 0x40 != 0);
        self.set_flag(CpuFlag::N, value & 0x80 != 0);
        self.charge(cycles, addr.is_indexed() && self.page_crossed);
        Ok(())
    }
}

} // verus!
