//! Addition, subtraction, comparison, increments and decrements.

use vstd::prelude::*;
use crate::alu::{add_with_carry, compare, decrement, increment, subtract_with_borrow};
use crate::bus::Bus;
use crate::cpu::Cpu;
use crate::error::AddressError;
use crate::flags::CpuFlag;
use crate::mode::AddrMode;
use crate::semantics::{ran, run};
use crate::table::Instruction;

verus! {

impl Cpu {
    /// `ADC`: adds the operand and the carry to the accumulator. Carry says
    /// that the sum left the byte; Overflow that both operands had one sign
    /// and the result has the other. Decimal mode is not observed.
    pub fn opcode_adc(&mut self, addr: AddrMode, cycles: u8, bus: &Bus) -> (r: Result<
        (),
        AddressError,
    >)
        requires
            old(self).cycles + cycles + 1 <= usize::MAX,
        ensures
            ran(*old(self), bus@, Instruction::ADC, addr, cycles, r, *final(self), bus@),
    {
        proof {
            reveal(run);
        }
        let (_, value) = self.fetch_operand(addr, bus)?;
        let sum = add_with_carry(self.a, value, self.flag(CpuFlag::C));
        self.a = sum.value;
        self.set_flags_nzcv(sum);
        self.charge(cycles, addr.is_indexed() && self.page_crossed);
        Ok(())
    }

    /// `SBC`: subtracts the operand from the accumulator, and one more while
    /// the carry is clear. Carry says that nothing had to be borrowed.
    /// Decimal mode is not observed.
    pub fn opcode_sbc(&mut self, addr: AddrMode, cycles: u8, bus: &Bus) -> (r: Result<
        (),
        AddressError,
    >)
        requires
            old(self).cycles + cycles + 1 <= usize::MAX,
        ensures
            ran(*old(self), bus@, Instruction::SBC, addr, cycles, r, *final(self), bus@),
    {
        proof {
            reveal(run);
        }
        let (_, value) = self.fetch_operand(addr, bus)?;
        let diff = subtract_with_borrow(self.a, value, self.flag(CpuFlag::C));
        self.a = diff.value;
        self.set_flags_nzcv(diff);
        self.charge(cycles, addr.is_indexed() && self.page_crossed);
        Ok(())
    }

    /// `CMP`: compares the accumulator with the operand. Carry says that the
    /// register is not below the operand; Negative and Zero come from the
    /// difference. No register changes.
    pub fn opcode_cmp(&mut self, addr: AddrMode, cycles: u8, bus: &Bus) -> (r: Result<
        (),
        AddressError,
    >)
        requires
            old(self).cycles + cycles + 1 <= usize::MAX,
        ensures
            ran(*old(self), bus@, Instruction::CMP, addr, cycles, r, *final(self), bus@),
    {
        proof {
            reveal(run);
        }
        let (_, value) = self.fetch_operand(addr, bus)?;
        self.set_flags_nzc(compare(self.a, value));
        self.charge(cycles, addr.is_indexed() && self.page_crossed);
        Ok(())
    }

    /// `CPX`: compares the X register with the operand. Carry says that the
    /// register is not below the operand; Negative and Zero come from the
    /// difference. No register changes.
    pub fn opcode_cpx(&mut self, addr: AddrMode, cycles: u8, bus: &Bus) -> (r: Result<
        (),
        AddressError,
    >)
        requires
            old(self).cycles + cycles + 1 <= usize::MAX,
        ensures
            ran(*old(self), bus@, Instruction::CPX, addr, cycles, r, *final(self), bus@),
    {
        proof {
            reveal(run);
        }
        let (_, value) = self.fetch_operand(addr, bus)?;
        self.set_flags_nzc(compare(self.x, value));
        self.charge(cycles, addr.is_indexed() && self.page_crossed);
        Ok(())
    }

    /// `CPY`: compares the Y register with the operand. Carry says that the
    /// register is not below the operand; Negative and Zero come from the
    /// difference. No register changes.
    pub fn opcode_cpy(&mut self, addr: AddrMode, cycles: u8, bus: &Bus) -> (r: Result<
        (),
        AddressError,
    >)
        requires
            old(self).cycles + cycles + 1 <= usize::MAX,
        ensures
            ran(*old(self), bus@, Instruction::CPY, addr, cycles, r, *final(self), bus@),
    {
        proof {
            reveal(run);
        }
        let (_, value) = self.fetch_operand(addr, bus)?;
        self.set_flags_nzc(compare(self.y, value));
        self.charge(cycles, addr.is_indexed() && self.page_crossed);
        Ok(())
    }

    /// `INC`: adds one to the operand in place, wrapping at eight bits, and
    /// derives Negative and Zero from the result.
    pub fn opcode_inc(&mut self, addr: AddrMode, cycles: u8, bus: &mut Bus) -> (r: Result<
        (),
        AddressError,
    >)
        requires
            old(self).cycles + cycles + 1 <= usize::MAX,
        ensures
            ran(
                *old(self),
                old(bus)@,
                Instruction::INC,
                addr,
                cycles,
                r,
                *final(self),
                final(bus)@,
            ),
    {
        proof {
            reveal(run);
        }
        let saved = *self;
        let (target, value) = self.fetch_operand(addr, bus)?;
        let result = increment(value);
        match self.replace_operand(addr, target, result, bus) {
            Ok(()) => {
                self.set_flag_negative_zero(result);
                self.charge(cycles, false);
                Ok(())
            },
            Err(e) => {
                *self = saved;
                Err(e)
            },
        }
    }

    /// `DEC`: takes one from the operand in place, wrapping at eight bits,
    /// and derives Negative and Zero from the result.
    pub fn opcode_dec(&mut self, addr: AddrMode, cycles: u8, bus: &mut Bus) -> (r: Result<
        (),
        AddressError,
    >)
        requires
            old(self).cycles + cycles + 1 <= usize::MAX,
        ensures
            ran(
                *old(self),
                old(bus)@,
                Instruction::DEC,
                addr,
                cycles,
                r,
                *final(self),
                final(bus)@,
            ),
    {
        proof {
            reveal(run);
        }
        let saved = *self;
        let (target, value) = self.fetch_operand(addr, bus)?;
        let result = decrement(value);
        match self.replace_operand(addr, target, result, bus) {
            Ok(()) => {
                self.set_flag_negative_zero(result);
                self.charge(cycles, false);
                Ok(())
            },
            Err(e) => {
                *self = saved;
                Err(e)
            },
        }
    }

    /// `INX`: adds one to the X register, wrapping at eight bits, and derives
    /// Negative and Zero from the result.
    pub fn opcode_inx(&mut self, addr: AddrMode, cycles: u8, bus: &Bus) -> (r: Result<
        (),
        AddressError,
    >)
        requires
            old(self).cycles + cycles + 1 <= usize::MAX,
        ensures
            ran(*old(self), bus@, Instruction::INX, addr, cycles, r, *final(self), bus@),
    {
        proof {
            reveal(run);
        }
        self.fetch_addr(addr, bus)?;
        self.x = increment(self.x);
        self.set_flag_negative_zero(self.x);
        self.charge(cycles, false);
        Ok(())
    }

    /// `INY`: adds one to the Y register, wrapping at eight bits, and derives
    /// Negative and Zero from the result.
    pub fn opcode_iny(&mut self, addr: AddrMode, cycles: u8, bus: &Bus) -> (r: Result<
        (),
        AddressError,
    >)
        requires
            old(self).cycles + cycles + 1 <= usize::MAX,
        ensures
            ran(*old(self), bus@, Instruction::INY, addr, cycles, r, *final(self), bus@),
    {
        proof {
            reveal(run);
        }
        self.fetch_addr(addr, bus)?;
        self.y = increment(self.y);
        self.set_flag_negative_zero(self.y);
        self.charge(cycles, false);
        Ok(())
    }

    /// `DEX`: takes one from the X register, wrapping at eight bits, and
    /// derives Negative and Zero from the result.
    pub fn opcode_dex(&mut self, addr: AddrMode, cycles: u8, bus: &Bus) -> (r: Result<
        (),
        AddressError,
    >)
        requires
            old(self).cycles + cycles + 1 <= usize::MAX,
        ensures
            ran(*old(self), bus@, Instruction::DEX, addr, cycles, r, *final(self), bus@),
    {
        proof {
            reveal(run);
        }
        self.fetch_addr(addr, bus)?;
        self.x = decrement(self.x);
        self.set_flag_negative_zero(self.x);
        self.charge(cycles, false);
        Ok(())
    }

    /// `DEY`: takes one from the Y register, wrapping at eight bits, and
    /// derives Negative and Zero from the result.
    pub fn opcode_dey(&mut self, addr: AddrMode, cycles: u8, bus: &Bus) -> (r: Result<
        (),
        AddressError,
    >)
        requires
            old(self).cycles + cycles + 1 <= usize::MAX,
        ensures
            ran(*old(self), bus@, Instruction::DEY, addr, cycles, r, *final(self), bus@),
    {
        proof {
            reveal(run);
        }
        self.fetch_addr(addr, bus)?;
        self.y = decrement(self.y);
        self.set_flag_negative_zero(self.y);
        self.charge(cycles, false);
        Ok(())
    }
}

} // verus!
