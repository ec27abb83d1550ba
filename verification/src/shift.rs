//! Shifts and rotates.

use vstd::prelude::*;
use crate::alu::{rotate_left, rotate_right, shift_left, shift_right};
use crate::bus::Bus;
use crate::cpu::Cpu;
use crate::error::AddressError;
use crate::flags::CpuFlag;
use crate::mode::AddrMode;
use crate::semantics::{ran, run};
use crate::table::Instruction;

verus! {

impl Cpu {
    /// `ASL`: shifts the operand left by one bit; bit 7 leaves into Carry.
    /// The operand is the accumulator in Accumulator mode, else a byte in
    /// memory, which is written back.
    pub fn opcode_asl(&mut self, addr: AddrMode, cycles: u8, bus: &mut Bus) -> (r: Result<
        (),
        AddressError,
    >)
        requires
            old(self).cycles + cycles + 1 <= usize::MAX,
        ensures
            ran(
                *old(self),
                old(bus)@,
                Instruction::ASL,
                addr,
                cycles,
                r,
                *final(self),
                final(bus)@,
            ),
    {
        proof {
            reveal(run);
        }
        let saved = *self;
        let (target, value) = self.fetch_operand(addr, bus)?;
        let result = shift_left(value);
        match self.replace_operand(addr, target, result.value, bus) {
            Ok(()) => {
                self.set_flags_nzc(result);
                self.charge(cycles, false);
                Ok(())
            },
            Err(e) => {
                *self = saved;
                Err(e)
            },
        }
    }

    /// `LSR`: shifts the operand right by one bit; bit 0 leaves into Carry.
    /// The operand is the accumulator in Accumulator mode, else a byte in
    /// memory, which is written back.
    pub fn opcode_lsr(&mut self, addr: AddrMode, cycles: u8, bus: &mut Bus) -> (r: Result<
        (),
        AddressError,
    >)
        requires
            old(self).cycles + cycles + 1 <= usize::MAX,
        ensures
            ran(
                *old(self),
                old(bus)@,
                Instruction::LSR,
                addr,
                cycles,
                r,
                *final(self),
                final(bus)@,
            ),
    {
        proof {
            reveal(run);
        }
        let saved = *self;
        let (target, value) = self.fetch_operand(addr, bus)?;
        let result = shift_right(value);
        match self.replace_operand(addr, target, result.value, bus) {
            Ok(()) => {
                self.set_flags_nzc(result);
                self.charge(cycles, false);
                Ok(())
            },
            Err(e) => {
                *self = saved;
                Err(e)
            },
        }
    }

    /// `ROL`: rotates the operand left through Carry. The operand is the
    /// accumulator in Accumulator mode, else a byte in memory, which is
    /// written back.
    pub fn opcode_rol(&mut self, addr: AddrMode, cycles: u8, bus: &mut Bus) -> (r: Result<
        (),
        AddressError,
    >)
        requires
            old(self).cycles + cycles + 1 <= usize::MAX,
        ensures
            ran(
                *old(self),
                old(bus)@,
                Instruction::ROL,
                addr,
                cycles,
                r,
                *final(self),
                final(bus)@,
            ),
    {
        proof {
            reveal(run);
        }
        let saved = *self;
        let (target, value) = self.fetch_operand(addr, bus)?;
        let result = rotate_left(value, self.flag(CpuFlag::C));
        match self.replace_operand(addr, target, result.value, bus) {
            Ok(()) => {
                self.set_flags_nzc(result);
                self.charge(cycles, false);
                Ok(())
            },
            Err(e) => {
                *self = saved;
                Err(e)
            },
        }
    }

    /// `ROR`: rotates the operand right through Carry. The operand is the
    /// accumulator in Accumulator mode, else a byte in memory, which is
    /// written back.
    pub fn opcode_ror(&mut self, addr: AddrMode, cycles: u8, bus: &mut Bus) -> (r: Result<
        (),
        AddressError,
    >)
        requires
            old(self).cycles + cycles + 1 <= usize::MAX,
        ensures
            ran(
                *old(self),
                old(bus)@,
                Instruction::ROR,
                addr,
                cycles,
                r,
                *final(self),
                final(bus)@,
            ),
    {
        proof {
            reveal(run);
        }
        let saved = *self;
        let (target, value) = self.fetch_operand(addr, bus)?;
        let result = rotate_right(value, self.flag(CpuFlag::C));
        match self.replace_operand(addr, target, result.value, bus) {
            Ok(()) => {
                self.set_flags_nzc(result);
                self.charge(cycles, false);
                Ok(())
            },
            Err(e) => {
                *self = saved;
                Err(e)
            },
        }
    }
}

} // verus!
