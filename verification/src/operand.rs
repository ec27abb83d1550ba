//! What the instructions share: fetching an operand, the stack, the cycle
//! counter and the flag updates that follow arithmetic.

use vstd::prelude::*;
use crate::alu::{decrement, increment, Alu};
use crate::bus::{Bus, BusView};
use crate::cpu::Cpu;
use crate::error::AddressError;
use crate::flags::CpuFlag;
use crate::mode::AddrMode;
use crate::resolver::{resolve, Resolved};
use crate::semantics::{operand, pulled, pushed, replaced, top, with_nzc, with_nzcv, Machine};
use vstd::pervasive::unreached;

verus! {

/// The outcome of resolving an operand and reading its value.
pub open spec fn operand_of(cpu: Cpu, bus: BusView, mode: AddrMode) -> Result<
    (Resolved, u8),
    AddressError,
> {
    match resolve(cpu, bus, mode) {
        Err(e) => Err(e),
        Ok(r) => match operand(cpu, bus, mode, r.addr) {
            Err(e) => Err(e),
            Ok(v) => Ok((r, v)),
        },
    }
}

impl Cpu {
    /// Resolves the operand and reads its value: the accumulator in
    /// Accumulator mode, else the byte at the effective address. Returns the
    /// effective address and the value. On an error nothing has changed.
    pub fn fetch_operand(&mut self, mode: AddrMode, bus: &Bus) -> (r: Result<
        (u16, u8),
        AddressError,
    >)
        ensures
            match operand_of(*old(self), bus@, mode) {
                Ok((res, v)) => r == Ok::<(u16, u8), AddressError>((res.addr, v)) && *final(self)
                    == old(self).resolved(res),
                Err(e) => r == Err::<(u16, u8), AddressError>(e) && *final(self) == *old(self),
            },
    {
        let saved = *self;
        let addr = self.fetch_addr(mode, bus)?;
        if mode == AddrMode::ACC {
            Ok((addr, self.a))
        } else {
            match bus.read(addr) {
                Ok(value) => Ok((addr, value)),
                Err(e) => {
                    *self = saved;
                    Err(e)
                },
            }
        }
    }

    /// Puts `value` in the operand's place: into the accumulator in
    /// Accumulator mode, else at the effective address. On an error nothing
    /// has changed.
    pub fn replace_operand(&mut self, mode: AddrMode, target: u16, value: u8, bus: &mut Bus) -> (r:
        Result<(), AddressError>)
        ensures
            match replaced(*old(self), old(bus)@, mode, target, value, old(self).p) {
                Ok(m) => r == Ok::<(), AddressError>(()) && *final(self) == m.cpu && final(bus)@
                    == m.bus,
                Err(e) => r == Err::<(), AddressError>(e) && *final(self) == *old(self)
                    && final(bus)@ == old(bus)@,
            },
    {
        if mode == AddrMode::ACC {
            self.a = value;
            Ok(())
        } else {
            bus.write(target, value)
        }
    }

    /// Adds an instruction's cycles to the counter, and one more where a
    /// penalty is due.
    pub fn charge(&mut self, cycles: u8, penalty: bool)
        requires
            old(self).cycles + cycles + 1 <= usize::MAX,
        ensures
            *final(self) == (Cpu {
                cycles: (old(self).cycles + cycles + if penalty {
                    1int
                } else {
                    0int
                }) as usize,
                ..*old(self)
            }),
    {
        self.cycles += cycles as usize;
        if penalty {
            self.cycles += 1;
        }
    }

    /// Pushes a byte onto the stack in page one.
    pub fn push(&mut self, bus: &mut Bus, value: u8)
        ensures
            (Machine { cpu: *final(self), bus: final(bus)@ }) == pushed(
                Machine { cpu: *old(self), bus: old(bus)@ },
                value,
            ),
    {
        // Page one lies in the RAM window, which always has an owner.
        match bus.write(0x0100 + self.sp as u16, value) {
            Ok(()) => {},
            Err(_) => unreached(),
        }
        self.sp = decrement(self.sp);
    }

    /// Pulls a byte from the stack in page one.
    pub fn pull(&mut self, bus: &Bus) -> (value: u8)
        ensures
            value == top(Machine { cpu: *old(self), bus: bus@ }),
            (Machine { cpu: *final(self), bus: bus@ }) == pulled(
                Machine { cpu: *old(self), bus: bus@ },
            ),
    {
        self.sp = increment(self.sp);
        // Page one lies in the RAM window, which always has an owner.
        match bus.read(0x0100 + self.sp as u16) {
            Ok(value) => value,
            Err(_) => unreached(),
        }
    }

    /// Takes Negative, Zero and Carry from a result.
    pub fn set_flags_nzc(&mut self, result: Alu)
        ensures
            *final(self) == (Cpu { p: with_nzc(old(self).p, result), ..*old(self) }),
    {
        self.set_flag_negative_zero(result.value);
        self.set_flag(CpuFlag::C, result.carry);
    }

    /// Takes Negative, Zero, Carry and Overflow from a result.
    pub fn set_flags_nzcv(&mut self, result: Alu)
        ensures
            *final(self) == (Cpu { p: with_nzcv(old(self).p, result), ..*old(self) }),
    {
        self.set_flags_nzc(result);
        self.set_flag(CpuFlag::V, result.overflow);
    }
}

} // verus!
