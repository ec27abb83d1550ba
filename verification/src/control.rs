//! Jumps, subroutines, interrupts, branches and the flag instructions.

use vstd::prelude::*;
use crate::bus::{high, low, make_word, Bus, IRQ_VECTOR};
use crate::cpu::{next_address, previous_address, Cpu};
use crate::error::AddressError;
use crate::flags::CpuFlag;
use crate::mode::AddrMode;
use crate::semantics::{ran, run};
use crate::table::Instruction;

verus! {

impl Cpu {
    /// `JMP`: sets the program counter to the effective address.
    pub fn opcode_jmp(&mut self, addr: AddrMode, cycles: u8, bus: &Bus) -> (r: Result<
        (),
        AddressError,
    >)
        requires
            old(self).cycles + cycles + 1 <= usize::MAX,
        ensures
            ran(*old(self), bus@, Instruction::JMP, addr, cycles, r, *final(self), bus@),
    {
        proof {
            reveal(run);
        }
        let target = self.fetch_addr(addr, bus)?;
        self.jump(target);
        self.charge(cycles, false);
        Ok(())
    }

    /// `JSR`: pushes the address of the last byte of this instruction, high
    /// byte first, and jumps to the effective address.
    pub fn opcode_jsr(&mut self, addr: AddrMode, cycles: u8, bus: &mut Bus) -> (r: Result<
        (),
        AddressError,
    >)
        requires
            old(self).cycles + cycles + 1 <= usize::MAX,
        ensures
            ran(
                *old(self),
                old(bus)@,
                Instruction::JSR,
                addr,
                cycles,
                r,
                *final(self),
                final(bus)@,
            ),
    {
        proof {
            reveal(run);
        }
        let target = self.fetch_addr(addr, bus)?;
        let back = previous_address(self.pc);
        self.push(bus, high(back));
        self.push(bus, low(back));
        self.jump(target);
        self.charge(cycles, false);
        Ok(())
    }

    /// `RTS`: pulls an address, low byte first, and continues at the byte
    /// after it.
    pub fn opcode_rts(&mut self, addr: AddrMode, cycles: u8, bus: &Bus) -> (r: Result<
        (),
        AddressError,
    >)
        requires
            old(self).cycles + cycles + 1 <= usize::MAX,
        ensures
            ran(*old(self), bus@, Instruction::RTS, addr, cycles, r, *final(self), bus@),
    {
        proof {
            reveal(run);
        }
        self.fetch_addr(addr, bus)?;
        let lo = self.pull(bus);
        let hi = self.pull(bus);
        self.jump(next_address(make_word(lo, hi)));
        self.charge(cycles, false);
        Ok(())
    }

    /// `RTI`: pulls the status byte as `PLP` does, then the program counter,
    /// low byte first.
    pub fn opcode_rti(&mut self, addr: AddrMode, cycles: u8, bus: &Bus) -> (r: Result<
        (),
        AddressError,
    >)
        requires
            old(self).cycles + cycles + 1 <= usize::MAX,
        ensures
            ran(*old(self), bus@, Instruction::RTI, addr, cycles, r, *final(self), bus@),
    {
        proof {
            reveal(run);
        }
        self.fetch_addr(addr, bus)?;
        let status = self.pull(bus);
        let lo = self.pull(bus);
        let hi = self.pull(bus);
        self.p = (status & 0xCF) | (self.p & 0x30);
        self.jump(make_word(lo, hi));
        self.charge(cycles, false);
        Ok(())
    }

    /// `BRK`: pushes the address two bytes behind the opcode and the status
    /// byte with Break set, disables interrupts and continues at the address
    /// in the interrupt vector. Where the vector has no owner nothing is
    /// pushed.
    pub fn opcode_brk(&mut self, addr: AddrMode, cycles: u8, bus: &mut Bus) -> (r: Result<
        (),
        AddressError,
    >)
        requires
            old(self).cycles + cycles + 1 <= usize::MAX,
        ensures
            ran(
                *old(self),
                old(bus)@,
                Instruction::BRK,
                addr,
                cycles,
                r,
                *final(self),
                final(bus)@,
            ),
    {
        proof {
            reveal(run);
        }
        let saved = *self;
        self.fetch_addr(addr, bus)?;
        match bus.read_u16(IRQ_VECTOR) {
            Ok(target) => {
                let back = next_address(self.pc);
                let status = self.p | 0x30;
                self.push(bus, high(back));
                self.push(bus, low(back));
                self.push(bus, status);
                self.set_flag(CpuFlag::I, true);
                self.jump(target);
                self.charge(cycles, false);
                Ok(())
            },
            Err(e) => {
                *self = saved;
                Err(e)
            },
        }
    }

    /// `NOP`: nothing but the cycles.
    pub fn opcode_nop(&mut self, addr: AddrMode, cycles: u8, bus: &Bus) -> (r: Result<
        (),
        AddressError,
    >)
        requires
            old(self).cycles + cycles + 1 <= usize::MAX,
        ensures
            ran(*old(self), bus@, Instruction::NOP, addr, cycles, r, *final(self), bus@),
    {
        proof {
            reveal(run);
        }
        self.fetch_addr(addr, bus)?;
        self.charge(cycles, false);
        Ok(())
    }

    /// `BCC`: branches while Carry is clear. A branch that is taken costs one
    /// cycle more.
    pub fn opcode_bcc(&mut self, addr: AddrMode, cycles: u8, bus: &Bus) -> (r: Result<
        (),
        AddressError,
    >)
        requires
            old(self).cycles + cycles + 1 <= usize::MAX,
        ensures
            ran(*old(self), bus@, Instruction::BCC, addr, cycles, r, *final(self), bus@),
    {
        proof {
            reveal(run);
        }
        let taken = !self.flag(CpuFlag::C);
        let target = self.fetch_addr(addr, bus)?;
        if taken {
            self.jump(target);
        }
        self.charge(cycles, taken);
        Ok(())
    }

    /// `BCS`: branches while Carry is set. A branch that is taken costs one
    /// cycle more.
    pub fn opcode_bcs(&mut self, addr: AddrMode, cycles: u8, bus: &Bus) -> (r: Result<
        (),
        AddressError,
    >)
        requires
            old(self).cycles + cycles + 1 <= usize::MAX,
        ensures
            ran(*old(self), bus@, Instruction::BCS, addr, cycles, r, *final(self), bus@),
    {
        proof {
            reveal(run);
        }
        let taken = self.flag(CpuFlag::C);
        let target = self.fetch_addr(addr, bus)?;
        if taken {
            self.jump(target);
        }
        self.charge(cycles, taken);
        Ok(())
    }

    /// `BNE`: branches while Zero is clear. A branch that is taken costs one
    /// cycle more.
    pub fn opcode_bne(&mut self, addr: AddrMode, cycles: u8, bus: &Bus) -> (r: Result<
        (),
        AddressError,
    >)
        requires
            old(self).cycles + cycles + 1 <= usize::MAX,
        ensures
            ran(*old(self), bus@, Instruction::BNE, addr, cycles, r, *final(self), bus@),
    {
        proof {
            reveal(run);
        }
        let taken = !self.flag(CpuFlag::Z);
        let target = self.fetch_addr(addr, bus)?;
        if taken {
            self.jump(target);
        }
        self.charge(cycles, taken);
        Ok(())
    }

    /// `BEQ`: branches while Zero is set. A branch that is taken costs one
    /// cycle more.
    pub fn opcode_beq(&mut self, addr: AddrMode, cycles: u8, bus: &Bus) -> (r: Result<
        (),
        AddressError,
    >)
        requires
            old(self).cycles + cycles + 1 <= usize::MAX,
        ensures
            ran(*old(self), bus@, Instruction::BEQ, addr, cycles, r, *final(self), bus@),
    {
        proof {
            reveal(run);
        }
        let taken = self.flag(CpuFlag::Z);
        let target = self.fetch_addr(addr, bus)?;
        if taken {
            self.jump(target);
        }
        self.charge(cycles, taken);
        Ok(())
    }

    /// `BPL`: branches while Negative is clear. A branch that is taken costs
    /// one cycle more.
    pub fn opcode_bpl(&mut self, addr: AddrMode, cycles: u8, bus: &Bus) -> (r: Result<
        (),
        AddressError,
    >)
        requires
            old(self).cycles + cycles + 1 <= usize::MAX,
        ensures
            ran(*old(self), bus@, Instruction::BPL, addr, cycles, r, *final(self), bus@),
    {
        proof {
            reveal(run);
        }
        let taken = !self.flag(CpuFlag::N);
        let target = self.fetch_addr(addr, bus)?;
        if taken {
            self.jump(target);
        }
        self.charge(cycles, taken);
        Ok(())
    }

    /// `BMI`: branches while Negative is set. A branch that is taken costs
    /// one cycle more.
    pub fn opcode_bmi(&mut self, addr: AddrMode, cycles: u8, bus: &Bus) -> (r: Result<
        (),
        AddressError,
    >)
        requires
            old(self).cycles + cycles + 1 <= usize::MAX,
        ensures
            ran(*old(self), bus@, Instruction::BMI, addr, cycles, r, *final(self), bus@),
    {
        proof {
            reveal(run);
        }
        let taken = self.flag(CpuFlag::N);
        let target = self.fetch_addr(addr, bus)?;
        if taken {
            self.jump(target);
        }
        self.charge(cycles, taken);
        Ok(())
    }

    /// `BVC`: branches while Overflow is clear. A branch that is taken costs
    /// one cycle more.
    pub fn opcode_bvc(&mut self, addr: AddrMode, cycles: u8, bus: &Bus) -> (r: Result<
        (),
        AddressError,
    >)
        requires
            old(self).cycles + cycles + 1 <= usize::MAX,
        ensures
            ran(*old(self), bus@, Instruction::BVC, addr, cycles, r, *final(self), bus@),
    {
        proof {
            reveal(run);
        }
        let taken = !self.flag(CpuFlag::V);
        let target = self.fetch_addr(addr, bus)?;
        if taken {
            self.jump(target);
        }
        self.charge(cycles, taken);
        Ok(())
    }

    /// `BVS`: branches while Overflow is set. A branch that is taken costs
    /// one cycle more.
    pub fn opcode_bvs(&mut self, addr: AddrMode, cycles: u8, bus: &Bus) -> (r: Result<
        (),
        AddressError,
    >)
        requires
            old(self).cycles + cycles + 1 <= usize::MAX,
        ensures
            ran(*old(self), bus@, Instruction::BVS, addr, cycles, r, *final(self), bus@),
    {
        proof {
            reveal(run);
        }
        let taken = self.flag(CpuFlag::V);
        let target = self.fetch_addr(addr, bus)?;
        if taken {
            self.jump(target);
        }
        self.charge(cycles, taken);
        Ok(())
    }

    /// `CLC`: clears Carry.
    pub fn opcode_clc(&mut self, addr: AddrMode, cycles: u8, bus: &Bus) -> (r: Result<
        (),
        AddressError,
    >)
        requires
            old(self).cycles + cycles + 1 <= usize::MAX,
        ensures
            ran(*old(self), bus@, Instruction::CLC, addr, cycles, r, *final(self), bus@),
    {
        proof {
            reveal(run);
        }
        self.fetch_addr(addr, bus)?;
        self.set_flag(CpuFlag::C, false);
        self.charge(cycles, false);
        Ok(())
    }

    /// `SEC`: sets Carry.
    pub fn opcode_sec(&mut self, addr: AddrMode, cycles: u8, bus: &Bus) -> (r: Result<
        (),
        AddressError,
    >)
        requires
            old(self).cycles + cycles + 1 <= usize::MAX,
        ensures
            ran(*old(self), bus@, Instruction::SEC, addr, cycles, r, *final(self), bus@),
    {
        proof {
            reveal(run);
        }
        self.fetch_addr(addr, bus)?;
        self.set_flag(CpuFlag::C, true);
        self.charge(cycles, false);
        Ok(())
    }

    /// `CLI`: clears Interrupt Disable.
    pub fn opcode_cli(&mut self, addr: AddrMode, cycles: u8, bus: &Bus) -> (r: Result<
        (),
        AddressError,
    >)
        requires
            old(self).cycles + cycles + 1 <= usize::MAX,
        ensures
            ran(*old(self), bus@, Instruction::CLI, addr, cycles, r, *final(self), bus@),
    {
        proof {
            reveal(run);
        }
        self.fetch_addr(addr, bus)?;
        self.set_flag(CpuFlag::I, false);
        self.charge(cycles, false);
        Ok(())
    }

    /// `SEI`: sets Interrupt Disable.
    pub fn opcode_sei(&mut self, addr: AddrMode, cycles: u8, bus: &Bus) -> (r: Result<
        (),
        AddressError,
    >)
        requires
            old(self).cycles + cycles + 1 <= usize::MAX,
        ensures
            ran(*old(self), bus@, Instruction::SEI, addr, cycles, r, *final(self), bus@),
    {
        proof {
            reveal(run);
        }
        self.fetch_addr(addr, bus)?;
        self.set_flag(CpuFlag::I, true);
        self.charge(cycles, false);
        Ok(())
    }

    /// `CLD`: clears Decimal.
    pub fn opcode_cld(&mut self, addr: AddrMode, cycles: u8, bus: &Bus) -> (r: Result<
        (),
        AddressError,
    >)
        requires
            old(self).cycles + cycles + 1 <= usize::MAX,
        ensures
            ran(*old(self), bus@, Instruction::CLD, addr, cycles, r, *final(self), bus@),
    {
        proof {
            reveal(run);
        }
        self.fetch_addr(addr, bus)?;
        self.set_flag(CpuFlag::D, false);
        self.charge(cycles, false);
        Ok(())
    }

    /// `SED`: sets Decimal.
    pub fn opcode_sed(&mut self, addr: AddrMode, cycles: u8, bus: &Bus) -> (r: Result<
        (),
        AddressError,
    >)
        requires
            old(self).cycles + cycles + 1 <= usize::MAX,
        ensures
            ran(*old(self), bus@, Instruction::SED, addr, cycles, r, *final(self), bus@),
    {
        proof {
            reveal(run);
        }
        self.fetch_addr(addr, bus)?;
        self.set_flag(CpuFlag::D, true);
        self.charge(cycles, false);
        Ok(())
    }

    /// `CLV`: clears Overflow.
    pub fn opcode_clv(&mut self, addr: AddrMode, cycles: u8, bus: &Bus) -> (r: Result<
        (),
        AddressError,
    >)
        requires
            old(self).cycles + cycles + 1 <= usize::MAX,
        ensures
            ran(*old(self), bus@, Instruction::CLV, addr, cycles, r, *final(self), bus@),
    {
        proof {
            reveal(run);
        }
        self.fetch_addr(addr, bus)?;
        self.set_flag(CpuFlag::V, false);
        self.charge(cycles, false);
        Ok(())
    }
}

} // verus!
