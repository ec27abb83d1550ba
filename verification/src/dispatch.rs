//! The instruction dispatcher: one opcode byte is looked up in the table
//! and the entry decides everything else. Also the instruction cycle around
//! it (fetch, then execute), reset, and one tick of the driving clock.

use vstd::prelude::*;
use crate::bus::{Bus, BusView, RESET_VECTOR};
use crate::cpu::{offset, Cpu};
use crate::error::{AddressError, CpuError};
use crate::mode::AddrMode;
use crate::semantics::{ran, run, Machine};
use crate::table::{lemma_table_shape, lookup, opcode_entry, Family, Instruction};
use vstd::pervasive::unreached;

verus! {

/// A bound on what one instruction adds to the cycle counter: the highest
/// base cost, seven cycles, and one penalty. No instruction pays both
/// penalties, since a branch does not read an operand.
pub const MAX_INSTRUCTION_CYCLES: usize = 8;

/// The outcome of executing `opcode` with the program counter behind it.
/// A byte that is no documented opcode is reported together with the
/// program counter.
pub open spec fn execution(cpu: Cpu, bus: BusView, opcode: u8) -> Result<Machine, CpuError> {
    let entry = opcode_entry(opcode);
    if entry.instruction == Instruction::Illegal {
        Err(CpuError::IllegalOpcode { opcode, pc: cpu.pc })
    } else {
        match run(cpu, bus, entry.instruction, entry.mode, entry.cycles) {
            Ok(m) => Ok(m),
            Err(e) => Err(CpuError::Address(e)),
        }
    }
}

/// The outcome of one instruction cycle: the opcode at the program counter
/// is fetched, the program counter moves past it, and the opcode is
/// executed. An illegal opcode is reported with the address it was fetched
/// from.
pub open spec fn instruction_cycle(cpu: Cpu, bus: BusView) -> Result<Machine, CpuError> {
    match bus.load(cpu.pc) {
        Err(e) => Err(CpuError::Address(e)),
        Ok(opcode) => match execution(Cpu { pc: offset(cpu.pc, 1), ..cpu }, bus, opcode) {
            Ok(m) => Ok(m),
            Err(CpuError::IllegalOpcode { opcode, pc }) => Err(
                CpuError::IllegalOpcode { opcode, pc: cpu.pc },
            ),
            Err(e) => Err(e),
        },
    }
}

/// What the dispatcher promises of an outcome. Where the instruction
/// completes, processor and bus are what the outcome holds. Where it fails,
/// the error is returned, and processor and bus are exactly as they were
/// before: no register, no flag and no byte of memory has changed.
pub open spec fn settled(
    before: Cpu,
    bus_before: BusView,
    outcome: Result<Machine, CpuError>,
    result: Result<(), CpuError>,
    after: Cpu,
    bus_after: BusView,
) -> bool {
    match outcome {
        Ok(m) => result == Ok::<(), CpuError>(()) && after == m.cpu && bus_after == m.bus,
        Err(e) => result == Err::<(), CpuError>(e) && after == before && bus_after
            == bus_before,
    }
}

/// The outcome of a reset: the program counter is loaded from the reset
/// vector and the cycle counter is cleared.
pub open spec fn reset_outcome(cpu: Cpu, bus: BusView) -> Result<Cpu, AddressError> {
    match bus.load_word(RESET_VECTOR) {
        Err(e) => Err(e),
        Ok(pc) => Ok(Cpu { pc, cycles: 0, ..cpu }),
    }
}

/// The outcome of one tick of the clock. With no cycles owed the next
/// instruction runs first. Then one of the cycles owed is paid.
pub open spec fn tick_outcome(cpu: Cpu, bus: BusView) -> Result<Machine, CpuError> {
    if cpu.cycles == 0 {
        match instruction_cycle(cpu, bus) {
            Err(e) => Err(e),
            Ok(m) => Ok(
                Machine {
                    cpu: Cpu { cycles: (m.cpu.cycles - 1) as usize, ..m.cpu },
                    bus: m.bus,
                },
            ),
        }
    } else {
        Ok(Machine { cpu: Cpu { cycles: (cpu.cycles - 1) as usize, ..cpu }, bus })
    }
}

impl Cpu {
    /// The opcode byte at the program counter.
    pub fn fetch_opcode(&self, bus: &Bus) -> (r: Result<u8, AddressError>)
        ensures
            r == bus@.load(self.pc),
    {
        bus.read(self.pc)
    }

    /// The instructions that only read their operand.
    fn execute_read(
        &mut self,
        instruction: Instruction,
        mode: AddrMode,
        cycles: u8,
        bus: &Bus,
    ) -> (r: Result<(), AddressError>)
        requires
            instruction.kind() == Family::Read,
            old(self).cycles + cycles + 1 <= usize::MAX,
        ensures
            ran(*old(self), bus@, instruction, mode, cycles, r, *final(self), bus@),
    {
        match instruction {
            Instruction::ADC => self.opcode_adc(mode, cycles, bus),
            Instruction::AND => self.opcode_and(mode, cycles, bus),
            Instruction::BIT => self.opcode_bit(mode, cycles, bus),
            Instruction::CMP => self.opcode_cmp(mode, cycles, bus),
            Instruction::CPX => self.opcode_cpx(mode, cycles, bus),
            Instruction::CPY => self.opcode_cpy(mode, cycles, bus),
            Instruction::EOR => self.opcode_eor(mode, cycles, bus),
            Instruction::LDA => self.opcode_lda(mode, cycles, bus),
            Instruction::LDX => self.opcode_ldx(mode, cycles, bus),
            Instruction::LDY => self.opcode_ldy(mode, cycles, bus),
            Instruction::ORA => self.opcode_ora(mode, cycles, bus),
            Instruction::SBC => self.opcode_sbc(mode, cycles, bus),
            _ => unreached(),
        }
    }

    /// The instructions that change their operand in place.
    fn execute_modify(
        &mut self,
        instruction: Instruction,
        mode: AddrMode,
        cycles: u8,
        bus: &mut Bus,
    ) -> (r: Result<(), AddressError>)
        requires
            instruction.kind() == Family::Modify,
            old(self).cycles + cycles + 1 <= usize::MAX,
        ensures
            ran(
                *old(self),
                old(bus)@,
                instruction,
                mode,
                cycles,
                r,
                *final(self),
                final(bus)@,
            ),
    {
        match instruction {
            Instruction::ASL => self.opcode_asl(mode, cycles, bus),
            Instruction::DEC => self.opcode_dec(mode, cycles, bus),
            Instruction::INC => self.opcode_inc(mode, cycles, bus),
            Instruction::LSR => self.opcode_lsr(mode, cycles, bus),
            Instruction::ROL => self.opcode_rol(mode, cycles, bus),
            Instruction::ROR => self.opcode_ror(mode, cycles, bus),
            _ => unreached(),
        }
    }

    /// The instructions that store a register.
    fn execute_store(
        &mut self,
        instruction: Instruction,
        mode: AddrMode,
        cycles: u8,
        bus: &mut Bus,
    ) -> (r: Result<(), AddressError>)
        requires
            instruction.kind() == Family::Store,
            old(self).cycles + cycles + 1 <= usize::MAX,
        ensures
            ran(
                *old(self),
                old(bus)@,
                instruction,
                mode,
                cycles,
                r,
                *final(self),
                final(bus)@,
            ),
    {
        match instruction {
            Instruction::STA => self.opcode_sta(mode, cycles, bus),
            Instruction::STX => self.opcode_stx(mode, cycles, bus),
            Instruction::STY => self.opcode_sty(mode, cycles, bus),
            _ => unreached(),
        }
    }

    /// Jumps, subroutines, interrupts and `NOP`.
    fn execute_flow(
        &mut self,
        instruction: Instruction,
        mode: AddrMode,
        cycles: u8,
        bus: &mut Bus,
    ) -> (r: Result<(), AddressError>)
        requires
            instruction.kind() == Family::Flow,
            old(self).cycles + cycles + 1 <= usize::MAX,
        ensures
            ran(
                *old(self),
                old(bus)@,
                instruction,
                mode,
                cycles,
                r,
                *final(self),
                final(bus)@,
            ),
    {
        match instruction {
            Instruction::BRK => self.opcode_brk(mode, cycles, bus),
            Instruction::JMP => self.opcode_jmp(mode, cycles, bus),
            Instruction::JSR => self.opcode_jsr(mode, cycles, bus),
            Instruction::NOP => self.opcode_nop(mode, cycles, bus),
            Instruction::RTI => self.opcode_rti(mode, cycles, bus),
            Instruction::RTS => self.opcode_rts(mode, cycles, bus),
            _ => unreached(),
        }
    }

    /// Pushes and pulls.
    fn execute_stack(
        &mut self,
        instruction: Instruction,
        mode: AddrMode,
        cycles: u8,
        bus: &mut Bus,
    ) -> (r: Result<(), AddressError>)
        requires
            instruction.kind() == Family::Stack,
            old(self).cycles + cycles + 1 <= usize::MAX,
        ensures
            ran(
                *old(self),
                old(bus)@,
                instruction,
                mode,
                cycles,
                r,
                *final(self),
                final(bus)@,
            ),
    {
        match instruction {
            Instruction::PHA => self.opcode_pha(mode, cycles, bus),
            Instruction::PHP => self.opcode_php(mode, cycles, bus),
            Instruction::PLA => self.opcode_pla(mode, cycles, bus),
            Instruction::PLP => self.opcode_plp(mode, cycles, bus),
            _ => unreached(),
        }
    }

    /// The conditional branches.
    fn execute_branch(
        &mut self,
        instruction: Instruction,
        mode: AddrMode,
        cycles: u8,
        bus: &Bus,
    ) -> (r: Result<(), AddressError>)
        requires
            instruction.kind() == Family::Branch,
            old(self).cycles + cycles + 1 <= usize::MAX,
        ensures
            ran(*old(self), bus@, instruction, mode, cycles, r, *final(self), bus@),
    {
        match instruction {
            Instruction::BCC => self.opcode_bcc(mode, cycles, bus),
            Instruction::BCS => self.opcode_bcs(mode, cycles, bus),
            Instruction::BEQ => self.opcode_beq(mode, cycles, bus),
            Instruction::BMI => self.opcode_bmi(mode, cycles, bus),
            Instruction::BNE => self.opcode_bne(mode, cycles, bus),
            Instruction::BPL => self.opcode_bpl(mode, cycles, bus),
            Instruction::BVC => self.opcode_bvc(mode, cycles, bus),
            Instruction::BVS => self.opcode_bvs(mode, cycles, bus),
            _ => unreached(),
        }
    }

    /// Register transfers, increments and decrements.
    fn execute_register(
        &mut self,
        instruction: Instruction,
        mode: AddrMode,
        cycles: u8,
        bus: &Bus,
    ) -> (r: Result<(), AddressError>)
        requires
            instruction.kind() == Family::Register,
            old(self).cycles + cycles + 1 <= usize::MAX,
        ensures
            ran(*old(self), bus@, instruction, mode, cycles, r, *final(self), bus@),
    {
        match instruction {
            Instruction::DEX => self.opcode_dex(mode, cycles, bus),
            Instruction::DEY => self.opcode_dey(mode, cycles, bus),
            Instruction::INX => self.opcode_inx(mode, cycles, bus),
            Instruction::INY => self.opcode_iny(mode, cycles, bus),
            Instruction::TAX => self.opcode_tax(mode, cycles, bus),
            Instruction::TAY => self.opcode_tay(mode, cycles, bus),
            Instruction::TSX => self.opcode_tsx(mode, cycles, bus),
            Instruction::TXA => self.opcode_txa(mode, cycles, bus),
            Instruction::TXS => self.opcode_txs(mode, cycles, bus),
            Instruction::TYA => self.opcode_tya(mode, cycles, bus),
            _ => unreached(),
        }
    }

    /// The instructions that set or clear one flag.
    fn execute_flag(
        &mut self,
        instruction: Instruction,
        mode: AddrMode,
        cycles: u8,
        bus: &Bus,
    ) -> (r: Result<(), AddressError>)
        requires
            instruction.kind() == Family::Flag,
            old(self).cycles + cycles + 1 <= usize::MAX,
        ensures
            ran(*old(self), bus@, instruction, mode, cycles, r, *final(self), bus@),
    {
        match instruction {
            Instruction::CLC => self.opcode_clc(mode, cycles, bus),
            Instruction::CLD => self.opcode_cld(mode, cycles, bus),
            Instruction::CLI => self.opcode_cli(mode, cycles, bus),
            Instruction::CLV => self.opcode_clv(mode, cycles, bus),
            Instruction::SEC => self.opcode_sec(mode, cycles, bus),
            Instruction::SED => self.opcode_sed(mode, cycles, bus),
            Instruction::SEI => self.opcode_sei(mode, cycles, bus),
            _ => unreached(),
        }
    }

    /// Executes one opcode whose byte has been consumed: the table entry
    /// names the instruction, the addressing mode and the base cost.
    pub fn execute_opcode(&mut self, current_opcode: u8, bus: &mut Bus) -> (r: Result<
        (),
        CpuError,
    >)
        requires
            old(self).cycles <= usize::MAX - MAX_INSTRUCTION_CYCLES,
        ensures
            settled(
                *old(self),
                old(bus)@,
                execution(*old(self), old(bus)@, current_opcode),
                r,
                *final(self),
                final(bus)@,
            ),
    {
        let entry = lookup(current_opcode);
        proof {
            lemma_table_shape(current_opcode);
        }
        let instruction = entry.instruction;
        let mode = entry.mode;
        let cycles = entry.cycles;
        let outcome = match instruction.family() {
            Family::Read => self.execute_read(instruction, mode, cycles, bus),
            Family::Modify => self.execute_modify(instruction, mode, cycles, bus),
            Family::Store => self.execute_store(instruction, mode, cycles, bus),
            Family::Flow => self.execute_flow(instruction, mode, cycles, bus),
            Family::Stack => self.execute_stack(instruction, mode, cycles, bus),
            Family::Branch => self.execute_branch(instruction, mode, cycles, bus),
            Family::Register => self.execute_register(instruction, mode, cycles, bus),
            Family::Flag => self.execute_flag(instruction, mode, cycles, bus),
            Family::Illegal => {
                return Err(CpuError::IllegalOpcode { opcode: current_opcode, pc: self.pc });
            },
        };
        match outcome {
            Ok(()) => Ok(()),
            Err(e) => Err(CpuError::Address(e)),
        }
    }

    /// One instruction cycle: fetches the opcode at the program counter,
    /// moves past it and executes it.
    pub fn clock(&mut self, bus: &mut Bus) -> (r: Result<(), CpuError>)
        requires
            old(self).cycles <= usize::MAX - MAX_INSTRUCTION_CYCLES,
        ensures
            settled(
                *old(self),
                old(bus)@,
                instruction_cycle(*old(self), old(bus)@),
                r,
                *final(self),
                final(bus)@,
            ),
    {
        let saved = *self;
        let current_opcode = match self.fetch_opcode(bus) {
            Ok(opcode) => opcode,
            Err(e) => {
                return Err(CpuError::Address(e));
            },
        };
        self.advance(1);
        match self.execute_opcode(current_opcode, bus) {
            Ok(()) => Ok(()),
            Err(CpuError::IllegalOpcode { opcode, pc: _ }) => {
                *self = saved;
                Err(CpuError::IllegalOpcode { opcode, pc: saved.pc })
            },
            Err(e) => {
                *self = saved;
                Err(e)
            },
        }
    }

    /// Resets the processor between two instructions: the program counter
    /// is loaded from the reset vector and the cycle counter is cleared.
    /// Where the vector has no owner nothing changes.
    pub fn reset(&mut self, bus: &Bus) -> (r: Result<(), AddressError>)
        ensures
            match reset_outcome(*old(self), bus@) {
                Ok(cpu) => r == Ok::<(), AddressError>(()) && *final(self) == cpu,
                Err(e) => r == Err::<(), AddressError>(e) && *final(self) == *old(self),
            },
    {
        let pc = bus.read_u16(RESET_VECTOR)?;
        self.jump(pc);
        self.cycles = 0;
        Ok(())
    }

    /// The processor at power-on: every register at zero and the program
    /// counter loaded from the reset vector.
    pub fn power_on(bus: &Bus) -> (r: Result<Cpu, AddressError>)
        ensures
            r == reset_outcome(
                Cpu { a: 0, x: 0, y: 0, pc: 0, sp: 0, p: 0, cycles: 0, page_crossed: false },
                bus@,
            ),
    {
        let mut cpu = Cpu::new();
        cpu.reset(bus)?;
        Ok(cpu)
    }

    /// One tick of the driving clock. The next instruction starts only when
    /// the cycles of the last one have drained to zero; every tick pays one
    /// cycle. The counter never goes below zero.
    pub fn tick(&mut self, bus: &mut Bus) -> (r: Result<(), CpuError>)
        requires
            old(self).cycles <= usize::MAX - MAX_INSTRUCTION_CYCLES,
        ensures
            settled(
                *old(self),
                old(bus)@,
                tick_outcome(*old(self), old(bus)@),
                r,
                *final(self),
                final(bus)@,
            ),
    {
        if self.cycles == 0 {
            self.clock(bus)?;
            proof {
                lemma_cycle_costs(*old(self), old(bus)@);
            }
        }
        self.cycles -= 1;
        Ok(())
    }
}

/// An instruction that completes adds at least two cycles to the counter
/// and at most `MAX_INSTRUCTION_CYCLES`.
pub proof fn lemma_cycle_costs(cpu: Cpu, bus: BusView)
    requires
        cpu.cycles <= usize::MAX - MAX_INSTRUCTION_CYCLES,
        instruction_cycle(cpu, bus) is Ok,
    ensures
        cpu.cycles + 2 <= instruction_cycle(cpu, bus)->Ok_0.cpu.cycles <= cpu.cycles
            + MAX_INSTRUCTION_CYCLES,
{
    let opcode = bus.load(cpu.pc)->Ok_0;
    lemma_table_shape(opcode);
    let entry = opcode_entry(opcode);
    let start = Cpu { pc: offset(cpu.pc, 1), ..cpu };
    crate::laws::lemma_cycles_charged(start, bus, entry.instruction, entry.mode, entry.cycles);
}

} // verus!
