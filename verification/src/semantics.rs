//! What each instruction does, as a function from the machine before it to
//! the machine after it. Nothing here runs: these are the definitions that
//! the executable instructions are proved against.
//!
//! An instruction whose opcode has been consumed runs in three steps: the
//! operand is resolved, the cycle counter is charged, and the operation
//! takes effect. Any access to an address without an owner ends the
//! instruction with that error.

use vstd::prelude::*;
use crate::alu::{
    comparison_of, decremented, difference_of, incremented, rotated_left, rotated_right,
    shifted_left, shifted_right, sum_of, Alu,
};
use crate::bus::{high_byte, low_byte, word, BusView, IRQ_VECTOR};
use crate::cpu::{offset, Cpu};
use crate::error::AddressError;
use crate::flags::{bit7, has_flag, with_flag, with_nz, CpuFlag};
use crate::mode::AddrMode;
use crate::resolver::resolve;
use crate::table::{Family, Instruction};

verus! {

/// The processor together with the bus it is attached to.
pub struct Machine {
    pub cpu: Cpu,
    pub bus: BusView,
}

/// The address in page one that the stack pointer points at.
pub open spec fn stack_address(sp: u8) -> u16 {
    (0x0100 + sp as int) as u16
}

/// The machine after a byte has been pushed: it is stored where the stack
/// pointer points, and the pointer moves down, wrapping within page one.
pub open spec fn pushed(m: Machine, value: u8) -> Machine {
    Machine {
        cpu: Cpu { sp: decremented(m.cpu.sp), ..m.cpu },
        bus: m.bus.put(stack_address(m.cpu.sp), value),
    }
}

/// The machine after a byte has been pulled: the stack pointer moves up.
pub open spec fn pulled(m: Machine) -> Machine {
    Machine { cpu: Cpu { sp: incremented(m.cpu.sp), ..m.cpu }, bus: m.bus }
}

/// The byte that a pull hands out: the one above the stack pointer.
pub open spec fn top(m: Machine) -> u8 {
    m.bus.get(stack_address(incremented(m.cpu.sp)))
}

/// The status byte with Negative, Zero and Carry taken from a result.
pub open spec fn with_nzc(p: u8, r: Alu) -> u8 {
    with_flag(with_nz(p, r.value), CpuFlag::C, r.carry)
}

/// The status byte with Negative, Zero, Carry and Overflow taken from a
/// result.
pub open spec fn with_nzcv(p: u8, r: Alu) -> u8 {
    with_flag(with_nzc(p, r), CpuFlag::V, r.overflow)
}

/// The copy of the status byte that goes onto the stack: Break and Unused
/// are set in it.
pub open spec fn status_pushed(p: u8) -> u8 {
    p | 0x30
}

/// The status byte after one has been pulled from the stack: Break and
/// Unused keep the values they had in the register, the six other flags
/// come from the stack.
pub open spec fn status_pulled(p: u8, from_stack: u8) -> u8 {
    (from_stack & 0xCF) | (p & 0x30)
}

/// The status byte after a bit test of `value` against the accumulator:
/// Zero says that they share no bit, Overflow and Negative are bits 6 and 7
/// of `value`.
pub open spec fn with_bit_test(p: u8, a: u8, value: u8) -> u8 {
    with_flag(
        with_flag(with_flag(p, CpuFlag::Z, a & value == 0), CpuFlag::V, value & 0x40 != 0),
        CpuFlag::N,
        bit7(value),
    )
}

/// Whether a conditional branch is taken under the status byte `p`.
pub open spec fn branch_taken(instruction: Instruction, p: u8) -> bool {
    match instruction {
        Instruction::BCC => !has_flag(p, CpuFlag::C),
        Instruction::BCS => has_flag(p, CpuFlag::C),
        Instruction::BNE => !has_flag(p, CpuFlag::Z),
        Instruction::BEQ => has_flag(p, CpuFlag::Z),
        Instruction::BPL => !has_flag(p, CpuFlag::N),
        Instruction::BMI => has_flag(p, CpuFlag::N),
        Instruction::BVC => !has_flag(p, CpuFlag::V),
        Instruction::BVS => has_flag(p, CpuFlag::V),
        _ => false,
    }
}

/// Whether an instruction pays one cycle for a crossed page: it only reads
/// its operand, its address is a base plus an index, and the effective
/// address lies in another page than the base.
pub open spec fn page_penalty(instruction: Instruction, mode: AddrMode, crossed: bool) -> bool {
    instruction.reads() && mode.indexed() && crossed
}

/// The cycles an instruction adds to the counter: its base cost, one for a
/// crossed page where that is charged, one for a branch that is taken.
pub open spec fn cost(
    instruction: Instruction,
    mode: AddrMode,
    cycles: u8,
    crossed: bool,
    p: u8,
) -> int {
    cycles as int + if page_penalty(instruction, mode, crossed) {
        1int
    } else {
        0int
    } + if branch_taken(instruction, p) {
        1int
    } else {
        0int
    }
}

/// The operand's value: the accumulator in Accumulator mode, else the byte
/// at the effective address.
pub open spec fn operand(cpu: Cpu, bus: BusView, mode: AddrMode, addr: u16) -> Result<
    u8,
    AddressError,
> {
    if mode == AddrMode::ACC {
        Ok(cpu.a)
    } else {
        bus.load(addr)
    }
}

/// The machine after `value` has replaced the operand and the status byte
/// has become `p`.
pub open spec fn replaced(
    cpu: Cpu,
    bus: BusView,
    mode: AddrMode,
    addr: u16,
    value: u8,
    p: u8,
) -> Result<Machine, AddressError> {
    if mode == AddrMode::ACC {
        Ok(Machine { cpu: Cpu { a: value, p, ..cpu }, bus })
    } else {
        match bus.store(addr, value) {
            Err(e) => Err(e),
            Ok(after) => Ok(Machine { cpu: Cpu { p, ..cpu }, bus: after }),
        }
    }
}

/// A register stored at the effective address.
pub open spec fn stored(cpu: Cpu, bus: BusView, addr: u16, value: u8) -> Result<
    Machine,
    AddressError,
> {
    match bus.store(addr, value) {
        Err(e) => Err(e),
        Ok(after) => Ok(Machine { cpu, bus: after }),
    }
}

/// The result of a read-modify-write instruction on the value `v`.
pub open spec fn modified(instruction: Instruction, v: u8, carry: bool) -> Alu {
    match instruction {
        Instruction::ASL => shifted_left(v),
        Instruction::LSR => shifted_right(v),
        Instruction::ROL => rotated_left(v, carry),
        Instruction::ROR => rotated_right(v, carry),
        Instruction::INC => Alu { value: incremented(v), carry, overflow: false },
        Instruction::DEC => Alu { value: decremented(v), carry, overflow: false },
        _ => Alu { value: v, carry, overflow: false },
    }
}

/// The status byte after a read-modify-write instruction: the shifts and
/// rotates set Negative, Zero and Carry, the increments Negative and Zero.
pub open spec fn modified_status(instruction: Instruction, p: u8, r: Alu) -> u8 {
    match instruction {
        Instruction::ASL | Instruction::LSR | Instruction::ROL | Instruction::ROR => with_nzc(
            p,
            r,
        ),
        _ => with_nz(p, r.value),
    }
}

/// The effect of an instruction that reads its operand `v` into the
/// registers and flags.
pub open spec fn read_effect(instruction: Instruction, cpu: Cpu, v: u8) -> Cpu {
    let carry = has_flag(cpu.p, CpuFlag::C);
    match instruction {
        Instruction::LDA => Cpu { a: v, p: with_nz(cpu.p, v), ..cpu },
        Instruction::LDX => Cpu { x: v, p: with_nz(cpu.p, v), ..cpu },
        Instruction::LDY => Cpu { y: v, p: with_nz(cpu.p, v), ..cpu },
        Instruction::AND => Cpu { a: cpu.a & v, p: with_nz(cpu.p, cpu.a & v), ..cpu },
        Instruction::EOR => Cpu { a: cpu.a ^ v, p: with_nz(cpu.p, cpu.a ^ v), ..cpu },
        Instruction::ORA => Cpu { a: cpu.a | v, p: with_nz(cpu.p, cpu.a | v), ..cpu },
        Instruction::ADC => Cpu {
            a: sum_of(cpu.a, v, carry).value,
            p: with_nzcv(cpu.p, sum_of(cpu.a, v, carry)),
            ..cpu
        },
        Instruction::SBC => Cpu {
            a: difference_of(cpu.a, v, carry).value,
            p: with_nzcv(cpu.p, difference_of(cpu.a, v, carry)),
            ..cpu
        },
        Instruction::CMP => Cpu { p: with_nzc(cpu.p, comparison_of(cpu.a, v)), ..cpu },
        Instruction::CPX => Cpu { p: with_nzc(cpu.p, comparison_of(cpu.x, v)), ..cpu },
        Instruction::CPY => Cpu { p: with_nzc(cpu.p, comparison_of(cpu.y, v)), ..cpu },
        Instruction::BIT => Cpu { p: with_bit_test(cpu.p, cpu.a, v), ..cpu },
        _ => cpu,
    }
}

/// The effect of an instruction that touches registers and flags only.
pub open spec fn register_effect(instruction: Instruction, cpu: Cpu) -> Cpu {
    match instruction {
        Instruction::TAX => Cpu { x: cpu.a, p: with_nz(cpu.p, cpu.a), ..cpu },
        Instruction::TAY => Cpu { y: cpu.a, p: with_nz(cpu.p, cpu.a), ..cpu },
        Instruction::TXA => Cpu { a: cpu.x, p: with_nz(cpu.p, cpu.x), ..cpu },
        Instruction::TYA => Cpu { a: cpu.y, p: with_nz(cpu.p, cpu.y), ..cpu },
        Instruction::TSX => Cpu { x: cpu.sp, p: with_nz(cpu.p, cpu.sp), ..cpu },
        Instruction::TXS => Cpu { sp: cpu.x, ..cpu },
        Instruction::INX => Cpu {
            x: incremented(cpu.x),
            p: with_nz(cpu.p, incremented(cpu.x)),
            ..cpu
        },
        Instruction::INY => Cpu {
            y: incremented(cpu.y),
            p: with_nz(cpu.p, incremented(cpu.y)),
            ..cpu
        },
        Instruction::DEX => Cpu {
            x: decremented(cpu.x),
            p: with_nz(cpu.p, decremented(cpu.x)),
            ..cpu
        },
        Instruction::DEY => Cpu {
            y: decremented(cpu.y),
            p: with_nz(cpu.p, decremented(cpu.y)),
            ..cpu
        },
        Instruction::CLC => Cpu { p: with_flag(cpu.p, CpuFlag::C, false), ..cpu },
        Instruction::SEC => Cpu { p: with_flag(cpu.p, CpuFlag::C, true), ..cpu },
        Instruction::CLI => Cpu { p: with_flag(cpu.p, CpuFlag::I, false), ..cpu },
        Instruction::SEI => Cpu { p: with_flag(cpu.p, CpuFlag::I, true), ..cpu },
        Instruction::CLD => Cpu { p: with_flag(cpu.p, CpuFlag::D, false), ..cpu },
        Instruction::SED => Cpu { p: with_flag(cpu.p, CpuFlag::D, true), ..cpu },
        Instruction::CLV => Cpu { p: with_flag(cpu.p, CpuFlag::V, false), ..cpu },
        _ => cpu,
    }
}

/// `JSR`: the address of the last byte of the instruction is pushed, high
/// byte first, and the program counter is set to the target.
pub open spec fn called(cpu: Cpu, bus: BusView, addr: u16) -> Machine {
    let back = offset(cpu.pc, -1);
    let m = pushed(pushed(Machine { cpu, bus }, high_byte(back)), low_byte(back));
    Machine { cpu: Cpu { pc: addr, ..m.cpu }, bus: m.bus }
}

/// `RTS`: an address is pulled, low byte first, and the program counter is
/// set to the byte after it.
pub open spec fn returned(cpu: Cpu, bus: BusView) -> Machine {
    let m1 = pulled(Machine { cpu, bus });
    let m2 = pulled(m1);
    let back = word(top(Machine { cpu, bus }), top(m1));
    Machine { cpu: Cpu { pc: offset(back, 1), ..m2.cpu }, bus }
}

/// `RTI`: the status byte is pulled, then the program counter, low byte
/// first.
pub open spec fn resumed(cpu: Cpu, bus: BusView) -> Machine {
    let m0 = Machine { cpu, bus };
    let m1 = pulled(m0);
    let m2 = pulled(m1);
    let m3 = pulled(m2);
    Machine {
        cpu: Cpu { pc: word(top(m1), top(m2)), p: status_pulled(cpu.p, top(m0)), ..m3.cpu },
        bus,
    }
}

/// `BRK`: the interrupt vector is read; the address two bytes behind the
/// opcode and the status byte are pushed; interrupts are disabled and the
/// program counter is set to the vector.
pub open spec fn interrupted(cpu: Cpu, bus: BusView) -> Result<Machine, AddressError> {
    match bus.load_word(IRQ_VECTOR) {
        Err(e) => Err(e),
        Ok(target) => {
            let back = offset(cpu.pc, 1);
            let m = pushed(
                pushed(pushed(Machine { cpu, bus }, high_byte(back)), low_byte(back)),
                status_pushed(cpu.p),
            );
            Ok(
                Machine {
                    cpu: Cpu { pc: target, p: with_flag(cpu.p, CpuFlag::I, true), ..m.cpu },
                    bus: m.bus,
                },
            )
        },
    }
}

/// The register that a store instruction writes to memory.
pub open spec fn stored_register(instruction: Instruction, cpu: Cpu) -> u8 {
    match instruction {
        Instruction::STX => cpu.x,
        Instruction::STY => cpu.y,
        _ => cpu.a,
    }
}

/// The effect of a jump, a call, a return or an interrupt; `NOP` has none.
pub open spec fn flow_effect(cpu: Cpu, bus: BusView, instruction: Instruction, addr: u16) -> Result<
    Machine,
    AddressError,
> {
    match instruction {
        Instruction::JMP => Ok(Machine { cpu: Cpu { pc: addr, ..cpu }, bus }),
        Instruction::JSR => Ok(called(cpu, bus, addr)),
        Instruction::RTS => Ok(returned(cpu, bus)),
        Instruction::RTI => Ok(resumed(cpu, bus)),
        Instruction::BRK => interrupted(cpu, bus),
        _ => Ok(Machine { cpu, bus }),
    }
}

/// The effect of a push or a pull.
pub open spec fn stack_effect(cpu: Cpu, bus: BusView, instruction: Instruction) -> Machine {
    let m = Machine { cpu, bus };
    match instruction {
        Instruction::PHA => pushed(m, cpu.a),
        Instruction::PHP => pushed(m, status_pushed(cpu.p)),
        Instruction::PLA => Machine {
            cpu: Cpu { a: top(m), p: with_nz(cpu.p, top(m)), ..pulled(m).cpu },
            bus,
        },
        Instruction::PLP => Machine {
            cpu: Cpu { p: status_pulled(cpu.p, top(m)), ..pulled(m).cpu },
            bus,
        },
        _ => m,
    }
}

/// The effect of an instruction once its operand address is known, family
/// by family. `cpu` is the processor after the operand has been consumed
/// and the cycles have been charged.
pub open spec fn apply(
    cpu: Cpu,
    bus: BusView,
    instruction: Instruction,
    mode: AddrMode,
    addr: u16,
) -> Result<Machine, AddressError> {
    match instruction.kind() {
        Family::Read => match operand(cpu, bus, mode, addr) {
            Err(e) => Err(e),
            Ok(v) => Ok(Machine { cpu: read_effect(instruction, cpu, v), bus }),
        },
        Family::Modify => match operand(cpu, bus, mode, addr) {
            Err(e) => Err(e),
            Ok(v) => {
                let r = modified(instruction, v, has_flag(cpu.p, CpuFlag::C));
                replaced(cpu, bus, mode, addr, r.value, modified_status(instruction, cpu.p, r))
            },
        },
        Family::Store => stored(cpu, bus, addr, stored_register(instruction, cpu)),
        Family::Flow => flow_effect(cpu, bus, instruction, addr),
        Family::Stack => Ok(stack_effect(cpu, bus, instruction)),
        Family::Branch => Ok(
            Machine {
                cpu: if branch_taken(instruction, cpu.p) {
                    Cpu { pc: addr, ..cpu }
                } else {
                    cpu
                },
                bus,
            },
        ),
        Family::Register | Family::Flag => Ok(
            Machine { cpu: register_effect(instruction, cpu), bus },
        ),
        Family::Illegal => Ok(Machine { cpu, bus }),
    }
}

/// The processor after the operand has been consumed and the instruction's
/// cycles have been added to the counter.
pub open spec fn charged(
    cpu: Cpu,
    instruction: Instruction,
    mode: AddrMode,
    cycles: u8,
    pc: u16,
    crossed: bool,
) -> Cpu {
    Cpu {
        pc,
        page_crossed: crossed,
        cycles: (cpu.cycles + cost(instruction, mode, cycles, crossed, cpu.p)) as usize,
        ..cpu
    }
}

/// One instruction, from the byte after its opcode on: the operand is
/// resolved, the counter is charged, the operation takes effect.
///
/// The definition is opaque, so that a proof which only passes instructions
/// on need not look into them; a proof about one instruction reveals it.
#[verifier::opaque]
pub open spec fn run(
    cpu: Cpu,
    bus: BusView,
    instruction: Instruction,
    mode: AddrMode,
    cycles: u8,
) -> Result<Machine, AddressError> {
    match resolve(cpu, bus, mode) {
        Err(e) => Err(e),
        Ok(r) => apply(
            charged(cpu, instruction, mode, cycles, r.pc, r.crossed),
            bus,
            instruction,
            mode,
            r.addr,
        ),
    }
}

/// What every instruction function promises. Where the instruction
/// completes, processor and bus are as `run` says. Where it touches an
/// address without an owner, that error is returned and processor and bus
/// are as they were.
pub open spec fn ran(
    before: Cpu,
    bus_before: BusView,
    instruction: Instruction,
    mode: AddrMode,
    cycles: u8,
    result: Result<(), AddressError>,
    after: Cpu,
    bus_after: BusView,
) -> bool {
    match run(before, bus_before, instruction, mode, cycles) {
        Ok(m) => result == Ok::<(), AddressError>(()) && after == m.cpu && bus_after == m.bus,
        Err(e) => result == Err::<(), AddressError>(e) && after == before && bus_after
            == bus_before,
    }
}

} // verus!
