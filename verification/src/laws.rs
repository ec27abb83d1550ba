//! What holds of every instruction, whatever the operands: stated once
//! here and proved from the definitions of the instructions.

use vstd::prelude::*;
use crate::alu::{
    comparison_of, lemma_comparison_zero, lemma_decrement_differs, lemma_increment_decrement,
};
use crate::bus::{
    cell_of, high_byte, lemma_mirrors, lemma_store_load, lemma_word_bytes, low_byte,
    next_in_page, word, BusView,
};
use crate::cpu::{lemma_offset_inverse, offset, Cpu};
use crate::dispatch::{execution, instruction_cycle};
use crate::error::{AddressError, CpuError};
use crate::flags::{
    bit7, has_flag, lemma_flags_independent, lemma_with_nz, with_flag, with_nz, CpuFlag,
};
use crate::mode::AddrMode;
use crate::operand::operand_of;
use crate::resolver::{resolve, zero_page};
use crate::semantics::{
    branch_taken, called, modified, pulled, pushed, returned, run, stack_address,
    status_pulled, status_pushed, top, Machine,
};
use crate::table::{opcode_entry, Family, Instruction};

verus! {

/// Each addressing mode consumes a fixed number of instruction bytes:
/// wherever an operand can be resolved, the program counter has advanced
/// by the length of the mode, whatever the bytes and the registers hold.
pub proof fn lemma_operand_length(cpu: Cpu, bus: BusView, mode: AddrMode)
    requires
        resolve(cpu, bus, mode) is Ok,
    ensures
        resolve(cpu, bus, mode)->Ok_0.pc == offset(cpu.pc, mode.operand_len() as int),
        mode.operand_len() <= 2,
{
    reveal(offset);
}

/// An instruction that does not transfer control leaves the program
/// counter behind its operand bytes, and nowhere else.
pub proof fn lemma_program_counter(
    cpu: Cpu,
    bus: BusView,
    instruction: Instruction,
    mode: AddrMode,
    cycles: u8,
)
    requires
        run(cpu, bus, instruction, mode, cycles) is Ok,
        instruction.kind() != Family::Flow || instruction == Instruction::NOP,
        instruction.kind() != Family::Branch,
    ensures
        run(cpu, bus, instruction, mode, cycles)->Ok_0.cpu.pc == offset(
            cpu.pc,
            mode.operand_len() as int,
        ),
{
    reveal(run);
    lemma_operand_length(cpu, bus, mode);
}

/// Zero-page indexed addressing never leaves page zero: the sum of operand
/// byte and index wraps at `0xFF`, and no page crossing is reported.
pub proof fn lemma_zero_page_wraps(cpu: Cpu, bus: BusView, mode: AddrMode)
    requires
        mode == AddrMode::ZPX || mode == AddrMode::ZPY,
        resolve(cpu, bus, mode) is Ok,
    ensures
        bus.load(cpu.pc) is Ok,
        ({
            let r = resolve(cpu, bus, mode)->Ok_0;
            let base = bus.load(cpu.pc)->Ok_0;
            let index = if mode == AddrMode::ZPX { cpu.x } else { cpu.y };
            &&& r.addr <= 0xFF
            &&& r.addr == (base + index) % 256
            &&& !r.crossed
        }),
{
    reveal(zero_page);
}

/// The base address that an indexed mode adds its index to.
pub open spec fn base_address(cpu: Cpu, bus: BusView, mode: AddrMode) -> u16 {
    if mode == AddrMode::INY {
        bus.load_word_in_page(bus.load(cpu.pc)->Ok_0 as u16)->Ok_0
    } else {
        bus.load_word(cpu.pc)->Ok_0
    }
}

/// A page crossing is reported by the indexed modes exactly when the high
/// byte of the effective address differs from the high byte of the base
/// address. The modes without an index and the zero-page modes never
/// report one.
pub proof fn lemma_page_crossing(cpu: Cpu, bus: BusView, mode: AddrMode)
    requires
        resolve(cpu, bus, mode) is Ok,
        mode != AddrMode::REL,
    ensures
        ({
            let r = resolve(cpu, bus, mode)->Ok_0;
            let base = base_address(cpu, bus, mode);
            let index = if mode == AddrMode::ABX { cpu.x } else { cpu.y };
            &&& mode.indexed() ==> r.addr == offset(base, index as int)
            &&& mode.indexed() ==> r.crossed == (high_byte(r.addr) != high_byte(base))
            &&& !mode.indexed() ==> !r.crossed
        }),
{
}

/// The cycles that an instruction adds to the counter are its base cost,
/// plus one where a page-cross penalty is due, plus one where a branch is
/// taken, and nothing else. The penalty is due only to an instruction that
/// reads its operand through Absolute-indexed or Indirect-indexed
/// addressing, and only when the effective address lies in another page
/// than the base address.
pub proof fn lemma_cycles_charged(
    cpu: Cpu,
    bus: BusView,
    instruction: Instruction,
    mode: AddrMode,
    cycles: u8,
)
    requires
        cpu.cycles + cycles + 1 <= usize::MAX,
        run(cpu, bus, instruction, mode, cycles) is Ok,
    ensures
        resolve(cpu, bus, mode) is Ok,
        ({
            let after = run(cpu, bus, instruction, mode, cycles)->Ok_0.cpu;
            let crossed = resolve(cpu, bus, mode)->Ok_0.crossed;
            let penalty = instruction.reads() && mode.indexed() && crossed;
            let taken = instruction.branches() && branch_taken(instruction, cpu.p);
            after.cycles == cpu.cycles + cycles + if penalty { 1int } else { 0int } + if taken {
                1int
            } else {
                0int
            }
        }),
{
    reveal(run);
}

/// Whether Negative and Zero after the instruction describe a register the
/// instruction has written: the loads, the transfers but `TXS`, the logical
/// instructions, addition and subtraction, the register increments and
/// decrements, and `PLA`.
pub open spec fn writes_register(instruction: Instruction) -> bool {
    match instruction {
        Instruction::LDA
        | Instruction::LDX
        | Instruction::LDY
        | Instruction::TAX
        | Instruction::TAY
        | Instruction::TXA
        | Instruction::TYA
        | Instruction::TSX
        | Instruction::AND
        | Instruction::EOR
        | Instruction::ORA
        | Instruction::ADC
        | Instruction::SBC
        | Instruction::INX
        | Instruction::INY
        | Instruction::DEX
        | Instruction::DEY
        | Instruction::PLA => true,
        _ => false,
    }
}

/// The register that holds the result of an instruction.
pub open spec fn result_register(instruction: Instruction, cpu: Cpu) -> u8 {
    match instruction {
        Instruction::LDX
        | Instruction::TAX
        | Instruction::TSX
        | Instruction::INX
        | Instruction::DEX => cpu.x,
        Instruction::LDY | Instruction::TAY | Instruction::INY | Instruction::DEY => cpu.y,
        _ => cpu.a,
    }
}

/// After every load, transfer, logical or arithmetic instruction Negative
/// equals bit 7 of the result and Zero says whether the result is zero.
pub proof fn lemma_result_flags(
    cpu: Cpu,
    bus: BusView,
    instruction: Instruction,
    mode: AddrMode,
    cycles: u8,
)
    requires
        writes_register(instruction),
        run(cpu, bus, instruction, mode, cycles) is Ok,
    ensures
        ({
            let after = run(cpu, bus, instruction, mode, cycles)->Ok_0.cpu;
            let result = result_register(instruction, after);
            &&& has_flag(after.p, CpuFlag::N) == bit7(result)
            &&& has_flag(after.p, CpuFlag::Z) == (result == 0)
        }),
{
    reveal(run);
    let after = run(cpu, bus, instruction, mode, cycles)->Ok_0.cpu;
    let result = result_register(instruction, after);
    lemma_with_nz(cpu.p, result, CpuFlag::C);
    if instruction == Instruction::ADC || instruction == Instruction::SBC {
        let nz = with_nz(cpu.p, result);
        let carry = has_flag(with_flag(nz, CpuFlag::V, false), CpuFlag::C);
        assert forall|c: bool, v: bool|
            has_flag(
                #[trigger] with_flag(with_flag(nz, CpuFlag::C, c), CpuFlag::V, v),
                CpuFlag::N,
            ) == has_flag(nz, CpuFlag::N) && has_flag(
                with_flag(with_flag(nz, CpuFlag::C, c), CpuFlag::V, v),
                CpuFlag::Z,
            ) == has_flag(nz, CpuFlag::Z) by {
            let q = with_flag(nz, CpuFlag::C, c);
            lemma_flags_independent(nz, CpuFlag::C, c, CpuFlag::N);
            lemma_flags_independent(nz, CpuFlag::C, c, CpuFlag::Z);
            lemma_flags_independent(q, CpuFlag::V, v, CpuFlag::N);
            lemma_flags_independent(q, CpuFlag::V, v, CpuFlag::Z);
        }
    }
}

/// After a shift, a rotate, `INC` or `DEC`, Negative and Zero describe the
/// value that has replaced the operand.
pub proof fn lemma_modified_flags(
    cpu: Cpu,
    bus: BusView,
    instruction: Instruction,
    mode: AddrMode,
    cycles: u8,
)
    requires
        instruction.kind() == Family::Modify,
        run(cpu, bus, instruction, mode, cycles) is Ok,
    ensures
        operand_of(cpu, bus, mode) is Ok,
        ({
            let after = run(cpu, bus, instruction, mode, cycles)->Ok_0.cpu;
            let v = operand_of(cpu, bus, mode)->Ok_0.1;
            let result = modified(instruction, v, has_flag(cpu.p, CpuFlag::C)).value;
            &&& has_flag(after.p, CpuFlag::N) == bit7(result)
            &&& has_flag(after.p, CpuFlag::Z) == (result == 0)
            &&& mode == AddrMode::ACC ==> after.a == result
        }),
{
    reveal(run);
    let v = operand_of(cpu, bus, mode)->Ok_0.1;
    let r = modified(instruction, v, has_flag(cpu.p, CpuFlag::C));
    let nz = with_nz(cpu.p, r.value);
    lemma_with_nz(cpu.p, r.value, CpuFlag::C);
    lemma_flags_independent(nz, CpuFlag::C, r.carry, CpuFlag::N);
    lemma_flags_independent(nz, CpuFlag::C, r.carry, CpuFlag::Z);
}

/// After a comparison Zero says that register and operand are equal, and
/// Carry that the register is not below the operand.
pub proof fn lemma_compare_flags(
    cpu: Cpu,
    bus: BusView,
    instruction: Instruction,
    mode: AddrMode,
    cycles: u8,
)
    requires
        instruction == Instruction::CMP || instruction == Instruction::CPX || instruction
            == Instruction::CPY,
        run(cpu, bus, instruction, mode, cycles) is Ok,
    ensures
        operand_of(cpu, bus, mode) is Ok,
        ({
            let after = run(cpu, bus, instruction, mode, cycles)->Ok_0.cpu;
            let v = operand_of(cpu, bus, mode)->Ok_0.1;
            let register = if instruction == Instruction::CMP {
                cpu.a
            } else if instruction == Instruction::CPX {
                cpu.x
            } else {
                cpu.y
            };
            &&& has_flag(after.p, CpuFlag::Z) == (register == v)
            &&& has_flag(after.p, CpuFlag::C) == (register >= v)
            &&& after.a == cpu.a && after.x == cpu.x && after.y == cpu.y
        }),
{
    reveal(run);
    let v = operand_of(cpu, bus, mode)->Ok_0.1;
    let register = if instruction == Instruction::CMP {
        cpu.a
    } else if instruction == Instruction::CPX {
        cpu.x
    } else {
        cpu.y
    };
    lemma_comparison_zero(register, v);
    let difference = comparison_of(register, v).value;
    let nz = with_nz(cpu.p, difference);
    lemma_with_nz(cpu.p, difference, CpuFlag::C);
    lemma_flags_independent(nz, CpuFlag::C, register >= v, CpuFlag::Z);
    lemma_flags_independent(nz, CpuFlag::C, register >= v, CpuFlag::C);
}

/// Indirect addressing follows its pointer without leaving the pointer's
/// page: behind a pointer whose low byte is `0xFF` the high byte of the
/// target is the byte at the start of that page, not the first byte of the
/// next page.
pub proof fn lemma_indirect_stays_in_page(cpu: Cpu, bus: BusView)
    requires
        resolve(cpu, bus, AddrMode::IND) is Ok,
    ensures
        bus.load_word(cpu.pc) is Ok,
        ({
            let pointer = bus.load_word(cpu.pc)->Ok_0;
            let target = resolve(cpu, bus, AddrMode::IND)->Ok_0.addr;
            &&& high_byte(next_in_page(pointer)) == high_byte(pointer)
            &&& pointer % 256 == 255 ==> next_in_page(pointer) == pointer - 255
            &&& pointer % 256 != 255 ==> next_in_page(pointer) == pointer + 1
            &&& target == word(bus.get(pointer), bus.get(next_in_page(pointer)))
        }),
{
    reveal(next_in_page);
    reveal(high_byte);
}

/// A byte that is no documented opcode is never executed. Handed to the
/// dispatcher, it is reported with the program counter; fetched in an
/// instruction cycle, it is reported with the address it was fetched from.
pub proof fn lemma_illegal_opcode(cpu: Cpu, bus: BusView, opcode: u8)
    requires
        opcode_entry(opcode).instruction == Instruction::Illegal,
    ensures
        execution(cpu, bus, opcode) == Err::<Machine, CpuError>(
            CpuError::IllegalOpcode { opcode, pc: cpu.pc },
        ),
        bus.load(cpu.pc) == Ok::<u8, AddressError>(opcode) ==> instruction_cycle(cpu, bus)
            == Err::<Machine, CpuError>(CpuError::IllegalOpcode { opcode, pc: cpu.pc }),
{
}

/// What is pushed is what the next pull hands out, and the pull puts the
/// stack pointer back where it was.
pub proof fn lemma_push_pull(m: Machine, value: u8)
    requires
        m.bus.wf(),
    ensures
        top(pushed(m, value)) == value,
        pulled(pushed(m, value)).cpu == m.cpu,
{
    lemma_increment_decrement(m.cpu.sp);
    lemma_store_load(m.bus, stack_address(m.cpu.sp), value, stack_address(m.cpu.sp));
}

/// A call followed by a return continues behind the call: the program
/// counter is where it stood after the call's operand, and the stack
/// pointer is where it was.
pub proof fn lemma_call_return(cpu: Cpu, bus: BusView, target: u16)
    requires
        bus.wf(),
    ensures
        ({
            let there = called(cpu, bus, target);
            let back = returned(there.cpu, there.bus);
            &&& there.cpu.pc == target
            &&& back.cpu.pc == cpu.pc
            &&& back.cpu.sp == cpu.sp
        }),
{
    let start = Machine { cpu, bus };
    let address = offset(cpu.pc, -1);
    let first = pushed(start, high_byte(address));
    let second = pushed(first, low_byte(address));
    let there = called(cpu, bus, target);
    assert(there.bus == second.bus);
    assert(there.cpu.sp == second.cpu.sp);
    let upper = stack_address(cpu.sp);
    let lower = stack_address(first.cpu.sp);
    lemma_store_load(bus, upper, high_byte(address), upper);
    lemma_push_pull(start, high_byte(address));
    lemma_push_pull(first, low_byte(address));
    lemma_store_load(first.bus, lower, low_byte(address), upper);
    lemma_increment_decrement(cpu.sp);
    assert(cell_of(upper) != cell_of(lower)) by {
        lemma_mirrors(upper, lower);
        lemma_decrement_differs(cpu.sp);
    }
    let m0 = Machine { cpu: there.cpu, bus: there.bus };
    assert(top(m0) == low_byte(address));
    assert(top(pulled(m0)) == high_byte(address));
    lemma_word_bytes(address, 0, 0);
    lemma_offset_inverse(cpu.pc, -1);
}

/// A status byte that is pushed and pulled again is the status byte.
pub proof fn lemma_status_round_trip(p: u8)
    by (bit_vector)
    ensures
        status_pulled(p, status_pushed(p)) == p,
{
}

} // verus!
