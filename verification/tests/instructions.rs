use emu6502::bus::{Bus, Window};
use emu6502::cpu::Cpu;
use emu6502::error::{AccessKind, AddressError, CpuError};
use emu6502::mode::AddrMode;
use emu6502::table::{lookup, Family, Instruction};

const C: u8 = 0x01;
const Z: u8 = 0x02;
const I: u8 = 0x04;
const D: u8 = 0x08;
const B: u8 = 0x10;
const U: u8 = 0x20;
const V: u8 = 0x40;
const N: u8 = 0x80;

/// A processor at address 0x0200 and a bus that holds `program` there.
fn machine(program: &[u8]) -> (Cpu, Bus) {
    let mut bus = Bus::new();
    for (i, byte) in program.iter().enumerate() {
        bus.write(0x0200 + i as u16, *byte).unwrap();
    }
    let mut cpu = Cpu::new();
    cpu.pc = 0x0200;
    cpu.sp = 0xFF;
    (cpu, bus)
}

#[test]
fn loads_set_their_register_and_the_flags() {
    let (mut cpu, mut bus) = machine(&[0xA2, 0x80, 0xA0, 0x00, 0xA9, 0x01]);
    cpu.clock(&mut bus).unwrap();
    assert_eq!((cpu.x, cpu.p, cpu.pc, cpu.cycles), (0x80, N, 0x0202, 2));
    cpu.clock(&mut bus).unwrap();
    assert_eq!((cpu.y, cpu.p, cpu.pc, cpu.cycles), (0x00, Z, 0x0204, 4));
    cpu.clock(&mut bus).unwrap();
    assert_eq!((cpu.a, cpu.p, cpu.pc, cpu.cycles), (0x01, 0, 0x0206, 6));
    assert_eq!((cpu.x, cpu.y), (0x80, 0x00));
}

#[test]
fn indexed_loads_use_the_other_index() {
    // LDX $10,Y and LDY $10,X
    let (mut cpu, mut bus) = machine(&[0xB6, 0x10, 0xB4, 0x10]);
    bus.write(0x0012, 0x77).unwrap();
    cpu.y = 0x02;
    cpu.clock(&mut bus).unwrap();
    assert_eq!(cpu.x, 0x77);
    bus.write(0x0087, 0x99).unwrap();
    cpu.clock(&mut bus).unwrap();
    assert_eq!((cpu.y, cpu.p, cpu.cycles), (0x99, N, 8));
}

#[test]
fn a_read_across_a_page_costs_one_cycle() {
    // LDA $02F0,X twice, LDX $02F0,Y, ORA ($40),Y
    let (mut cpu, mut bus) =
        machine(&[0xBD, 0xF0, 0x02, 0xBD, 0xF0, 0x02, 0xBE, 0xF0, 0x02, 0x11, 0x40]);
    bus.write(0x0040, 0xF0).unwrap();
    bus.write(0x0041, 0x02).unwrap();
    cpu.x = 0x0F;
    cpu.clock(&mut bus).unwrap();
    assert_eq!((cpu.cycles, cpu.page_crossed), (4, false));
    cpu.x = 0x10;
    cpu.clock(&mut bus).unwrap();
    assert_eq!((cpu.cycles, cpu.page_crossed), (9, true));
    cpu.y = 0x10;
    cpu.clock(&mut bus).unwrap();
    assert_eq!((cpu.cycles, cpu.page_crossed), (14, true));
    cpu.clock(&mut bus).unwrap();
    assert_eq!((cpu.cycles, cpu.page_crossed), (20, true));
}

#[test]
fn a_write_across_a_page_costs_nothing() {
    // STA $02F0,X with and without a crossing; INC $02F0,X with a crossing
    let (mut cpu, mut bus) = machine(&[0x9D, 0xF0, 0x02, 0x9D, 0xF0, 0x02, 0xFE, 0xF0, 0x02]);
    cpu.a = 0x5A;
    cpu.x = 0x01;
    cpu.clock(&mut bus).unwrap();
    assert_eq!((cpu.cycles, cpu.page_crossed), (5, false));
    assert_eq!(bus.read(0x02F1), Ok(0x5A));
    cpu.x = 0x20;
    cpu.clock(&mut bus).unwrap();
    assert_eq!((cpu.cycles, cpu.page_crossed), (10, true));
    assert_eq!(bus.read(0x0310), Ok(0x5A));
    cpu.clock(&mut bus).unwrap();
    assert_eq!((cpu.cycles, cpu.page_crossed), (17, true));
    assert_eq!(bus.read(0x0310), Ok(0x5B));
}

#[test]
fn zero_page_indexing_never_costs_a_cycle() {
    // LDA $FF,X with X = 1 reads address 0x0000
    let (mut cpu, mut bus) = machine(&[0xB5, 0xFF]);
    bus.write(0x0000, 0x42).unwrap();
    bus.write(0x0100, 0x24).unwrap();
    cpu.x = 0x01;
    cpu.clock(&mut bus).unwrap();
    assert_eq!((cpu.a, cpu.cycles, cpu.page_crossed), (0x42, 4, false));
}

#[test]
fn stores_write_a_register_and_leave_the_flags() {
    // STA $10, STX $11, STY $0312
    let (mut cpu, mut bus) = machine(&[0x85, 0x10, 0x86, 0x11, 0x8C, 0x12, 0x03]);
    cpu.a = 0x00;
    cpu.x = 0x80;
    cpu.y = 0x7F;
    cpu.p = C | V;
    cpu.clock(&mut bus).unwrap();
    cpu.clock(&mut bus).unwrap();
    cpu.clock(&mut bus).unwrap();
    assert_eq!(bus.read(0x0010), Ok(0x00));
    assert_eq!(bus.read(0x0011), Ok(0x80));
    assert_eq!(bus.read(0x0312), Ok(0x7F));
    assert_eq!((cpu.p, cpu.pc, cpu.cycles), (C | V, 0x0207, 10));
}

#[test]
fn a_store_without_owner_is_reported_and_changes_nothing() {
    // STA $2000
    let (mut cpu, mut bus) = machine(&[0x8D, 0x00, 0x20]);
    cpu.a = 0x12;
    let before = cpu;
    assert_eq!(
        cpu.clock(&mut bus),
        Err(CpuError::Address(AddressError { addr: 0x2000, kind: AccessKind::Write }))
    );
    assert_eq!(cpu, before);
    bus.register(Window::Peripherals);
    assert_eq!(bus.read(0x2000), Ok(0x00));
    assert_eq!(cpu.clock(&mut bus), Ok(()));
    assert_eq!(bus.read(0x2000), Ok(0x12));
}

#[test]
fn a_load_without_owner_is_reported_and_changes_nothing() {
    // LDA $4000,X
    let (mut cpu, mut bus) = machine(&[0xBD, 0x00, 0x40]);
    cpu.x = 0x05;
    cpu.p = N;
    let before = cpu;
    assert_eq!(
        cpu.clock(&mut bus),
        Err(CpuError::Address(AddressError { addr: 0x4005, kind: AccessKind::Read }))
    );
    assert_eq!(cpu, before);
    // Called by itself behind the opcode: the address 0x4000 is resolved,
    // and reading it fails.
    cpu.pc = 0x0201;
    let before = cpu;
    assert_eq!(
        cpu.opcode_lda(AddrMode::ABS, 4, &bus),
        Err(AddressError { addr: 0x4000, kind: AccessKind::Read })
    );
    assert_eq!(cpu, before);
}

#[test]
fn a_modify_without_owner_is_reported_and_changes_nothing() {
    // INC $4000, ASL $4000
    let (mut cpu, mut bus) = machine(&[0xEE, 0x00, 0x40, 0x0E, 0x00, 0x40]);
    let before = cpu;
    let error = CpuError::Address(AddressError { addr: 0x4000, kind: AccessKind::Read });
    assert_eq!(cpu.clock(&mut bus), Err(error));
    assert_eq!(cpu, before);
    cpu.pc = 0x0203;
    let before = cpu;
    assert_eq!(cpu.clock(&mut bus), Err(error));
    assert_eq!(cpu, before);
}

#[test]
fn a_fetch_without_owner_is_reported() {
    let mut bus = Bus::new();
    let mut cpu = Cpu::new();
    cpu.pc = 0x8000;
    let before = cpu;
    let error = AddressError { addr: 0x8000, kind: AccessKind::Read };
    assert_eq!(cpu.fetch_opcode(&bus), Err(error));
    assert_eq!(cpu.clock(&mut bus), Err(CpuError::Address(error)));
    assert_eq!(cpu, before);
}

#[test]
fn transfers_copy_and_set_flags() {
    // TAX TAY TXA TYA TSX TXS
    let (mut cpu, mut bus) = machine(&[0xAA, 0xA8, 0x8A, 0x98, 0xBA, 0x9A]);
    cpu.a = 0x80;
    cpu.clock(&mut bus).unwrap();
    assert_eq!((cpu.x, cpu.p), (0x80, N));
    cpu.a = 0x00;
    cpu.clock(&mut bus).unwrap();
    assert_eq!((cpu.y, cpu.p), (0x00, Z));
    cpu.clock(&mut bus).unwrap();
    assert_eq!((cpu.a, cpu.p), (0x80, N));
    cpu.clock(&mut bus).unwrap();
    assert_eq!((cpu.a, cpu.p), (0x00, Z));
    cpu.sp = 0x44;
    cpu.clock(&mut bus).unwrap();
    assert_eq!((cpu.x, cpu.p), (0x44, 0));
    cpu.x = 0x00;
    cpu.p = N;
    cpu.clock(&mut bus).unwrap();
    // TXS leaves the flags alone.
    assert_eq!((cpu.sp, cpu.p), (0x00, N));
    assert_eq!((cpu.pc, cpu.cycles), (0x0206, 12));
}

#[test]
fn the_stack_lives_in_page_one() {
    // PHA PHA PLA PLA
    let (mut cpu, mut bus) = machine(&[0x48, 0x48, 0x68, 0x68]);
    cpu.sp = 0x00;
    cpu.a = 0x11;
    cpu.clock(&mut bus).unwrap();
    assert_eq!((cpu.sp, cpu.cycles), (0xFF, 3));
    assert_eq!(bus.read(0x0100), Ok(0x11));
    cpu.a = 0x80;
    cpu.clock(&mut bus).unwrap();
    assert_eq!(cpu.sp, 0xFE);
    assert_eq!(bus.read(0x01FF), Ok(0x80));
    cpu.a = 0x00;
    cpu.clock(&mut bus).unwrap();
    assert_eq!((cpu.a, cpu.sp, cpu.p, cpu.cycles), (0x80, 0xFF, N, 10));
    cpu.clock(&mut bus).unwrap();
    assert_eq!((cpu.a, cpu.sp, cpu.p, cpu.cycles), (0x11, 0x00, 0, 14));
}

#[test]
fn the_status_byte_goes_through_the_stack() {
    // PHP PLP
    let (mut cpu, mut bus) = machine(&[0x08, 0x28, 0x28]);
    cpu.p = N | V | C;
    cpu.clock(&mut bus).unwrap();
    // Break and Unused are set in the copy on the stack only.
    assert_eq!(bus.read(0x01FF), Ok(N | V | U | B | C));
    assert_eq!((cpu.p, cpu.sp, cpu.cycles), (N | V | C, 0xFE, 3));
    cpu.p = 0;
    cpu.clock(&mut bus).unwrap();
    assert_eq!((cpu.p, cpu.sp, cpu.cycles), (N | V | C, 0xFF, 7));
    // Break and Unused keep their register values.
    bus.write(0x0100, 0x00).unwrap();
    cpu.p = 0xFF;
    cpu.clock(&mut bus).unwrap();
    assert_eq!((cpu.p, cpu.sp), (U | B, 0x00));
}

#[test]
fn logical_instructions_combine_with_the_accumulator() {
    // AND #$0F, ORA #$80, EOR #$FF, AND #$00
    let (mut cpu, mut bus) = machine(&[0x29, 0x0F, 0x09, 0x80, 0x49, 0xFF, 0x29, 0x00]);
    cpu.a = 0x3C;
    cpu.clock(&mut bus).unwrap();
    assert_eq!((cpu.a, cpu.p), (0x0C, 0));
    cpu.clock(&mut bus).unwrap();
    assert_eq!((cpu.a, cpu.p), (0x8C, N));
    cpu.clock(&mut bus).unwrap();
    assert_eq!((cpu.a, cpu.p), (0x73, 0));
    cpu.clock(&mut bus).unwrap();
    assert_eq!((cpu.a, cpu.p, cpu.cycles), (0x00, Z, 8));
}

#[test]
fn bit_test_reads_bits_six_and_seven() {
    // BIT $10, BIT $0311
    let (mut cpu, mut bus) = machine(&[0x24, 0x10, 0x2C, 0x11, 0x03]);
    bus.write(0x0010, 0xC0).unwrap();
    bus.write(0x0311, 0x01).unwrap();
    cpu.a = 0x0F;
    cpu.p = C;
    cpu.clock(&mut bus).unwrap();
    assert_eq!((cpu.a, cpu.p, cpu.cycles), (0x0F, N | V | Z | C, 3));
    cpu.clock(&mut bus).unwrap();
    assert_eq!((cpu.a, cpu.p, cpu.cycles), (0x0F, C, 7));
}

#[test]
fn addition_and_subtraction_use_the_carry() {
    // ADC #$50, ADC #$50, SBC #$01, SBC #$A0
    let (mut cpu, mut bus) = machine(&[0x69, 0x50, 0x69, 0x50, 0xE9, 0x01, 0xE9, 0xA0]);
    cpu.a = 0x00;
    cpu.p = C | D;
    cpu.clock(&mut bus).unwrap();
    assert_eq!((cpu.a, cpu.p), (0x51, D));
    cpu.clock(&mut bus).unwrap();
    assert_eq!((cpu.a, cpu.p), (0xA1, N | V | D));
    // Carry is clear: one more is taken.
    cpu.clock(&mut bus).unwrap();
    assert_eq!((cpu.a, cpu.p), (0x9F, N | C | D));
    cpu.clock(&mut bus).unwrap();
    assert_eq!((cpu.a, cpu.p, cpu.cycles), (0xFF, N | D, 8));
}

#[test]
fn comparisons_set_flags_and_keep_registers() {
    // CMP #$10, CPX #$11, CPY $10
    let (mut cpu, mut bus) = machine(&[0xC9, 0x10, 0xE0, 0x11, 0xC4, 0x10]);
    bus.write(0x0010, 0x0F).unwrap();
    cpu.a = 0x10;
    cpu.x = 0x10;
    cpu.y = 0x10;
    cpu.p = V;
    cpu.clock(&mut bus).unwrap();
    assert_eq!(cpu.p, V | Z | C);
    cpu.clock(&mut bus).unwrap();
    assert_eq!(cpu.p, V | N);
    cpu.clock(&mut bus).unwrap();
    assert_eq!(cpu.p, V | C);
    assert_eq!((cpu.a, cpu.x, cpu.y, cpu.cycles), (0x10, 0x10, 0x10, 7));
}

#[test]
fn increments_and_decrements_wrap() {
    // INX INY DEX DEY INC $10 DEC $11
    let (mut cpu, mut bus) = machine(&[0xE8, 0xC8, 0xCA, 0x88, 0xE6, 0x10, 0xC6, 0x11]);
    bus.write(0x0010, 0xFF).unwrap();
    bus.write(0x0011, 0x00).unwrap();
    cpu.x = 0xFF;
    cpu.y = 0x7F;
    cpu.p = C;
    cpu.clock(&mut bus).unwrap();
    assert_eq!((cpu.x, cpu.p), (0x00, Z | C));
    cpu.clock(&mut bus).unwrap();
    assert_eq!((cpu.y, cpu.p), (0x80, N | C));
    cpu.clock(&mut bus).unwrap();
    assert_eq!((cpu.x, cpu.p), (0xFF, N | C));
    cpu.clock(&mut bus).unwrap();
    assert_eq!((cpu.y, cpu.p), (0x7F, C));
    cpu.clock(&mut bus).unwrap();
    assert_eq!((bus.read(0x0010), cpu.p, cpu.cycles), (Ok(0x00), Z | C, 13));
    cpu.clock(&mut bus).unwrap();
    assert_eq!((bus.read(0x0011), cpu.p, cpu.cycles), (Ok(0xFF), N | C, 18));
}

#[test]
fn shifts_work_on_the_accumulator_and_on_memory() {
    // ASL A, LSR A, ROL A, ROR A, ASL $10, ROR $0310,X
    let (mut cpu, mut bus) =
        machine(&[0x0A, 0x4A, 0x2A, 0x6A, 0x06, 0x10, 0x7E, 0x10, 0x03]);
    bus.write(0x0010, 0xC0).unwrap();
    bus.write(0x0311, 0x01).unwrap();
    cpu.a = 0x81;
    cpu.clock(&mut bus).unwrap();
    assert_eq!((cpu.a, cpu.p, cpu.cycles), (0x02, C, 2));
    cpu.clock(&mut bus).unwrap();
    assert_eq!((cpu.a, cpu.p), (0x01, 0));
    cpu.p = C;
    cpu.clock(&mut bus).unwrap();
    assert_eq!((cpu.a, cpu.p), (0x03, 0));
    cpu.clock(&mut bus).unwrap();
    assert_eq!((cpu.a, cpu.p), (0x01, C));
    cpu.clock(&mut bus).unwrap();
    assert_eq!((bus.read(0x0010), cpu.a, cpu.p, cpu.cycles), (Ok(0x80), 0x01, N | C, 13));
    cpu.x = 0x01;
    cpu.clock(&mut bus).unwrap();
    assert_eq!((bus.read(0x0311), cpu.a, cpu.p, cpu.cycles), (Ok(0x80), 0x01, N | C, 20));
}

#[test]
fn jumps_set_the_program_counter() {
    // JMP $0210; at 0x0210: JMP ($02FF)
    let (mut cpu, mut bus) = machine(&[0x4C, 0x10, 0x02]);
    for (addr, byte) in [(0x0210u16, 0x6Cu8), (0x0211, 0xFF), (0x0212, 0x02)] {
        bus.write(addr, byte).unwrap();
    }
    bus.write(0x02FF, 0x00).unwrap();
    bus.write(0x0300, 0x07).unwrap();
    // The high byte of the target is read at 0x0200, which holds 0x4C.
    cpu.p = N | C;
    cpu.clock(&mut bus).unwrap();
    assert_eq!((cpu.pc, cpu.cycles, cpu.p), (0x0210, 3, N | C));
    cpu.clock(&mut bus).unwrap();
    assert_eq!((cpu.pc, cpu.cycles, cpu.p), (0x4C00, 8, N | C));
}

#[test]
fn a_subroutine_returns_behind_its_call() {
    // JSR $0300; at 0x0300: RTS
    let (mut cpu, mut bus) = machine(&[0x20, 0x00, 0x03, 0xEA]);
    bus.write(0x0300, 0x60).unwrap();
    cpu.clock(&mut bus).unwrap();
    assert_eq!((cpu.pc, cpu.sp, cpu.cycles), (0x0300, 0xFD, 6));
    // The address of the last byte of the call, high byte first.
    assert_eq!(bus.read(0x01FF), Ok(0x02));
    assert_eq!(bus.read(0x01FE), Ok(0x02));
    cpu.clock(&mut bus).unwrap();
    assert_eq!((cpu.pc, cpu.sp, cpu.cycles), (0x0203, 0xFF, 12));
    cpu.clock(&mut bus).unwrap();
    assert_eq!((cpu.pc, cpu.cycles), (0x0204, 14));
}

#[test]
fn a_break_goes_through_the_interrupt_vector() {
    // BRK; at 0x0300: RTI
    let (mut cpu, mut bus) = machine(&[0x00, 0xEA, 0xEA]);
    bus.register(Window::Cartridge);
    bus.write(0xFFFE, 0x00).unwrap();
    bus.write(0xFFFF, 0x03).unwrap();
    bus.write(0x0300, 0x40).unwrap();
    cpu.p = N | C;
    cpu.clock(&mut bus).unwrap();
    assert_eq!((cpu.pc, cpu.sp, cpu.p, cpu.cycles), (0x0300, 0xFC, N | I | C, 7));
    assert_eq!(bus.read(0x01FF), Ok(0x02));
    assert_eq!(bus.read(0x01FE), Ok(0x02));
    assert_eq!(bus.read(0x01FD), Ok(N | U | B | C));
    cpu.clock(&mut bus).unwrap();
    assert_eq!((cpu.pc, cpu.sp, cpu.p, cpu.cycles), (0x0202, 0xFF, N | C, 13));
}

#[test]
fn a_break_without_vector_pushes_nothing() {
    let (mut cpu, mut bus) = machine(&[0x00]);
    let before = cpu;
    assert_eq!(
        cpu.clock(&mut bus),
        Err(CpuError::Address(AddressError { addr: 0xFFFE, kind: AccessKind::Read }))
    );
    assert_eq!(cpu, before);
    assert_eq!(bus.read(0x01FF), Ok(0x00));
    assert_eq!(bus.read(0x01FE), Ok(0x00));
    assert_eq!(bus.read(0x01FD), Ok(0x00));
}

#[test]
fn a_branch_that_is_taken_costs_one_cycle() {
    let cases = [
        (0x90u8, C, false),
        (0xB0, C, true),
        (0xD0, Z, false),
        (0xF0, Z, true),
        (0x10, N, false),
        (0x30, N, true),
        (0x50, V, false),
        (0x70, V, true),
    ];
    for (opcode, flag, when_set) in cases {
        for set in [false, true] {
            let (mut cpu, mut bus) = machine(&[opcode, 0x10]);
            cpu.p = if set { flag } else { !flag };
            let p = cpu.p;
            cpu.clock(&mut bus).unwrap();
            if set == when_set {
                assert_eq!((cpu.pc, cpu.cycles), (0x0212, 3));
            } else {
                assert_eq!((cpu.pc, cpu.cycles), (0x0202, 2));
            }
            assert_eq!(cpu.p, p);
        }
    }
}

#[test]
fn a_branch_into_another_page_costs_no_more() {
    // BNE -4 from 0x0202 reaches 0x01FE
    let (mut cpu, mut bus) = machine(&[0xD0, 0xFC]);
    cpu.clock(&mut bus).unwrap();
    assert_eq!((cpu.pc, cpu.cycles, cpu.page_crossed), (0x01FE, 3, true));
}

#[test]
fn flag_instructions_touch_one_flag() {
    // SEC SED SEI CLC CLD CLI CLV
    let (mut cpu, mut bus) = machine(&[0x38, 0xF8, 0x78, 0x18, 0xD8, 0x58, 0xB8]);
    cpu.p = V | N;
    cpu.clock(&mut bus).unwrap();
    assert_eq!(cpu.p, V | N | C);
    cpu.clock(&mut bus).unwrap();
    assert_eq!(cpu.p, V | N | C | D);
    cpu.clock(&mut bus).unwrap();
    assert_eq!(cpu.p, V | N | C | D | I);
    cpu.clock(&mut bus).unwrap();
    assert_eq!(cpu.p, V | N | D | I);
    cpu.clock(&mut bus).unwrap();
    assert_eq!(cpu.p, V | N | I);
    cpu.clock(&mut bus).unwrap();
    assert_eq!(cpu.p, V | N);
    cpu.clock(&mut bus).unwrap();
    assert_eq!(cpu.p, N);
    assert_eq!((cpu.pc, cpu.cycles), (0x0207, 14));
}

#[test]
fn nop_costs_two_cycles() {
    let (mut cpu, mut bus) = machine(&[0xEA]);
    cpu.a = 1;
    cpu.x = 2;
    cpu.y = 3;
    cpu.p = 0xFF;
    let mut expected = cpu;
    cpu.clock(&mut bus).unwrap();
    expected.pc = 0x0201;
    expected.cycles = 2;
    assert_eq!(cpu, expected);
}

#[test]
fn the_table_holds_the_documented_instruction_set() {
    let documented = (0..=255u8)
        .filter(|opcode| lookup(*opcode).instruction != Instruction::Illegal)
        .count();
    assert_eq!(documented, 151);
    let entry = lookup(0xA9);
    assert_eq!((entry.instruction, entry.mode, entry.cycles), (Instruction::LDA, AddrMode::IMM, 2));
    let entry = lookup(0x6C);
    assert_eq!((entry.instruction, entry.mode, entry.cycles), (Instruction::JMP, AddrMode::IND, 5));
    let entry = lookup(0x91);
    assert_eq!((entry.instruction, entry.mode, entry.cycles), (Instruction::STA, AddrMode::INY, 6));
    let entry = lookup(0x1E);
    assert_eq!((entry.instruction, entry.mode, entry.cycles), (Instruction::ASL, AddrMode::ABX, 7));
    let entry = lookup(0x00);
    assert_eq!((entry.instruction, entry.mode, entry.cycles), (Instruction::BRK, AddrMode::IMP, 7));
    for opcode in [0x02u8, 0x80, 0x9C, 0xFF] {
        assert_eq!(lookup(opcode).instruction, Instruction::Illegal);
        assert_eq!(lookup(opcode).instruction.family(), Family::Illegal);
    }
    assert_eq!(Instruction::LDA.family(), Family::Read);
    assert_eq!(Instruction::INC.family(), Family::Modify);
    assert_eq!(Instruction::STA.family(), Family::Store);
    assert_eq!(Instruction::BNE.family(), Family::Branch);
}

#[test]
fn every_opcode_either_runs_or_is_reported() {
    for opcode in 0..=255u8 {
        let (mut cpu, mut bus) = machine(&[opcode, 0x10, 0x03]);
        bus.register(Window::Peripherals);
        bus.register(Window::Io);
        bus.register(Window::Cartridge);
        let before = cpu;
        let entry = lookup(opcode);
        let result = cpu.clock(&mut bus);
        if entry.instruction == Instruction::Illegal {
            assert_eq!(result, Err(CpuError::IllegalOpcode { opcode, pc: 0x0200 }));
            assert_eq!(cpu, before);
        } else {
            assert_eq!(result, Ok(()));
            let taken = entry.instruction.family() == Family::Branch && cpu.pc != 0x0202;
            assert_eq!(cpu.cycles, entry.cycles as usize + taken as usize);
            assert!(cpu.cycles >= 2 && cpu.cycles <= 7);
        }
    }
}

#[test]
fn execute_reports_the_program_counter_it_was_given() {
    let (mut cpu, mut bus) = machine(&[]);
    let before = cpu;
    assert_eq!(
        cpu.execute_opcode(0x02, &mut bus),
        Err(CpuError::IllegalOpcode { opcode: 0x02, pc: 0x0200 })
    );
    assert_eq!(cpu, before);
    // INX
    assert_eq!(cpu.execute_opcode(0xE8, &mut bus), Ok(()));
    assert_eq!((cpu.x, cpu.pc, cpu.cycles), (1, 0x0200, 2));
}
