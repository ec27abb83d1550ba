use emu6502::bus::{high, low, make_word, Bus};
use emu6502::cpu::{next_address, previous_address, Cpu};
use emu6502::error::{AccessKind, AddressError};
use emu6502::mode::AddrMode;
use emu6502::resolver::{add_displacement, add_index, add_zero_page, pages_differ};

#[test]
fn a_word_splits_into_its_bytes() {
    assert_eq!((low(0x1234), high(0x1234)), (0x34, 0x12));
    assert_eq!((low(0x00FF), high(0x00FF)), (0xFF, 0x00));
    assert_eq!((low(0xFF00), high(0xFF00)), (0x00, 0xFF));
    for addr in [0x0000u16, 0x0001, 0x00FF, 0x0100, 0x7FFF, 0x8000, 0xFFFF] {
        assert_eq!(make_word(low(addr), high(addr)), addr);
    }
}

#[test]
fn addresses_wrap_at_both_ends() {
    assert_eq!(next_address(0x0000), 0x0001);
    assert_eq!(next_address(0xFFFF), 0x0000);
    assert_eq!(previous_address(0x0001), 0x0000);
    assert_eq!(previous_address(0x0000), 0xFFFF);
    assert_eq!(add_index(0x12F0, 0x0F), 0x12FF);
    assert_eq!(add_index(0xFFFF, 0xFF), 0x00FE);
    assert_eq!(add_zero_page(0xFF, 0x01), 0x0000);
    assert_eq!(add_zero_page(0x80, 0x7F), 0x00FF);
    assert_eq!(add_zero_page(0x80, 0x80), 0x0000);
    assert_eq!(add_displacement(0x1000, 0x00), 0x1000);
    assert_eq!(add_displacement(0x1000, 0x7F), 0x107F);
    assert_eq!(add_displacement(0x1000, 0x80), 0x0F80);
    assert_eq!(add_displacement(0x1000, 0xFF), 0x0FFF);
    assert_eq!(add_displacement(0x0000, 0xFF), 0xFFFF);
    assert_eq!(add_displacement(0xFFFF, 0x01), 0x0000);
}

#[test]
fn pages_are_told_apart_by_the_high_byte() {
    assert!(!pages_differ(0x1200, 0x12FF));
    assert!(pages_differ(0x12FF, 0x1300));
    assert!(pages_differ(0xFFFF, 0x0000));
    assert!(!pages_differ(0x0000, 0x0000));
}

#[test]
fn push_and_pull_mirror_each_other() {
    let mut bus = Bus::new();
    let mut cpu = Cpu::new();
    cpu.sp = 0x01;
    cpu.push(&mut bus, 0xAA);
    cpu.push(&mut bus, 0xBB);
    cpu.push(&mut bus, 0xCC);
    assert_eq!(cpu.sp, 0xFE);
    assert_eq!(bus.read(0x0101), Ok(0xAA));
    assert_eq!(bus.read(0x0100), Ok(0xBB));
    assert_eq!(bus.read(0x01FF), Ok(0xCC));
    assert_eq!(cpu.pull(&bus), 0xCC);
    assert_eq!(cpu.pull(&bus), 0xBB);
    assert_eq!(cpu.pull(&bus), 0xAA);
    assert_eq!(cpu.sp, 0x01);
}

#[test]
fn the_counter_is_charged_with_cost_and_penalty() {
    let mut cpu = Cpu::new();
    cpu.charge(4, false);
    assert_eq!(cpu.cycles, 4);
    cpu.charge(4, true);
    assert_eq!(cpu.cycles, 9);
    cpu.charge(0, false);
    assert_eq!(cpu.cycles, 9);
}

#[test]
fn an_operand_is_a_byte_in_memory_or_the_accumulator() {
    let mut bus = Bus::new();
    bus.write(0x0000, 0x10).unwrap();
    bus.write(0x0010, 0x99).unwrap();
    let mut cpu = Cpu::new();
    cpu.a = 0x77;
    assert_eq!(cpu.fetch_operand(AddrMode::ACC, &bus), Ok((0x0000, 0x77)));
    assert_eq!(cpu.pc, 0x0000);
    assert_eq!(cpu.fetch_operand(AddrMode::IMM, &bus), Ok((0x0000, 0x10)));
    assert_eq!(cpu.pc, 0x0001);
    cpu.pc = 0x0000;
    assert_eq!(cpu.fetch_operand(AddrMode::ZPG, &bus), Ok((0x0010, 0x99)));
    assert_eq!(cpu.pc, 0x0001);
}

#[test]
fn a_result_replaces_the_operand() {
    let mut bus = Bus::new();
    let mut cpu = Cpu::new();
    assert_eq!(cpu.replace_operand(AddrMode::ACC, 0x0010, 0x55, &mut bus), Ok(()));
    assert_eq!(cpu.a, 0x55);
    assert_eq!(bus.read(0x0010), Ok(0x00));
    assert_eq!(cpu.replace_operand(AddrMode::ZPG, 0x0010, 0x66, &mut bus), Ok(()));
    assert_eq!(cpu.a, 0x55);
    assert_eq!(bus.read(0x0010), Ok(0x66));
    assert_eq!(
        cpu.replace_operand(AddrMode::ABS, 0x2000, 0x77, &mut bus),
        Err(AddressError { addr: 0x2000, kind: AccessKind::Write })
    );
    assert_eq!(cpu.a, 0x55);
}
