use emu6502::bus::{Bus, Window};
use emu6502::cpu::Cpu;
use emu6502::error::{AccessKind, AddressError};
use emu6502::mode::AddrMode;

fn bus_with(bytes: &[(u16, u8)]) -> Bus {
    let mut bus = Bus::new();
    for (addr, value) in bytes {
        bus.write(*addr, *value).unwrap();
    }
    bus
}

#[test]
fn addr_zpy() {
    let mut cpu = Cpu::new();
    let mut bus = Bus::new();

    // Test ZPY without wrapping add
    bus.write(0x0000, 0x2B).unwrap();
    cpu.y = 0x01;
    let addr = cpu.addr_zpy(&bus).unwrap();
    assert_eq!(addr, 0x002C);
    assert_eq!(cpu.pc, 0x0001);

    // Test ZPY with wrapping add
    bus.write(0x0001, 0xFF).unwrap();
    cpu.y = 0xA1;
    let addr = cpu.addr_zpy(&bus).unwrap();
    assert_eq!(addr, 0x00A0);
    assert_eq!(cpu.pc, 0x0002);
}

#[test]
fn every_mode_consumes_its_own_number_of_bytes() {
    let modes = [
        (AddrMode::IMP, 0u16),
        (AddrMode::ACC, 0),
        (AddrMode::IMM, 1),
        (AddrMode::ZPG, 1),
        (AddrMode::ZPX, 1),
        (AddrMode::ZPY, 1),
        (AddrMode::REL, 1),
        (AddrMode::INX, 1),
        (AddrMode::INY, 1),
        (AddrMode::ABS, 2),
        (AddrMode::ABX, 2),
        (AddrMode::ABY, 2),
        (AddrMode::IND, 2),
    ];
    let operands = [(0x00u8, 0x00u8), (0xFF, 0x01), (0x80, 0x07), (0x34, 0x12)];
    for (mode, length) in modes {
        assert_eq!(mode.operand_bytes() as u16, length);
        for (first, second) in operands {
            for index in [0x00u8, 0x01, 0xFF] {
                let bus = bus_with(&[(0x0200, first), (0x0201, second)]);
                let mut cpu = Cpu::new();
                cpu.pc = 0x0200;
                cpu.x = index;
                cpu.y = index;
                cpu.fetch_addr(mode, &bus).unwrap();
                assert_eq!(cpu.pc, 0x0200 + length);
            }
        }
    }
}

#[test]
fn zero_page_index_wraps_at_the_page_boundary() {
    let bus = bus_with(&[(0x0000, 0xFF), (0x0001, 0xFF)]);
    let mut cpu = Cpu::new();
    cpu.x = 0x01;
    assert_eq!(cpu.addr_zpx(&bus), Ok(0x0000));
    assert_eq!(cpu.page_crossed, false);
    cpu.y = 0x01;
    assert_eq!(cpu.addr_zpy(&bus), Ok(0x0000));
    assert_eq!(cpu.page_crossed, false);
    assert_eq!(cpu.pc, 0x0002);
}

#[test]
fn immediate_is_the_program_counter() {
    let bus = Bus::new();
    let mut cpu = Cpu::new();
    cpu.pc = 0x0123;
    assert_eq!(cpu.addr_imm(), Ok(0x0123));
    assert_eq!(cpu.pc, 0x0124);
    assert_eq!(cpu.fetch_addr(AddrMode::IMM, &bus), Ok(0x0124));
    assert_eq!(cpu.pc, 0x0125);
}

#[test]
fn implicit_and_accumulator_consume_nothing() {
    let bus = Bus::new();
    let mut cpu = Cpu::new();
    cpu.pc = 0x0123;
    cpu.page_crossed = true;
    assert_eq!(cpu.addr_imp(), Ok(0x0123));
    assert_eq!(cpu.pc, 0x0123);
    assert_eq!(cpu.page_crossed, false);
    assert_eq!(cpu.addr_acc(), Ok(0x0123));
    assert_eq!(cpu.fetch_addr(AddrMode::ACC, &bus), Ok(0x0123));
    assert_eq!(cpu.pc, 0x0123);
}

#[test]
fn zero_page_is_the_zero_extended_byte() {
    let bus = bus_with(&[(0x0010, 0xFE)]);
    let mut cpu = Cpu::new();
    cpu.pc = 0x0010;
    cpu.x = 0x55;
    assert_eq!(cpu.addr_zpg(&bus), Ok(0x00FE));
    assert_eq!(cpu.pc, 0x0011);
}

#[test]
fn absolute_is_little_endian() {
    let bus = bus_with(&[(0x0010, 0x34), (0x0011, 0x12)]);
    let mut cpu = Cpu::new();
    cpu.pc = 0x0010;
    cpu.x = 0x55;
    assert_eq!(cpu.addr_abs(&bus), Ok(0x1234));
    assert_eq!(cpu.pc, 0x0012);
    assert_eq!(cpu.page_crossed, false);
}

#[test]
fn absolute_indexed_reports_the_page_crossing() {
    let bus = bus_with(&[(0x0000, 0xF0), (0x0001, 0x12), (0x0002, 0xF0), (0x0003, 0x12)]);
    let mut cpu = Cpu::new();
    cpu.x = 0x0F;
    assert_eq!(cpu.addr_abx(&bus), Ok(0x12FF));
    assert_eq!(cpu.page_crossed, false);
    cpu.y = 0x10;
    assert_eq!(cpu.addr_aby(&bus), Ok(0x1300));
    assert_eq!(cpu.page_crossed, true);
    assert_eq!(cpu.pc, 0x0004);
}

#[test]
fn absolute_indexed_wraps_at_sixteen_bits() {
    let bus = bus_with(&[(0x0000, 0xFF), (0x0001, 0xFF)]);
    let mut cpu = Cpu::new();
    cpu.x = 0x02;
    assert_eq!(cpu.addr_abx(&bus), Ok(0x0001));
    assert_eq!(cpu.page_crossed, true);
}

#[test]
fn indexed_indirect_reads_its_pointer_within_page_zero() {
    let bus = bus_with(&[(0x0000, 0xF0), (0x00FF, 0x34), (0x0000 + 0x0100, 0x99), (0x0001, 0x20)]);
    let mut cpu = Cpu::new();
    cpu.x = 0x0F;
    // The pointer stands at 0xFF; its high byte comes from 0x00, which
    // holds the operand byte 0xF0, not from 0x0100.
    assert_eq!(cpu.addr_inx(&bus), Ok(0xF034));
    assert_eq!(cpu.pc, 0x0001);
    assert_eq!(cpu.page_crossed, false);
    // 0x20 + 0x0F = 0x2F: an ordinary pointer.
    let bus = bus_with(&[(0x0001, 0x20), (0x002F, 0x78), (0x0030, 0x06)]);
    assert_eq!(cpu.addr_inx(&bus), Ok(0x0678));
    assert_eq!(cpu.pc, 0x0002);
}

#[test]
fn indexed_indirect_wraps_the_pointer_sum() {
    let bus = bus_with(&[(0x0000, 0xFF), (0x0001, 0x00), (0x0002, 0x05)]);
    let mut cpu = Cpu::new();
    cpu.x = 0x02;
    // 0xFF + 0x02 wraps to 0x01: the pointer is read at 0x01 and 0x02.
    assert_eq!(cpu.addr_inx(&bus), Ok(0x0500));
}

#[test]
fn indirect_indexed_adds_y_to_the_base() {
    let bus = bus_with(&[(0x0000, 0x40), (0x0040, 0xF0), (0x0041, 0x05)]);
    let mut cpu = Cpu::new();
    cpu.y = 0x0F;
    assert_eq!(cpu.addr_iny(&bus), Ok(0x05FF));
    assert_eq!(cpu.page_crossed, false);
    assert_eq!(cpu.pc, 0x0001);
    cpu.pc = 0;
    cpu.y = 0x10;
    assert_eq!(cpu.addr_iny(&bus), Ok(0x0600));
    assert_eq!(cpu.page_crossed, true);
}

#[test]
fn indirect_indexed_wraps_at_sixteen_bits() {
    let bus = bus_with(&[(0x0000, 0x40), (0x0040, 0xFF), (0x0041, 0xFF)]);
    let mut cpu = Cpu::new();
    cpu.y = 0x01;
    assert_eq!(cpu.addr_iny(&bus), Ok(0x0000));
    assert_eq!(cpu.page_crossed, true);
}

#[test]
fn indirect_fetches_the_high_byte_from_the_same_page() {
    // The pointer 0x02FF: low byte of the target at 0x02FF, high byte at
    // 0x0200 and not at 0x0300.
    let bus = bus_with(&[
        (0x0000, 0xFF),
        (0x0001, 0x02),
        (0x02FF, 0x34),
        (0x0200, 0x12),
        (0x0300, 0x56),
    ]);
    let mut cpu = Cpu::new();
    assert_eq!(cpu.addr_ind(&bus), Ok(0x1234));
    assert_eq!(cpu.pc, 0x0002);
    assert_eq!(bus.read_u16_in_page(0x02FF), Ok(0x1234));
    assert_eq!(bus.read_u16(0x02FF), Ok(0x5634));
}

#[test]
fn indirect_follows_an_ordinary_pointer() {
    let bus = bus_with(&[(0x0000, 0x10), (0x0001, 0x02), (0x0210, 0x78), (0x0211, 0x06)]);
    let mut cpu = Cpu::new();
    assert_eq!(cpu.addr_ind(&bus), Ok(0x0678));
    assert_eq!(cpu.page_crossed, false);
}

#[test]
fn relative_adds_a_signed_displacement() {
    let bus = bus_with(&[(0x0010, 0x05), (0x0011, 0xFB), (0x0012, 0x80), (0x0013, 0x7F)]);
    let mut cpu = Cpu::new();
    cpu.pc = 0x0010;
    assert_eq!(cpu.addr_rel(&bus), Ok(0x0016));
    assert_eq!(cpu.pc, 0x0011);
    // 0xFB is -5, counted from 0x0012
    assert_eq!(cpu.addr_rel(&bus), Ok(0x000D));
    assert_eq!(cpu.pc, 0x0012);
    // 0x80 is -128, counted from 0x0013: below zero it wraps
    assert_eq!(cpu.addr_rel(&bus), Ok(0xFF93));
    assert_eq!(cpu.page_crossed, true);
    // 0x7F is 127, counted from 0x0014
    assert_eq!(cpu.addr_rel(&bus), Ok(0x0093));
    assert_eq!(cpu.page_crossed, false);
}

#[test]
fn program_counter_wraps_at_the_top_of_memory() {
    let mut bus = Bus::new();
    bus.register(Window::Cartridge);
    bus.write(0xFFFF, 0x34).unwrap();
    bus.write(0x0000, 0x12).unwrap();
    let mut cpu = Cpu::new();
    cpu.pc = 0xFFFF;
    assert_eq!(cpu.addr_abs(&bus), Ok(0x1234));
    assert_eq!(cpu.pc, 0x0001);
}

#[test]
fn an_operand_without_owner_changes_nothing() {
    let bus = Bus::new();
    let mut cpu = Cpu::new();
    cpu.pc = 0x4020;
    cpu.page_crossed = true;
    let before = cpu;
    let error = AddressError { addr: 0x4020, kind: AccessKind::Read };
    for mode in [
        AddrMode::ZPG,
        AddrMode::ZPX,
        AddrMode::ZPY,
        AddrMode::ABS,
        AddrMode::ABX,
        AddrMode::ABY,
        AddrMode::IND,
        AddrMode::INX,
        AddrMode::INY,
        AddrMode::REL,
    ] {
        assert_eq!(cpu.fetch_addr(mode, &bus), Err(error));
        assert_eq!(cpu, before);
    }
}

#[test]
fn a_pointer_target_without_owner_changes_nothing() {
    // The pointer 0x3FFF lies in the peripheral window, which nobody owns.
    let bus = bus_with(&[(0x0000, 0xFF), (0x0001, 0x3F)]);
    let mut cpu = Cpu::new();
    let before = cpu;
    assert_eq!(
        cpu.addr_ind(&bus),
        Err(AddressError { addr: 0x3FFF, kind: AccessKind::Read })
    );
    assert_eq!(cpu, before);
    // The second operand byte is missing.
    let mut bus = Bus::new();
    bus.register(Window::Io);
    let mut cpu = Cpu::new();
    cpu.pc = 0x401F;
    let before = cpu;
    assert_eq!(
        cpu.addr_abs(&bus),
        Err(AddressError { addr: 0x4020, kind: AccessKind::Read })
    );
    assert_eq!(cpu, before);
}
