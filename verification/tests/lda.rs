use emu6502::bus::Bus;
use emu6502::cpu::Cpu;
use emu6502::mode::AddrMode;

#[test]
fn lda() {
    let mut cpu = Cpu::new();
    let mut bus = Bus::new();

    // Test LDA with positive non zero data at IMM addr
    bus.write(0x0000, 0x2B).unwrap();
    cpu.opcode_lda(AddrMode::IMM, 2, &bus).unwrap();
    assert_eq!(cpu.a, 0x2B);
    assert_eq!(cpu.p, 0b0000_0000);
    assert_eq!(cpu.cycles, 2);
    assert_eq!(cpu.page_crossed, false);

    // Test LDA with negative non zero data at IMM addr
    bus.write(0x0001, 0xA0).unwrap();
    cpu.opcode_lda(AddrMode::IMM, 4, &bus).unwrap();
    assert_eq!(cpu.a, 0xA0);
    assert_eq!(cpu.p, 0b1000_0000);
    assert_eq!(cpu.cycles, 6);

    // Test LDA with non negative zero data at IMM addr
    bus.write(0x0002, 0x00).unwrap();
    cpu.opcode_lda(AddrMode::IMM, 4, &bus).unwrap();
    assert_eq!(cpu.a, 0x00);
    assert_eq!(cpu.p, 0b0000_0010);
    assert_eq!(cpu.cycles, 10);

    // Test LDA with positive non zero data at ZPG addr
    bus.write(0x0003, 0x1F).unwrap();
    bus.write(0x001F, 0x24).unwrap();
    cpu.opcode_lda(AddrMode::ZPG, 3, &bus).unwrap();
    assert_eq!(cpu.a, 0x24);
    assert_eq!(cpu.p, 0b0000_0000);
    assert_eq!(cpu.cycles, 13);

    // Test LDA with positive non zero data at ZPX addr
    bus.write(0x0004, 0x2F).unwrap();
    cpu.x = 0x12;
    bus.write(0x0041, 0x36).unwrap();
    cpu.opcode_lda(AddrMode::ZPX, 4, &bus).unwrap();
    assert_eq!(cpu.a, 0x36);
    assert_eq!(cpu.p, 0b0000_0000);
    assert_eq!(cpu.cycles, 17);

    // Test LDA with positive non zero data at ZPX addr with wrapping add
    bus.write(0x0005, 0xFF).unwrap();
    cpu.x = 0x10;
    bus.write(0x000F, 0x04).unwrap();
    cpu.opcode_lda(AddrMode::ZPX, 4, &bus).unwrap();
    assert_eq!(cpu.a, 0x04);
    assert_eq!(cpu.p, 0b0000_0000);
    assert_eq!(cpu.cycles, 21);

    // Test LDA with ABS address
    bus.write(0x0006, 0x05).unwrap();
    bus.write(0x0007, 0x04).unwrap();
    bus.write(0x0405, 0x46).unwrap();
    cpu.opcode_lda(AddrMode::ABS, 4, &bus).unwrap();
    assert_eq!(cpu.a, 0x46);

    // Test LDA with ABX address
    bus.write(0x0008, 0x05).unwrap();
    bus.write(0x0009, 0x06).unwrap();
    cpu.x = 0x05;
    bus.write(0x060A, 0x38).unwrap();
    cpu.opcode_lda(AddrMode::ABX, 4, &bus).unwrap();
    assert_eq!(cpu.a, 0x38);
    assert_eq!(cpu.page_crossed, false);

    // Test LDA with ABY address
    bus.write(0x000A, 0x06).unwrap();
    bus.write(0x000B, 0x07).unwrap();
    cpu.y = 0x06;
    bus.write(0x070C, 0x28).unwrap();
    cpu.opcode_lda(AddrMode::ABY, 4, &bus).unwrap();
    assert_eq!(cpu.a, 0x28);
    assert_eq!(cpu.page_crossed, false);

    // Test LDA with ABX address and page cross
    bus.write(0x000C, 0x05).unwrap();
    bus.write(0x000D, 0x08).unwrap();
    cpu.x = 0xFF;
    bus.write(0x0904, 0xAA).unwrap();
    cpu.opcode_lda(AddrMode::ABX, 4, &bus).unwrap();
    assert_eq!(cpu.a, 0xAA);
    assert_eq!(cpu.cycles, 38);
    assert_eq!(cpu.page_crossed, true);

    // Test LDA with ABY address and page cross
    bus.write(0x000E, 0x06).unwrap();
    bus.write(0x000F, 0x09).unwrap();
    cpu.y = 0xFF;
    bus.write(0x0A05, 0x26).unwrap();
    cpu.opcode_lda(AddrMode::ABY, 4, &bus).unwrap();
    assert_eq!(cpu.a, 0x26);
    assert_eq!(cpu.cycles, 43);
    assert_eq!(cpu.page_crossed, true);

    // Test LDA with INX address
    bus.write(0x0010, 0xA4).unwrap();
    cpu.x = 0x10;
    bus.write(0x00B4, 0x04).unwrap();
    bus.write(0x00B5, 0x03).unwrap();
    bus.write(0x0304, 0x38).unwrap();
    cpu.opcode_lda(AddrMode::INX, 6, &bus).unwrap();
    assert_eq!(cpu.a, 0x38);

    // Test LDA with INY address
    bus.write(0x0011, 0xA7).unwrap();
    cpu.y = 0x02;
    bus.write(0x00A7, 0x08).unwrap();
    bus.write(0x00A8, 0x02).unwrap();
    bus.write(0x020A, 0x19).unwrap();
    cpu.opcode_lda(AddrMode::INY, 5, &bus).unwrap();
    assert_eq!(cpu.a, 0x19);
    assert_eq!(cpu.page_crossed, false);
    assert_eq!(cpu.cycles, 54);

    // Test LDA with INY address and page cross
    bus.write(0x0012, 0xA9).unwrap();
    cpu.y = 0xFF;
    bus.write(0x00A9, 0x08).unwrap();
    bus.write(0x00AA, 0x02).unwrap();
    bus.write(0x0307, 0x29).unwrap();
    cpu.opcode_lda(AddrMode::INY, 5, &bus).unwrap();
    assert_eq!(cpu.a, 0x29);
    assert_eq!(cpu.page_crossed, true);
    assert_eq!(cpu.cycles, 60);
}
