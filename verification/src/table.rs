//! The opcode table: for each of the 256 opcode bytes the instruction it
//! stands for, its addressing mode and its base cost in cycles. Bytes that
//! the documented instruction set leaves unassigned are marked `Illegal`.

use vstd::prelude::*;
use crate::mode::AddrMode;

verus! {

/// The documented instructions, and a mark for every other opcode byte.
#[derive(Clone, Copy, Debug, PartialEq, Eq, Structural)]
pub enum Instruction {
    /// Add with carry
    ADC,
    /// Logical AND
    AND,
    /// Arithmetic shift left
    ASL,
    /// Branch if carry clear
    BCC,
    /// Branch if carry set
    BCS,
    /// Branch if equal
    BEQ,
    /// Bit test
    BIT,
    /// Branch if minus
    BMI,
    /// Branch if not equal
    BNE,
    /// Branch if positive
    BPL,
    /// Force interrupt
    BRK,
    /// Branch if overflow clear
    BVC,
    /// Branch if overflow set
    BVS,
    /// Clear carry flag
    CLC,
    /// Clear decimal mode
    CLD,
    /// Clear interrupt disable
    CLI,
    /// Clear overflow flag
    CLV,
    /// Compare
    CMP,
    /// Compare X register
    CPX,
    /// Compare Y register
    CPY,
    /// Decrement memory
    DEC,
    /// Decrement X register
    DEX,
    /// Decrement Y register
    DEY,
    /// Exclusive OR
    EOR,
    /// Increment memory
    INC,
    /// Increment X register
    INX,
    /// Increment Y register
    INY,
    /// Jump
    JMP,
    /// Jump to subroutine
    JSR,
    /// Load accumulator
    LDA,
    /// Load X register
    LDX,
    /// Load Y register
    LDY,
    /// Logical shift right
    LSR,
    /// No operation
    NOP,
    /// Logical inclusive OR
    ORA,
    /// Push accumulator
    PHA,
    /// Push processor status
    PHP,
    /// Pull accumulator
    PLA,
    /// Pull processor status
    PLP,
    /// Rotate left
    ROL,
    /// Rotate right
    ROR,
    /// Return from interrupt
    RTI,
    /// Return from subroutine
    RTS,
    /// Subtract with carry
    SBC,
    /// Set carry flag
    SEC,
    /// Set decimal flag
    SED,
    /// Set interrupt disable
    SEI,
    /// Store accumulator
    STA,
    /// Store X register
    STX,
    /// Store Y register
    STY,
    /// Transfer accumulator to X
    TAX,
    /// Transfer accumulator to Y
    TAY,
    /// Transfer stack pointer to X
    TSX,
    /// Transfer X to accumulator
    TXA,
    /// Transfer X to stack pointer
    TXS,
    /// Transfer Y to accumulator
    TYA,
    /// Not a documented instruction
    Illegal,
}

/// The families of instructions, by what they do with their operand.
#[derive(Clone, Copy, Debug, PartialEq, Eq, Structural)]
pub enum Family {
    /// Reads its operand and changes registers and flags only
    Read,
    /// Reads its operand, changes it and writes it back
    Modify,
    /// Writes a register to its operand
    Store,
    /// Jumps, subroutines, interrupts and the instruction that does nothing
    Flow,
    /// Pushes and pulls
    Stack,
    /// The conditional branches
    Branch,
    /// Moves or counts a register
    Register,
    /// Sets or clears one flag
    Flag,
    /// Not an instruction
    Illegal,
}

impl Instruction {
    /// The family an instruction belongs to.
    pub open spec fn kind(self) -> Family {
        match self {
            Instruction::ADC
            | Instruction::AND
            | Instruction::BIT
            | Instruction::CMP
            | Instruction::CPX
            | Instruction::CPY
            | Instruction::EOR
            | Instruction::LDA
            | Instruction::LDX
            | Instruction::LDY
            | Instruction::ORA
            | Instruction::SBC => Family::Read,
            Instruction::ASL
            | Instruction::DEC
            | Instruction::INC
            | Instruction::LSR
            | Instruction::ROL
            | Instruction::ROR => Family::Modify,
            Instruction::STA
            | Instruction::STX
            | Instruction::STY => Family::Store,
            Instruction::BRK
            | Instruction::JMP
            | Instruction::JSR
            | Instruction::NOP
            | Instruction::RTI
            | Instruction::RTS => Family::Flow,
            Instruction::PHA
            | Instruction::PHP
            | Instruction::PLA
            | Instruction::PLP => Family::Stack,
            Instruction::BCC
            | Instruction::BCS
            | Instruction::BEQ
            | Instruction::BMI
            | Instruction::BNE
            | Instruction::BPL
            | Instruction::BVC
            | Instruction::BVS => Family::Branch,
            Instruction::DEX
            | Instruction::DEY
            | Instruction::INX
            | Instruction::INY
            | Instruction::TAX
            | Instruction::TAY
            | Instruction::TSX
            | Instruction::TXA
            | Instruction::TXS
            | Instruction::TYA => Family::Register,
            Instruction::CLC
            | Instruction::CLD
            | Instruction::CLI
            | Instruction::CLV
            | Instruction::SEC
            | Instruction::SED
            | Instruction::SEI => Family::Flag,
            Instruction::Illegal => Family::Illegal,
        }
    }

    #[verifier::when_used_as_spec(kind)]
    pub fn family(self) -> (f: Family)
        ensures
            f == self.kind(),
    {
        match self {
            Instruction::ADC
            | Instruction::AND
            | Instruction::BIT
            | Instruction::CMP
            | Instruction::CPX
            | Instruction::CPY
            | Instruction::EOR
            | Instruction::LDA
            | Instruction::LDX
            | Instruction::LDY
            | Instruction::ORA
            | Instruction::SBC => Family::Read,
            Instruction::ASL
            | Instruction::DEC
            | Instruction::INC
            | Instruction::LSR
            | Instruction::ROL
            | Instruction::ROR => Family::Modify,
            Instruction::STA
            | Instruction::STX
            | Instruction::STY => Family::Store,
            Instruction::BRK
            | Instruction::JMP
            | Instruction::JSR
            | Instruction::NOP
            | Instruction::RTI
            | Instruction::RTS => Family::Flow,
            Instruction::PHA
            | Instruction::PHP
            | Instruction::PLA
            | Instruction::PLP => Family::Stack,
            Instruction::BCC
            | Instruction::BCS
            | Instruction::BEQ
            | Instruction::BMI
            | Instruction::BNE
            | Instruction::BPL
            | Instruction::BVC
            | Instruction::BVS => Family::Branch,
            Instruction::DEX
            | Instruction::DEY
            | Instruction::INX
            | Instruction::INY
            | Instruction::TAX
            | Instruction::TAY
            | Instruction::TSX
            | Instruction::TXA
            | Instruction::TXS
            | Instruction::TYA => Family::Register,
            Instruction::CLC
            | Instruction::CLD
            | Instruction::CLI
            | Instruction::CLV
            | Instruction::SEC
            | Instruction::SED
            | Instruction::SEI => Family::Flag,
            Instruction::Illegal => Family::Illegal,
        }
    }

    /// Whether the instruction only reads its operand from memory. These
    /// are the instructions that pay for a crossed page.
    pub open spec fn reads(self) -> bool {
        self.kind() == Family::Read
    }

    /// Whether the instruction is one of the eight conditional branches.
    pub open spec fn branches(self) -> bool {
        self.kind() == Family::Branch
    }
}

/// One entry of the opcode table.
#[derive(Clone, Copy, Debug, PartialEq, Eq, Structural)]
pub struct Opcode {
    pub instruction: Instruction,
    pub mode: AddrMode,
    /// Base cost in cycles, before any penalty
    pub cycles: u8,
}

/// The opcode table.
#[verifier::opaque]
pub open spec fn opcode_entry(opcode: u8) -> Opcode {
    match opcode {
        0x00 => Opcode { instruction: Instruction::BRK, mode: AddrMode::IMP, cycles: 7 },
        0x01 => Opcode { instruction: Instruction::ORA, mode: AddrMode::INX, cycles: 6 },
        0x05 => Opcode { instruction: Instruction::ORA, mode: AddrMode::ZPG, cycles: 3 },
        0x06 => Opcode { instruction: Instruction::ASL, mode: AddrMode::ZPG, cycles: 5 },
        0x08 => Opcode { instruction: Instruction::PHP, mode: AddrMode::IMP, cycles: 3 },
        0x09 => Opcode { instruction: Instruction::ORA, mode: AddrMode::IMM, cycles: 2 },
        0x0A => Opcode { instruction: Instruction::ASL, mode: AddrMode::ACC, cycles: 2 },
        0x0D => Opcode { instruction: Instruction::ORA, mode: AddrMode::ABS, cycles: 4 },
        0x0E => Opcode { instruction: Instruction::ASL, mode: AddrMode::ABS, cycles: 6 },
        0x10 => Opcode { instruction: Instruction::BPL, mode: AddrMode::REL, cycles: 2 },
        0x11 => Opcode { instruction: Instruction::ORA, mode: AddrMode::INY, cycles: 5 },
        0x15 => Opcode { instruction: Instruction::ORA, mode: AddrMode::ZPX, cycles: 4 },
        0x16 => Opcode { instruction: Instruction::ASL, mode: AddrMode::ZPX, cycles: 6 },
        0x18 => Opcode { instruction: Instruction::CLC, mode: AddrMode::IMP, cycles: 2 },
        0x19 => Opcode { instruction: Instruction::ORA, mode: AddrMode::ABY, cycles: 4 },
        0x1D => Opcode { instruction: Instruction::ORA, mode: AddrMode::ABX, cycles: 4 },
        0x1E => Opcode { instruction: Instruction::ASL, mode: AddrMode::ABX, cycles: 7 },
        0x20 => Opcode { instruction: Instruction::JSR, mode: AddrMode::ABS, cycles: 6 },
        0x21 => Opcode { instruction: Instruction::AND, mode: AddrMode::INX, cycles: 6 },
        0x24 => Opcode { instruction: Instruction::BIT, mode: AddrMode::ZPG, cycles: 3 },
        0x25 => Opcode { instruction: Instruction::AND, mode: AddrMode::ZPG, cycles: 3 },
        0x26 => Opcode { instruction: Instruction::ROL, mode: AddrMode::ZPG, cycles: 5 },
        0x28 => Opcode { instruction: Instruction::PLP, mode: AddrMode::IMP, cycles: 4 },
        0x29 => Opcode { instruction: Instruction::AND, mode: AddrMode::IMM, cycles: 2 },
        0x2A => Opcode { instruction: Instruction::ROL, mode: AddrMode::ACC, cycles: 2 },
        0x2C => Opcode { instruction: Instruction::BIT, mode: AddrMode::ABS, cycles: 4 },
        0x2D => Opcode { instruction: Instruction::AND, mode: AddrMode::ABS, cycles: 4 },
        0x2E => Opcode { instruction: Instruction::ROL, mode: AddrMode::ABS, cycles: 6 },
        0x30 => Opcode { instruction: Instruction::BMI, mode: AddrMode::REL, cycles: 2 },
        0x31 => Opcode { instruction: Instruction::AND, mode: AddrMode::INY, cycles: 5 },
        0x35 => Opcode { instruction: Instruction::AND, mode: AddrMode::ZPX, cycles: 4 },
        0x36 => Opcode { instruction: Instruction::ROL, mode: AddrMode::ZPX, cycles: 6 },
        0x38 => Opcode { instruction: Instruction::SEC, mode: AddrMode::IMP, cycles: 2 },
        0x39 => Opcode { instruction: Instruction::AND, mode: AddrMode::ABY, cycles: 4 },
        0x3D => Opcode { instruction: Instruction::AND, mode: AddrMode::ABX, cycles: 4 },
        0x3E => Opcode { instruction: Instruction::ROL, mode: AddrMode::ABX, cycles: 7 },
        0x40 => Opcode { instruction: Instruction::RTI, mode: AddrMode::IMP, cycles: 6 },
        0x41 => Opcode { instruction: Instruction::EOR, mode: AddrMode::INX, cycles: 6 },
        0x45 => Opcode { instruction: Instruction::EOR, mode: AddrMode::ZPG, cycles: 3 },
        0x46 => Opcode { instruction: Instruction::LSR, mode: AddrMode::ZPG, cycles: 5 },
        0x48 => Opcode { instruction: Instruction::PHA, mode: AddrMode::IMP, cycles: 3 },
        0x49 => Opcode { instruction: Instruction::EOR, mode: AddrMode::IMM, cycles: 2 },
        0x4A => Opcode { instruction: Instruction::LSR, mode: AddrMode::ACC, cycles: 2 },
        0x4C => Opcode { instruction: Instruction::JMP, mode: AddrMode::ABS, cycles: 3 },
        0x4D => Opcode { instruction: Instruction::EOR, mode: AddrMode::ABS, cycles: 4 },
        0x4E => Opcode { instruction: Instruction::LSR, mode: AddrMode::ABS, cycles: 6 },
        0x50 => Opcode { instruction: Instruction::BVC, mode: AddrMode::REL, cycles: 2 },
        0x51 => Opcode { instruction: Instruction::EOR, mode: AddrMode::INY, cycles: 5 },
        0x55 => Opcode { instruction: Instruction::EOR, mode: AddrMode::ZPX, cycles: 4 },
        0x56 => Opcode { instruction: Instruction::LSR, mode: AddrMode::ZPX, cycles: 6 },
        0x58 => Opcode { instruction: Instruction::CLI, mode: AddrMode::IMP, cycles: 2 },
        0x59 => Opcode { instruction: Instruction::EOR, mode: AddrMode::ABY, cycles: 4 },
        0x5D => Opcode { instruction: Instruction::EOR, mode: AddrMode::ABX, cycles: 4 },
        0x5E => Opcode { instruction: Instruction::LSR, mode: AddrMode::ABX, cycles: 7 },
        0x60 => Opcode { instruction: Instruction::RTS, mode: AddrMode::IMP, cycles: 6 },
        0x61 => Opcode { instruction: Instruction::ADC, mode: AddrMode::INX, cycles: 6 },
        0x65 => Opcode { instruction: Instruction::ADC, mode: AddrMode::ZPG, cycles: 3 },
        0x66 => Opcode { instruction: Instruction::ROR, mode: AddrMode::ZPG, cycles: 5 },
        0x68 => Opcode { instruction: Instruction::PLA, mode: AddrMode::IMP, cycles: 4 },
        0x69 => Opcode { instruction: Instruction::ADC, mode: AddrMode::IMM, cycles: 2 },
        0x6A => Opcode { instruction: Instruction::ROR, mode: AddrMode::ACC, cycles: 2 },
        0x6C => Opcode { instruction: Instruction::JMP, mode: AddrMode::IND, cycles: 5 },
        0x6D => Opcode { instruction: Instruction::ADC, mode: AddrMode::ABS, cycles: 4 },
        0x6E => Opcode { instruction: Instruction::ROR, mode: AddrMode::ABS, cycles: 6 },
        0x70 => Opcode { instruction: Instruction::BVS, mode: AddrMode::REL, cycles: 2 },
        0x71 => Opcode { instruction: Instruction::ADC, mode: AddrMode::INY, cycles: 5 },
        0x75 => Opcode { instruction: Instruction::ADC, mode: AddrMode::ZPX, cycles: 4 },
        0x76 => Opcode { instruction: Instruction::ROR, mode: AddrMode::ZPX, cycles: 6 },
        0x78 => Opcode { instruction: Instruction::SEI, mode: AddrMode::IMP, cycles: 2 },
        0x79 => Opcode { instruction: Instruction::ADC, mode: AddrMode::ABY, cycles: 4 },
        0x7D => Opcode { instruction: Instruction::ADC, mode: AddrMode::ABX, cycles: 4 },
        0x7E => Opcode { instruction: Instruction::ROR, mode: AddrMode::ABX, cycles: 7 },
        0x81 => Opcode { instruction: Instruction::STA, mode: AddrMode::INX, cycles: 6 },
        0x84 => Opcode { instruction: Instruction::STY, mode: AddrMode::ZPG, cycles: 3 },
        0x85 => Opcode { instruction: Instruction::STA, mode: AddrMode::ZPG, cycles: 3 },
        0x86 => Opcode { instruction: Instruction::STX, mode: AddrMode::ZPG, cycles: 3 },
        0x88 => Opcode { instruction: Instruction::DEY, mode: AddrMode::IMP, cycles: 2 },
        0x8A => Opcode { instruction: Instruction::TXA, mode: AddrMode::IMP, cycles: 2 },
        0x8C => Opcode { instruction: Instruction::STY, mode: AddrMode::ABS, cycles: 4 },
        0x8D => Opcode { instruction: Instruction::STA, mode: AddrMode::ABS, cycles: 4 },
        0x8E => Opcode { instruction: Instruction::STX, mode: AddrMode::ABS, cycles: 4 },
        0x90 => Opcode { instruction: Instruction::BCC, mode: AddrMode::REL, cycles: 2 },
        0x91 => Opcode { instruction: Instruction::STA, mode: AddrMode::INY, cycles: 6 },
        0x94 => Opcode { instruction: Instruction::STY, mode: AddrMode::ZPX, cycles: 4 },
        0x95 => Opcode { instruction: Instruction::STA, mode: AddrMode::ZPX, cycles: 4 },
        0x96 => Opcode { instruction: Instruction::STX, mode: AddrMode::ZPY, cycles: 4 },
        0x98 => Opcode { instruction: Instruction::TYA, mode: AddrMode::IMP, cycles: 2 },
        0x99 => Opcode { instruction: Instruction::STA, mode: AddrMode::ABY, cycles: 5 },
        0x9A => Opcode { instruction: Instruction::TXS, mode: AddrMode::IMP, cycles: 2 },
        0x9D => Opcode { instruction: Instruction::STA, mode: AddrMode::ABX, cycles: 5 },
        0xA0 => Opcode { instruction: Instruction::LDY, mode: AddrMode::IMM, cycles: 2 },
        0xA1 => Opcode { instruction: Instruction::LDA, mode: AddrMode::INX, cycles: 6 },
        0xA2 => Opcode { instruction: Instruction::LDX, mode: AddrMode::IMM, cycles: 2 },
        0xA4 => Opcode { instruction: Instruction::LDY, mode: AddrMode::ZPG, cycles: 3 },
        0xA5 => Opcode { instruction: Instruction::LDA, mode: AddrMode::ZPG, cycles: 3 },
        0xA6 => Opcode { instruction: Instruction::LDX, mode: AddrMode::ZPG, cycles: 3 },
        0xA8 => Opcode { instruction: Instruction::TAY, mode: AddrMode::IMP, cycles: 2 },
        0xA9 => Opcode { instruction: Instruction::LDA, mode: AddrMode::IMM, cycles: 2 },
        0xAA => Opcode { instruction: Instruction::TAX, mode: AddrMode::IMP, cycles: 2 },
        0xAC => Opcode { instruction: Instruction::LDY, mode: AddrMode::ABS, cycles: 4 },
        0xAD => Opcode { instruction: Instruction::LDA, mode: AddrMode::ABS, cycles: 4 },
        0xAE => Opcode { instruction: Instruction::LDX, mode: AddrMode::ABS, cycles: 4 },
        0xB0 => Opcode { instruction: Instruction::BCS, mode: AddrMode::REL, cycles: 2 },
        0xB1 => Opcode { instruction: Instruction::LDA, mode: AddrMode::INY, cycles: 5 },
        0xB4 => Opcode { instruction: Instruction::LDY, mode: AddrMode::ZPX, cycles: 4 },
        0xB5 => Opcode { instruction: Instruction::LDA, mode: AddrMode::ZPX, cycles: 4 },
        0xB6 => Opcode { instruction: Instruction::LDX, mode: AddrMode::ZPY, cycles: 4 },
        0xB8 => Opcode { instruction: Instruction::CLV, mode: AddrMode::IMP, cycles: 2 },
        0xB9 => Opcode { instruction: Instruction::LDA, mode: AddrMode::ABY, cycles: 4 },
        0xBA => Opcode { instruction: Instruction::TSX, mode: AddrMode::IMP, cycles: 2 },
        0xBC => Opcode { instruction: Instruction::LDY, mode: AddrMode::ABX, cycles: 4 },
        0xBD => Opcode { instruction: Instruction::LDA, mode: AddrMode::ABX, cycles: 4 },
        0xBE => Opcode { instruction: Instruction::LDX, mode: AddrMode::ABY, cycles: 4 },
        0xC0 => Opcode { instruction: Instruction::CPY, mode: AddrMode::IMM, cycles: 2 },
        0xC1 => Opcode { instruction: Instruction::CMP, mode: AddrMode::INX, cycles: 6 },
        0xC4 => Opcode { instruction: Instruction::CPY, mode: AddrMode::ZPG, cycles: 3 },
        0xC5 => Opcode { instruction: Instruction::CMP, mode: AddrMode::ZPG, cycles: 3 },
        0xC6 => Opcode { instruction: Instruction::DEC, mode: AddrMode::ZPG, cycles: 5 },
        0xC8 => Opcode { instruction: Instruction::INY, mode: AddrMode::IMP, cycles: 2 },
        0xC9 => Opcode { instruction: Instruction::CMP, mode: AddrMode::IMM, cycles: 2 },
        0xCA => Opcode { instruction: Instruction::DEX, mode: AddrMode::IMP, cycles: 2 },
        0xCC => Opcode { instruction: Instruction::CPY, mode: AddrMode::ABS, cycles: 4 },
        0xCD => Opcode { instruction: Instruction::CMP, mode: AddrMode::ABS, cycles: 4 },
        0xCE => Opcode { instruction: Instruction::DEC, mode: AddrMode::ABS, cycles: 6 },
        0xD0 => Opcode { instruction: Instruction::BNE, mode: AddrMode::REL, cycles: 2 },
        0xD1 => Opcode { instruction: Instruction::CMP, mode: AddrMode::INY, cycles: 5 },
        0xD5 => Opcode { instruction: Instruction::CMP, mode: AddrMode::ZPX, cycles: 4 },
        0xD6 => Opcode { instruction: Instruction::DEC, mode: AddrMode::ZPX, cycles: 6 },
        0xD8 => Opcode { instruction: Instruction::CLD, mode: AddrMode::IMP, cycles: 2 },
        0xD9 => Opcode { instruction: Instruction::CMP, mode: AddrMode::ABY, cycles: 4 },
        0xDD => Opcode { instruction: Instruction::CMP, mode: AddrMode::ABX, cycles: 4 },
        0xDE => Opcode { instruction: Instruction::DEC, mode: AddrMode::ABX, cycles: 7 },
        0xE0 => Opcode { instruction: Instruction::CPX, mode: AddrMode::IMM, cycles: 2 },
        0xE1 => Opcode { instruction: Instruction::SBC, mode: AddrMode::INX, cycles: 6 },
        0xE4 => Opcode { instruction: Instruction::CPX, mode: AddrMode::ZPG, cycles: 3 },
        0xE5 => Opcode { instruction: Instruction::SBC, mode: AddrMode::ZPG, cycles: 3 },
        0xE6 => Opcode { instruction: Instruction::INC, mode: AddrMode::ZPG, cycles: 5 },
        0xE8 => Opcode { instruction: Instruction::INX, mode: AddrMode::IMP, cycles: 2 },
        0xE9 => Opcode { instruction: Instruction::SBC, mode: AddrMode::IMM, cycles: 2 },
        0xEA => Opcode { instruction: Instruction::NOP, mode: AddrMode::IMP, cycles: 2 },
        0xEC => Opcode { instruction: Instruction::CPX, mode: AddrMode::ABS, cycles: 4 },
        0xED => Opcode { instruction: Instruction::SBC, mode: AddrMode::ABS, cycles: 4 },
        0xEE => Opcode { instruction: Instruction::INC, mode: AddrMode::ABS, cycles: 6 },
        0xF0 => Opcode { instruction: Instruction::BEQ, mode: AddrMode::REL, cycles: 2 },
        0xF1 => Opcode { instruction: Instruction::SBC, mode: AddrMode::INY, cycles: 5 },
        0xF5 => Opcode { instruction: Instruction::SBC, mode: AddrMode::ZPX, cycles: 4 },
        0xF6 => Opcode { instruction: Instruction::INC, mode: AddrMode::ZPX, cycles: 6 },
        0xF8 => Opcode { instruction: Instruction::SED, mode: AddrMode::IMP, cycles: 2 },
        0xF9 => Opcode { instruction: Instruction::SBC, mode: AddrMode::ABY, cycles: 4 },
        0xFD => Opcode { instruction: Instruction::SBC, mode: AddrMode::ABX, cycles: 4 },
        0xFE => Opcode { instruction: Instruction::INC, mode: AddrMode::ABX, cycles: 7 },
        _ => Opcode { instruction: Instruction::Illegal, mode: AddrMode::IMP, cycles: 0 },
    }
}

/// Looks an opcode byte up in the table.
pub fn lookup(opcode: u8) -> (e: Opcode)
    ensures
        e == opcode_entry(opcode),
{
    reveal(opcode_entry);
    match opcode {
        0x00 => Opcode { instruction: Instruction::BRK, mode: AddrMode::IMP, cycles: 7 },
        0x01 => Opcode { instruction: Instruction::ORA, mode: AddrMode::INX, cycles: 6 },
        0x05 => Opcode { instruction: Instruction::ORA, mode: AddrMode::ZPG, cycles: 3 },
        0x06 => Opcode { instruction: Instruction::ASL, mode: AddrMode::ZPG, cycles: 5 },
        0x08 => Opcode { instruction: Instruction::PHP, mode: AddrMode::IMP, cycles: 3 },
        0x09 => Opcode { instruction: Instruction::ORA, mode: AddrMode::IMM, cycles: 2 },
        0x0A => Opcode { instruction: Instruction::ASL, mode: AddrMode::ACC, cycles: 2 },
        0x0D => Opcode { instruction: Instruction::ORA, mode: AddrMode::ABS, cycles: 4 },
        0x0E => Opcode { instruction: Instruction::ASL, mode: AddrMode::ABS, cycles: 6 },
        0x10 => Opcode { instruction: Instruction::BPL, mode: AddrMode::REL, cycles: 2 },
        0x11 => Opcode { instruction: Instruction::ORA, mode: AddrMode::INY, cycles: 5 },
        0x15 => Opcode { instruction: Instruction::ORA, mode: AddrMode::ZPX, cycles: 4 },
        0x16 => Opcode { instruction: Instruction::ASL, mode: AddrMode::ZPX, cycles: 6 },
        0x18 => Opcode { instruction: Instruction::CLC, mode: AddrMode::IMP, cycles: 2 },
        0x19 => Opcode { instruction: Instruction::ORA, mode: AddrMode::ABY, cycles: 4 },
        0x1D => Opcode { instruction: Instruction::ORA, mode: AddrMode::ABX, cycles: 4 },
        0x1E => Opcode { instruction: Instruction::ASL, mode: AddrMode::ABX, cycles: 7 },
        0x20 => Opcode { instruction: Instruction::JSR, mode: AddrMode::ABS, cycles: 6 },
        0x21 => Opcode { instruction: Instruction::AND, mode: AddrMode::INX, cycles: 6 },
        0x24 => Opcode { instruction: Instruction::BIT, mode: AddrMode::ZPG, cycles: 3 },
        0x25 => Opcode { instruction: Instruction::AND, mode: AddrMode::ZPG, cycles: 3 },
        0x26 => Opcode { instruction: Instruction::ROL, mode: AddrMode::ZPG, cycles: 5 },
        0x28 => Opcode { instruction: Instruction::PLP, mode: AddrMode::IMP, cycles: 4 },
        0x29 => Opcode { instruction: Instruction::AND, mode: AddrMode::IMM, cycles: 2 },
        0x2A => Opcode { instruction: Instruction::ROL, mode: AddrMode::ACC, cycles: 2 },
        0x2C => Opcode { instruction: Instruction::BIT, mode: AddrMode::ABS, cycles: 4 },
        0x2D => Opcode { instruction: Instruction::AND, mode: AddrMode::ABS, cycles: 4 },
        0x2E => Opcode { instruction: Instruction::ROL, mode: AddrMode::ABS, cycles: 6 },
        0x30 => Opcode { instruction: Instruction::BMI, mode: AddrMode::REL, cycles: 2 },
        0x31 => Opcode { instruction: Instruction::AND, mode: AddrMode::INY, cycles: 5 },
        0x35 => Opcode { instruction: Instruction::AND, mode: AddrMode::ZPX, cycles: 4 },
        0x36 => Opcode { instruction: Instruction::ROL, mode: AddrMode::ZPX, cycles: 6 },
        0x38 => Opcode { instruction: Instruction::SEC, mode: AddrMode::IMP, cycles: 2 },
        0x39 => Opcode { instruction: Instruction::AND, mode: AddrMode::ABY, cycles: 4 },
        0x3D => Opcode { instruction: Instruction::AND, mode: AddrMode::ABX, cycles: 4 },
        0x3E => Opcode { instruction: Instruction::ROL, mode: AddrMode::ABX, cycles: 7 },
        0x40 => Opcode { instruction: Instruction::RTI, mode: AddrMode::IMP, cycles: 6 },
        0x41 => Opcode { instruction: Instruction::EOR, mode: AddrMode::INX, cycles: 6 },
        0x45 => Opcode { instruction: Instruction::EOR, mode: AddrMode::ZPG, cycles: 3 },
        0x46 => Opcode { instruction: Instruction::LSR, mode: AddrMode::ZPG, cycles: 5 },
        0x48 => Opcode { instruction: Instruction::PHA, mode: AddrMode::IMP, cycles: 3 },
        0x49 => Opcode { instruction: Instruction::EOR, mode: AddrMode::IMM, cycles: 2 },
        0x4A => Opcode { instruction: Instruction::LSR, mode: AddrMode::ACC, cycles: 2 },
        0x4C => Opcode { instruction: Instruction::JMP, mode: AddrMode::ABS, cycles: 3 },
        0x4D => Opcode { instruction: Instruction::EOR, mode: AddrMode::ABS, cycles: 4 },
        0x4E => Opcode { instruction: Instruction::LSR, mode: AddrMode::ABS, cycles: 6 },
        0x50 => Opcode { instruction: Instruction::BVC, mode: AddrMode::REL, cycles: 2 },
        0x51 => Opcode { instruction: Instruction::EOR, mode: AddrMode::INY, cycles: 5 },
        0x55 => Opcode { instruction: Instruction::EOR, mode: AddrMode::ZPX, cycles: 4 },
        0x56 => Opcode { instruction: Instruction::LSR, mode: AddrMode::ZPX, cycles: 6 },
        0x58 => Opcode { instruction: Instruction::CLI, mode: AddrMode::IMP, cycles: 2 },
        0x59 => Opcode { instruction: Instruction::EOR, mode: AddrMode::ABY, cycles: 4 },
        0x5D => Opcode { instruction: Instruction::EOR, mode: AddrMode::ABX, cycles: 4 },
        0x5E => Opcode { instruction: Instruction::LSR, mode: AddrMode::ABX, cycles: 7 },
        0x60 => Opcode { instruction: Instruction::RTS, mode: AddrMode::IMP, cycles: 6 },
        0x61 => Opcode { instruction: Instruction::ADC, mode: AddrMode::INX, cycles: 6 },
        0x65 => Opcode { instruction: Instruction::ADC, mode: AddrMode::ZPG, cycles: 3 },
        0x66 => Opcode { instruction: Instruction::ROR, mode: AddrMode::ZPG, cycles: 5 },
        0x68 => Opcode { instruction: Instruction::PLA, mode: AddrMode::IMP, cycles: 4 },
        0x69 => Opcode { instruction: Instruction::ADC, mode: AddrMode::IMM, cycles: 2 },
        0x6A => Opcode { instruction: Instruction::ROR, mode: AddrMode::ACC, cycles: 2 },
        0x6C => Opcode { instruction: Instruction::JMP, mode: AddrMode::IND, cycles: 5 },
        0x6D => Opcode { instruction: Instruction::ADC, mode: AddrMode::ABS, cycles: 4 },
        0x6E => Opcode { instruction: Instruction::ROR, mode: AddrMode::ABS, cycles: 6 },
        0x70 => Opcode { instruction: Instruction::BVS, mode: AddrMode::REL, cycles: 2 },
        0x71 => Opcode { instruction: Instruction::ADC, mode: AddrMode::INY, cycles: 5 },
        0x75 => Opcode { instruction: Instruction::ADC, mode: AddrMode::ZPX, cycles: 4 },
        0x76 => Opcode { instruction: Instruction::ROR, mode: AddrMode::ZPX, cycles: 6 },
        0x78 => Opcode { instruction: Instruction::SEI, mode: AddrMode::IMP, cycles: 2 },
        0x79 => Opcode { instruction: Instruction::ADC, mode: AddrMode::ABY, cycles: 4 },
        0x7D => Opcode { instruction: Instruction::ADC, mode: AddrMode::ABX, cycles: 4 },
        0x7E => Opcode { instruction: Instruction::ROR, mode: AddrMode::ABX, cycles: 7 },
        0x81 => Opcode { instruction: Instruction::STA, mode: AddrMode::INX, cycles: 6 },
        0x84 => Opcode { instruction: Instruction::STY, mode: AddrMode::ZPG, cycles: 3 },
        0x85 => Opcode { instruction: Instruction::STA, mode: AddrMode::ZPG, cycles: 3 },
        0x86 => Opcode { instruction: Instruction::STX, mode: AddrMode::ZPG, cycles: 3 },
        0x88 => Opcode { instruction: Instruction::DEY, mode: AddrMode::IMP, cycles: 2 },
        0x8A => Opcode { instruction: Instruction::TXA, mode: AddrMode::IMP, cycles: 2 },
        0x8C => Opcode { instruction: Instruction::STY, mode: AddrMode::ABS, cycles: 4 },
        0x8D => Opcode { instruction: Instruction::STA, mode: AddrMode::ABS, cycles: 4 },
        0x8E => Opcode { instruction: Instruction::STX, mode: AddrMode::ABS, cycles: 4 },
        0x90 => Opcode { instruction: Instruction::BCC, mode: AddrMode::REL, cycles: 2 },
        0x91 => Opcode { instruction: Instruction::STA, mode: AddrMode::INY, cycles: 6 },
        0x94 => Opcode { instruction: Instruction::STY, mode: AddrMode::ZPX, cycles: 4 },
        0x95 => Opcode { instruction: Instruction::STA, mode: AddrMode::ZPX, cycles: 4 },
        0x96 => Opcode { instruction: Instruction::STX, mode: AddrMode::ZPY, cycles: 4 },
        0x98 => Opcode { instruction: Instruction::TYA, mode: AddrMode::IMP, cycles: 2 },
        0x99 => Opcode { instruction: Instruction::STA, mode: AddrMode::ABY, cycles: 5 },
        0x9A => Opcode { instruction: Instruction::TXS, mode: AddrMode::IMP, cycles: 2 },
        0x9D => Opcode { instruction: Instruction::STA, mode: AddrMode::ABX, cycles: 5 },
        0xA0 => Opcode { instruction: Instruction::LDY, mode: AddrMode::IMM, cycles: 2 },
        0xA1 => Opcode { instruction: Instruction::LDA, mode: AddrMode::INX, cycles: 6 },
        0xA2 => Opcode { instruction: Instruction::LDX, mode: AddrMode::IMM, cycles: 2 },
        0xA4 => Opcode { instruction: Instruction::LDY, mode: AddrMode::ZPG, cycles: 3 },
        0xA5 => Opcode { instruction: Instruction::LDA, mode: AddrMode::ZPG, cycles: 3 },
        0xA6 => Opcode { instruction: Instruction::LDX, mode: AddrMode::ZPG, cycles: 3 },
        0xA8 => Opcode { instruction: Instruction::TAY, mode: AddrMode::IMP, cycles: 2 },
        0xA9 => Opcode { instruction: Instruction::LDA, mode: AddrMode::IMM, cycles: 2 },
        0xAA => Opcode { instruction: Instruction::TAX, mode: AddrMode::IMP, cycles: 2 },
        0xAC => Opcode { instruction: Instruction::LDY, mode: AddrMode::ABS, cycles: 4 },
        0xAD => Opcode { instruction: Instruction::LDA, mode: AddrMode::ABS, cycles: 4 },
        0xAE => Opcode { instruction: Instruction::LDX, mode: AddrMode::ABS, cycles: 4 },
        0xB0 => Opcode { instruction: Instruction::BCS, mode: AddrMode::REL, cycles: 2 },
        0xB1 => Opcode { instruction: Instruction::LDA, mode: AddrMode::INY, cycles: 5 },
        0xB4 => Opcode { instruction: Instruction::LDY, mode: AddrMode::ZPX, cycles: 4 },
        0xB5 => Opcode { instruction: Instruction::LDA, mode: AddrMode::ZPX, cycles: 4 },
        0xB6 => Opcode { instruction: Instruction::LDX, mode: AddrMode::ZPY, cycles: 4 },
        0xB8 => Opcode { instruction: Instruction::CLV, mode: AddrMode::IMP, cycles: 2 },
        0xB9 => Opcode { instruction: Instruction::LDA, mode: AddrMode::ABY, cycles: 4 },
        0xBA => Opcode { instruction: Instruction::TSX, mode: AddrMode::IMP, cycles: 2 },
        0xBC => Opcode { instruction: Instruction::LDY, mode: AddrMode::ABX, cycles: 4 },
        0xBD => Opcode { instruction: Instruction::LDA, mode: AddrMode::ABX, cycles: 4 },
        0xBE => Opcode { instruction: Instruction::LDX, mode: AddrMode::ABY, cycles: 4 },
        0xC0 => Opcode { instruction: Instruction::CPY, mode: AddrMode::IMM, cycles: 2 },
        0xC1 => Opcode { instruction: Instruction::CMP, mode: AddrMode::INX, cycles: 6 },
        0xC4 => Opcode { instruction: Instruction::CPY, mode: AddrMode::ZPG, cycles: 3 },
        0xC5 => Opcode { instruction: Instruction::CMP, mode: AddrMode::ZPG, cycles: 3 },
        0xC6 => Opcode { instruction: Instruction::DEC, mode: AddrMode::ZPG, cycles: 5 },
        0xC8 => Opcode { instruction: Instruction::INY, mode: AddrMode::IMP, cycles: 2 },
        0xC9 => Opcode { instruction: Instruction::CMP, mode: AddrMode::IMM, cycles: 2 },
        0xCA => Opcode { instruction: Instruction::DEX, mode: AddrMode::IMP, cycles: 2 },
        0xCC => Opcode { instruction: Instruction::CPY, mode: AddrMode::ABS, cycles: 4 },
        0xCD => Opcode { instruction: Instruction::CMP, mode: AddrMode::ABS, cycles: 4 },
        0xCE => Opcode { instruction: Instruction::DEC, mode: AddrMode::ABS, cycles: 6 },
        0xD0 => Opcode { instruction: Instruction::BNE, mode: AddrMode::REL, cycles: 2 },
        0xD1 => Opcode { instruction: Instruction::CMP, mode: AddrMode::INY, cycles: 5 },
        0xD5 => Opcode { instruction: Instruction::CMP, mode: AddrMode::ZPX, cycles: 4 },
        0xD6 => Opcode { instruction: Instruction::DEC, mode: AddrMode::ZPX, cycles: 6 },
        0xD8 => Opcode { instruction: Instruction::CLD, mode: AddrMode::IMP, cycles: 2 },
        0xD9 => Opcode { instruction: Instruction::CMP, mode: AddrMode::ABY, cycles: 4 },
        0xDD => Opcode { instruction: Instruction::CMP, mode: AddrMode::ABX, cycles: 4 },
        0xDE => Opcode { instruction: Instruction::DEC, mode: AddrMode::ABX, cycles: 7 },
        0xE0 => Opcode { instruction: Instruction::CPX, mode: AddrMode::IMM, cycles: 2 },
        0xE1 => Opcode { instruction: Instruction::SBC, mode: AddrMode::INX, cycles: 6 },
        0xE4 => Opcode { instruction: Instruction::CPX, mode: AddrMode::ZPG, cycles: 3 },
        0xE5 => Opcode { instruction: Instruction::SBC, mode: AddrMode::ZPG, cycles: 3 },
        0xE6 => Opcode { instruction: Instruction::INC, mode: AddrMode::ZPG, cycles: 5 },
        0xE8 => Opcode { instruction: Instruction::INX, mode: AddrMode::IMP, cycles: 2 },
        0xE9 => Opcode { instruction: Instruction::SBC, mode: AddrMode::IMM, cycles: 2 },
        0xEA => Opcode { instruction: Instruction::NOP, mode: AddrMode::IMP, cycles: 2 },
        0xEC => Opcode { instruction: Instruction::CPX, mode: AddrMode::ABS, cycles: 4 },
        0xED => Opcode { instruction: Instruction::SBC, mode: AddrMode::ABS, cycles: 4 },
        0xEE => Opcode { instruction: Instruction::INC, mode: AddrMode::ABS, cycles: 6 },
        0xF0 => Opcode { instruction: Instruction::BEQ, mode: AddrMode::REL, cycles: 2 },
        0xF1 => Opcode { instruction: Instruction::SBC, mode: AddrMode::INY, cycles: 5 },
        0xF5 => Opcode { instruction: Instruction::SBC, mode: AddrMode::ZPX, cycles: 4 },
        0xF6 => Opcode { instruction: Instruction::INC, mode: AddrMode::ZPX, cycles: 6 },
        0xF8 => Opcode { instruction: Instruction::SED, mode: AddrMode::IMP, cycles: 2 },
        0xF9 => Opcode { instruction: Instruction::SBC, mode: AddrMode::ABY, cycles: 4 },
        0xFD => Opcode { instruction: Instruction::SBC, mode: AddrMode::ABX, cycles: 4 },
        0xFE => Opcode { instruction: Instruction::INC, mode: AddrMode::ABX, cycles: 7 },
        _ => Opcode { instruction: Instruction::Illegal, mode: AddrMode::IMP, cycles: 0 },
    }
}

/// The shape of the table. A documented entry costs between two and seven
/// cycles. Relative addressing belongs to the branches and to them alone;
/// Indirect to `JMP`; Accumulator to the shifts and rotates. An instruction
/// that only reads its operand always has one in memory.
pub proof fn lemma_table_shape(opcode: u8)
    ensures
        ({
            let e = opcode_entry(opcode);
            &&& e.instruction != Instruction::Illegal ==> 2 <= e.cycles <= 7
            &&& e.mode == AddrMode::REL <==> e.instruction.branches()
            &&& e.mode == AddrMode::IND ==> e.instruction == Instruction::JMP
            &&& e.mode == AddrMode::ACC ==> e.instruction == Instruction::ASL || e.instruction
                == Instruction::LSR || e.instruction == Instruction::ROL || e.instruction
                == Instruction::ROR
            &&& e.instruction.reads() ==> e.mode != AddrMode::IMP && e.mode != AddrMode::ACC
                && e.mode != AddrMode::REL && e.mode != AddrMode::IND
        }),
{
    reveal(opcode_entry);
}

} // verus!
