//! The addressing-mode resolver: from the program counter, the registers and
//! the bytes behind the opcode to the effective address of the operand.
//!
//! Each mode consumes a fixed number of instruction bytes, whatever they
//! hold, and reports whether the effective address lies in another page than
//! the base address it was computed from.

use vstd::prelude::*;
use crate::alu::signed;
use crate::bus::{high_byte, Bus, BusView};
use crate::cpu::{Cpu, offset};
use crate::error::AddressError;
use crate::mode::AddrMode;

verus! {

/// What resolving an operand yields: its effective address, where the
/// program counter stands afterwards, and whether a page was crossed.
pub struct Resolved {
    pub addr: u16,
    pub pc: u16,
    pub crossed: bool,
}

/// A zero-page address plus an index, wrapping within page zero.
#[verifier::opaque]
pub open spec fn zero_page(base: u8, index: u8) -> u16 {
    ((base as int + index as int) % 256) as u16
}

/// Zero page: the operand byte, zero-extended, is the address.
pub open spec fn resolve_zero_page(cpu: Cpu, bus: BusView) -> Result<Resolved, AddressError> {
    match bus.load(cpu.pc) {
        Err(e) => Err(e),
        Ok(base) => Ok(Resolved { addr: base as u16, pc: offset(cpu.pc, 1), crossed: false }),
    }
}

/// Zero page indexed: the operand byte plus the index, within page zero.
pub open spec fn resolve_zero_page_indexed(cpu: Cpu, bus: BusView, index: u8) -> Result<
    Resolved,
    AddressError,
> {
    match bus.load(cpu.pc) {
        Err(e) => Err(e),
        Ok(base) => Ok(
            Resolved { addr: zero_page(base, index), pc: offset(cpu.pc, 1), crossed: false },
        ),
    }
}

/// Absolute: the two operand bytes are the address, low byte first.
pub open spec fn resolve_absolute(cpu: Cpu, bus: BusView) -> Result<Resolved, AddressError> {
    match bus.load_word(cpu.pc) {
        Err(e) => Err(e),
        Ok(addr) => Ok(Resolved { addr, pc: offset(cpu.pc, 2), crossed: false }),
    }
}

/// Absolute indexed: the two operand bytes are a base address, to which the
/// index is added with 16-bit wraparound.
pub open spec fn resolve_absolute_indexed(cpu: Cpu, bus: BusView, index: u8) -> Result<
    Resolved,
    AddressError,
> {
    match bus.load_word(cpu.pc) {
        Err(e) => Err(e),
        Ok(base) => Ok(
            Resolved {
                addr: offset(base, index as int),
                pc: offset(cpu.pc, 2),
                crossed: high_byte(offset(base, index as int)) != high_byte(base),
            },
        ),
    }
}

/// Indexed indirect: the operand byte plus X points into page zero, where
/// the effective address stands.
pub open spec fn resolve_indexed_indirect(cpu: Cpu, bus: BusView) -> Result<
    Resolved,
    AddressError,
> {
    match bus.load(cpu.pc) {
        Err(e) => Err(e),
        Ok(base) => match bus.load_word_in_page(zero_page(base, cpu.x)) {
            Err(e) => Err(e),
            Ok(addr) => Ok(Resolved { addr, pc: offset(cpu.pc, 1), crossed: false }),
        },
    }
}

/// Indirect indexed: the operand byte points into page zero, where a base
/// address stands; the effective address is that base plus Y.
pub open spec fn resolve_indirect_indexed(cpu: Cpu, bus: BusView) -> Result<
    Resolved,
    AddressError,
> {
    match bus.load(cpu.pc) {
        Err(e) => Err(e),
        Ok(pointer) => match bus.load_word_in_page(pointer as u16) {
            Err(e) => Err(e),
            Ok(base) => Ok(
                Resolved {
                    addr: offset(base, cpu.y as int),
                    pc: offset(cpu.pc, 1),
                    crossed: high_byte(offset(base, cpu.y as int)) != high_byte(base),
                },
            ),
        },
    }
}

/// Indirect: the two operand bytes are a pointer to the effective address.
/// The pointer is followed without leaving its page.
pub open spec fn resolve_indirect(cpu: Cpu, bus: BusView) -> Result<Resolved, AddressError> {
    match bus.load_word(cpu.pc) {
        Err(e) => Err(e),
        Ok(pointer) => match bus.load_word_in_page(pointer) {
            Err(e) => Err(e),
            Ok(addr) => Ok(Resolved { addr, pc: offset(cpu.pc, 2), crossed: false }),
        },
    }
}

/// Relative: the operand byte is a signed displacement from the address of
/// the byte after it.
pub open spec fn resolve_relative(cpu: Cpu, bus: BusView) -> Result<Resolved, AddressError> {
    match bus.load(cpu.pc) {
        Err(e) => Err(e),
        Ok(d) => {
            let next = offset(cpu.pc, 1);
            let target = offset(next, signed(d));
            Ok(Resolved { addr: target, pc: next, crossed: high_byte(target) != high_byte(next) })
        },
    }
}

/// The operand of an instruction whose opcode has been consumed, for each of
/// the thirteen modes. Implicit and Accumulator have no operand in memory:
/// they consume nothing and report the program counter itself.
pub open spec fn resolve(cpu: Cpu, bus: BusView, mode: AddrMode) -> Result<Resolved, AddressError> {
    match mode {
        AddrMode::IMP | AddrMode::ACC => Ok(
            Resolved { addr: cpu.pc, pc: cpu.pc, crossed: false },
        ),
        AddrMode::IMM => Ok(Resolved { addr: cpu.pc, pc: offset(cpu.pc, 1), crossed: false }),
        AddrMode::ZPG => resolve_zero_page(cpu, bus),
        AddrMode::ZPX => resolve_zero_page_indexed(cpu, bus, cpu.x),
        AddrMode::ZPY => resolve_zero_page_indexed(cpu, bus, cpu.y),
        AddrMode::ABS => resolve_absolute(cpu, bus),
        AddrMode::ABX => resolve_absolute_indexed(cpu, bus, cpu.x),
        AddrMode::ABY => resolve_absolute_indexed(cpu, bus, cpu.y),
        AddrMode::INX => resolve_indexed_indirect(cpu, bus),
        AddrMode::INY => resolve_indirect_indexed(cpu, bus),
        AddrMode::IND => resolve_indirect(cpu, bus),
        AddrMode::REL => resolve_relative(cpu, bus),
    }
}

impl Cpu {
    /// The processor after an operand has been resolved.
    pub open spec fn resolved(self, r: Resolved) -> Cpu {
        Cpu { pc: r.pc, page_crossed: r.crossed, ..self }
    }
}

/// What every resolver function promises. Where the operand can be
/// resolved, the function returns its effective address, has moved the
/// program counter past the operand bytes and has recorded the page
/// crossing. Where a byte it needs has no owner, it returns that error and
/// has changed nothing.
pub open spec fn fetched(
    before: Cpu,
    bus: BusView,
    mode: AddrMode,
    result: Result<u16, AddressError>,
    after: Cpu,
) -> bool {
    match resolve(before, bus, mode) {
        Ok(r) => result == Ok::<u16, AddressError>(r.addr) && after == before.resolved(r),
        Err(e) => result == Err::<u16, AddressError>(e) && after == before,
    }
}

proof fn lemma_page_mask(addr: u16)
    by (bit_vector)
    ensures
        addr & 0xFF00 == addr / 256 * 256,
{
}

/// Whether two addresses lie in different pages: whether their high bytes
/// differ.
pub fn pages_differ(a: u16, b: u16) -> (r: bool)
    ensures
        r == (high_byte(a) != high_byte(b)),
{
    proof {
        reveal(high_byte);
        lemma_page_mask(a);
        lemma_page_mask(b);
    }
    (a & 0xFF00) != (b & 0xFF00)
}

/// A zero-page address plus an index register, wrapping within page zero.
pub fn add_zero_page(base: u8, index: u8) -> (r: u16)
    ensures
        r == zero_page(base, index),
{
    reveal(zero_page);
    base.wrapping_add(index) as u16
}

/// A base address plus an index register, wrapping at 16 bits.
pub fn add_index(base: u16, index: u8) -> (r: u16)
    ensures
        r == offset(base, index as int),
{
    reveal(offset);
    base.wrapping_add(index as u16)
}

/// An address plus a displacement byte read as a signed number, wrapping at
/// 16 bits.
pub fn add_displacement(base: u16, d: u8) -> (r: u16)
    ensures
        r == offset(base, signed(d)),
{
    reveal(offset);
    reveal(signed);
    if d < 0x80 {
        base.wrapping_add(d as u16)
    } else {
        base.wrapping_sub(0x100 - d as u16)
    }
}

impl Cpu {
    /// Resolves the operand for `addr`, dispatching on the mode.
    pub fn fetch_addr(&mut self, addr: AddrMode, bus: &Bus) -> (r: Result<u16, AddressError>)
        ensures
            fetched(*old(self), bus@, addr, r, *final(self)),
    {
        match addr {
            AddrMode::IMP => self.addr_imp(),
            AddrMode::ACC => self.addr_acc(),
            AddrMode::IMM => self.addr_imm(),
            AddrMode::ZPG => self.addr_zpg(bus),
            AddrMode::ZPX => self.addr_zpx(bus),
            AddrMode::ZPY => self.addr_zpy(bus),
            AddrMode::REL => self.addr_rel(bus),
            AddrMode::ABS => self.addr_abs(bus),
            AddrMode::ABX => self.addr_abx(bus),
            AddrMode::ABY => self.addr_aby(bus),
            AddrMode::IND => self.addr_ind(bus),
            AddrMode::INX => self.addr_inx(bus),
            AddrMode::INY => self.addr_iny(bus),
        }
    }

    /// Implicit: there is no operand; nothing is consumed.
    pub fn addr_imp(&mut self) -> (r: Result<u16, AddressError>)
        ensures
            r == Ok::<u16, AddressError>(old(self).pc),
            *final(self) == (Cpu { page_crossed: false, ..*old(self) }),
    {
        self.page_crossed = false;
        Ok(self.pc)
    }

    /// Accumulator: the operand is a register; nothing is consumed.
    pub fn addr_acc(&mut self) -> (r: Result<u16, AddressError>)
        ensures
            r == Ok::<u16, AddressError>(old(self).pc),
            *final(self) == (Cpu { page_crossed: false, ..*old(self) }),
    {
        self.page_crossed = false;
        Ok(self.pc)
    }

    /// Immediate: the operand is the byte at the program counter.
    pub fn addr_imm(&mut self) -> (r: Result<u16, AddressError>)
        ensures
            r == Ok::<u16, AddressError>(old(self).pc),
            *final(self) == (Cpu {
                pc: offset(old(self).pc, 1),
                page_crossed: false,
                ..*old(self)
            }),
    {
        let addr = self.pc;
        self.advance(1);
        self.page_crossed = false;
        Ok(addr)
    }

    /// Zero page: the high byte is zero, the low byte is the operand byte.
    pub fn addr_zpg(&mut self, bus: &Bus) -> (r: Result<u16, AddressError>)
        ensures
            fetched(*old(self), bus@, AddrMode::ZPG, r, *final(self)),
    {
        let addr_lo = bus.read(self.pc)?;
        self.advance(1);
        self.page_crossed = false;
        Ok(addr_lo as u16)
    }

    /// Zero page indexed by X: the sum wraps within page zero.
    pub fn addr_zpx(&mut self, bus: &Bus) -> (r: Result<u16, AddressError>)
        ensures
            fetched(*old(self), bus@, AddrMode::ZPX, r, *final(self)),
    {
        let addr = add_zero_page(bus.read(self.pc)?, self.x);
        self.advance(1);
        self.page_crossed = false;
        Ok(addr)
    }

    /// Zero page indexed by Y: the sum wraps within page zero.
    pub fn addr_zpy(&mut self, bus: &Bus) -> (r: Result<u16, AddressError>)
        ensures
            fetched(*old(self), bus@, AddrMode::ZPY, r, *final(self)),
    {
        let addr = add_zero_page(bus.read(self.pc)?, self.y);
        self.advance(1);
        self.page_crossed = false;
        Ok(addr)
    }

    /// Absolute: the two operand bytes are the address, low byte first.
    pub fn addr_abs(&mut self, bus: &Bus) -> (r: Result<u16, AddressError>)
        ensures
            fetched(*old(self), bus@, AddrMode::ABS, r, *final(self)),
    {
        let addr = bus.read_u16(self.pc)?;
        self.advance(2);
        self.page_crossed = false;
        Ok(addr)
    }

    /// Absolute indexed by X: the sum wraps at 16 bits.
    pub fn addr_abx(&mut self, bus: &Bus) -> (r: Result<u16, AddressError>)
        ensures
            fetched(*old(self), bus@, AddrMode::ABX, r, *final(self)),
    {
        let base_addr = bus.read_u16(self.pc)?;
        let addr = add_index(base_addr, self.x);
        self.advance(2);
        self.page_crossed = pages_differ(addr, base_addr);
        Ok(addr)
    }

    /// Absolute indexed by Y: the sum wraps at 16 bits.
    pub fn addr_aby(&mut self, bus: &Bus) -> (r: Result<u16, AddressError>)
        ensures
            fetched(*old(self), bus@, AddrMode::ABY, r, *final(self)),
    {
        let base_addr = bus.read_u16(self.pc)?;
        let addr = add_index(base_addr, self.y);
        self.advance(2);
        self.page_crossed = pages_differ(addr, base_addr);
        Ok(addr)
    }

    /// Indexed indirect: the address stands in page zero at the operand
    /// byte plus X.
    pub fn addr_inx(&mut self, bus: &Bus) -> (r: Result<u16, AddressError>)
        ensures
            fetched(*old(self), bus@, AddrMode::INX, r, *final(self)),
    {
        let pointer = add_zero_page(bus.read(self.pc)?, self.x);
        let addr = bus.read_u16_in_page(pointer)?;
        self.advance(1);
        self.page_crossed = false;
        Ok(addr)
    }

    /// Indirect indexed: Y is added to the address that stands in page zero
    /// at the operand byte.
    pub fn addr_iny(&mut self, bus: &Bus) -> (r: Result<u16, AddressError>)
        ensures
            fetched(*old(self), bus@, AddrMode::INY, r, *final(self)),
    {
        let addr_lo = bus.read(self.pc)?;
        let base_addr = bus.read_u16_in_page(addr_lo as u16)?;
        let addr = add_index(base_addr, self.y);
        self.advance(1);
        self.page_crossed = pages_differ(addr, base_addr);
        Ok(addr)
    }

    /// Indirect: the operand bytes point at the address. Behind a pointer
    /// whose low byte is `0xFF` the high byte of the address is fetched from
    /// the start of the pointer's page.
    pub fn addr_ind(&mut self, bus: &Bus) -> (r: Result<u16, AddressError>)
        ensures
            fetched(*old(self), bus@, AddrMode::IND, r, *final(self)),
    {
        let pointer = bus.read_u16(self.pc)?;
        let addr = bus.read_u16_in_page(pointer)?;
        self.advance(2);
        self.page_crossed = false;
        Ok(addr)
    }

    /// Relative: the operand byte, read as a signed number, is added to the
    /// address of the next instruction.
    pub fn addr_rel(&mut self, bus: &Bus) -> (r: Result<u16, AddressError>)
        ensures
            fetched(*old(self), bus@, AddrMode::REL, r, *final(self)),
    {
        let d = bus.read(self.pc)?;
        self.advance(1);
        let addr = add_displacement(self.pc, d);
        self.page_crossed = pages_differ(addr, self.pc);
        Ok(addr)
    }
}

} // verus!
