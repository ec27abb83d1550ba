//! The memory bus. It owns the address space and is the one place where a
//! processor address is decoded: into the mirrored internal RAM, or into one
//! of the three windows that belong to collaborators.
//!
//! | addresses         | window      | cell that answers                  |
//! |-------------------|-------------|------------------------------------|
//! | `0x0000..=0x1FFF` | RAM         | `addr % 0x0800` (four mirrors)     |
//! | `0x2000..=0x3FFF` | peripherals | `0x2000 + addr % 8` (eight bytes)  |
//! | `0x4000..=0x401F` | I/O         | `addr`                             |
//! | `0x4020..=0xFFFF` | cartridge   | `addr`                             |
//!
//! The RAM window always has an owner. A collaborator window has one once it
//! has been registered; until then every access to it is an `AddressError`.
//! A registered collaborator owns the cells of its window: a byte that the
//! processor writes is in the collaborator's cell when the write returns,
//! and a read hands out what the cell holds. Nothing is buffered and
//! nothing is dropped.

use vstd::prelude::*;
use crate::error::{AccessKind, AddressError, ImageError};
use crate::ram::{Ram, RAM_SIZE};
use crate::rom::Rom;
use vstd::pervasive::unreached;

verus! {

/// First address of the peripheral-register window.
pub const PERIPHERAL_BASE: u16 = 0x2000;

/// First address of the I/O window.
pub const IO_BASE: u16 = 0x4000;

/// First address of the cartridge window.
pub const CARTRIDGE_BASE: u16 = 0x4020;

/// Address of the low byte of the reset vector.
pub const RESET_VECTOR: u16 = 0xFFFC;

/// Address of the low byte of the interrupt vector.
pub const IRQ_VECTOR: u16 = 0xFFFE;

/// The least image the bus maps: the three vectors at the top of memory.
pub const IMAGE_MIN_SIZE: usize = 6;

/// The largest image the bus maps: the whole cartridge window.
pub const IMAGE_MAX_SIZE: usize = 0xBFE0;

/// The four partitions of the address space, each with one owner.
#[derive(Clone, Copy, Debug, PartialEq, Eq, Structural)]
pub enum Window {
    Ram,
    Peripherals,
    Io,
    Cartridge,
}

/// The window an address falls into.
pub open spec fn window_of(addr: u16) -> Window {
    if addr < PERIPHERAL_BASE {
        Window::Ram
    } else if addr < IO_BASE {
        Window::Peripherals
    } else if addr < CARTRIDGE_BASE {
        Window::Io
    } else {
        Window::Cartridge
    }
}

/// The cell of the address space that answers for an address.
#[verifier::opaque]
pub open spec fn cell_of(addr: u16) -> int {
    match window_of(addr) {
        Window::Ram => addr as int % 0x0800,
        Window::Peripherals => PERIPHERAL_BASE as int + addr as int % 8,
        Window::Io => addr as int,
        Window::Cartridge => addr as int,
    }
}

/// The little-endian word made of two bytes.
#[verifier::opaque]
pub open spec fn word(lo: u8, hi: u8) -> u16 {
    (lo as int + 256 * hi as int) as u16
}

/// The low byte of a word.
#[verifier::opaque]
pub open spec fn low_byte(addr: u16) -> u8 {
    (addr as int % 256) as u8
}

/// The high byte of a word.
#[verifier::opaque]
pub open spec fn high_byte(addr: u16) -> u8 {
    (addr as int / 256) as u8
}

/// The address after `addr` within the page of `addr`: the low byte wraps
/// from `0xFF` to `0x00` and the high byte stays.
#[verifier::opaque]
pub open spec fn next_in_page(addr: u16) -> u16 {
    (addr as int / 256 * 256 + (addr as int + 1) % 256) as u16
}

/// `cells` with the first `n` bytes of `image` laid over it from `base` on.
pub open spec fn overlay(cells: Seq<u8>, base: int, image: Seq<u8>, n: int) -> Seq<u8> {
    Seq::new(
        cells.len(),
        |k: int|
            if base <= k < base + n {
                image[k - base]
            } else {
                cells[k]
            },
    )
}

/// What the bus is, as far as any access can tell: the cells of the address
/// space and which collaborator windows have an owner.
pub struct BusView {
    pub cells: Seq<u8>,
    pub peripherals: bool,
    pub io: bool,
    pub cartridge: bool,
}

impl BusView {
    pub open spec fn wf(self) -> bool {
        self.cells.len() == RAM_SIZE
    }

    /// Whether an owner answers at `addr`.
    pub open spec fn owned(self, addr: u16) -> bool {
        match window_of(addr) {
            Window::Ram => true,
            Window::Peripherals => self.peripherals,
            Window::Io => self.io,
            Window::Cartridge => self.cartridge,
        }
    }

    /// The byte that answers at `addr`.
    pub open spec fn get(self, addr: u16) -> u8 {
        self.cells[cell_of(addr)]
    }

    /// The bus after `value` has been stored at `addr`.
    pub open spec fn put(self, addr: u16, value: u8) -> BusView {
        BusView { cells: self.cells.update(cell_of(addr), value), ..self }
    }

    /// The outcome of a read.
    pub open spec fn load(self, addr: u16) -> Result<u8, AddressError> {
        if self.owned(addr) {
            Ok(self.get(addr))
        } else {
            Err(AddressError { addr: addr as usize, kind: AccessKind::Read })
        }
    }

    /// The outcome of a write.
    pub open spec fn store(self, addr: u16, value: u8) -> Result<BusView, AddressError> {
        if self.owned(addr) {
            Ok(self.put(addr, value))
        } else {
            Err(AddressError { addr: addr as usize, kind: AccessKind::Write })
        }
    }

    /// The outcome of reading the little-endian word at `addr` and the
    /// address after it; the low byte is read first.
    pub open spec fn load_word(self, addr: u16) -> Result<u16, AddressError> {
        let next = ((addr + 1) % 0x10000) as u16;
        match self.load(addr) {
            Err(e) => Err(e),
            Ok(lo) => match self.load(next) {
                Err(e) => Err(e),
                Ok(hi) => Ok(word(lo, hi)),
            },
        }
    }

    /// The outcome of reading a little-endian word whose second byte is
    /// fetched without leaving the page of the first: behind `0x12FF` it is
    /// read at `0x1200`, not at `0x1300`.
    pub open spec fn load_word_in_page(self, addr: u16) -> Result<u16, AddressError> {
        match self.load(addr) {
            Err(e) => Err(e),
            Ok(lo) => match self.load(next_in_page(addr)) {
                Err(e) => Err(e),
                Ok(hi) => Ok(word(lo, hi)),
            },
        }
    }

    /// The bus with a collaborator registered for `window`.
    pub open spec fn with_owner(self, window: Window) -> BusView {
        match window {
            Window::Ram => self,
            Window::Peripherals => BusView { peripherals: true, ..self },
            Window::Io => BusView { io: true, ..self },
            Window::Cartridge => BusView { cartridge: true, ..self },
        }
    }

    /// The outcome of mapping `image` so that it ends at the top of memory.
    pub open spec fn mapped(self, image: Seq<u8>) -> Result<BusView, ImageError> {
        let n = image.len() as int;
        if n < IMAGE_MIN_SIZE {
            Err(ImageError::TooSmall)
        } else if n > IMAGE_MAX_SIZE {
            Err(ImageError::TooLarge)
        } else if !self.with_owner(Window::Cartridge).owned(word(image[n - 4], image[n - 3])) {
            Err(ImageError::BadResetVector)
        } else {
            Ok(
                BusView {
                    cells: overlay(self.cells, RAM_SIZE - n, image, n),
                    cartridge: true,
                    ..self
                },
            )
        }
    }
}

pub struct Bus {
    ram: Ram,
    peripherals: bool,
    io: bool,
    cartridge: bool,
}

impl View for Bus {
    type V = BusView;

    closed spec fn view(&self) -> BusView {
        BusView {
            cells: self.ram@,
            peripherals: self.peripherals,
            io: self.io,
            cartridge: self.cartridge,
        }
    }
}

proof fn lemma_page_join(addr: u16, low: u8)
    by (bit_vector)
    ensures
        addr & 0x00FF == addr % 256,
        (addr & 0xFF00) | (low as u16) == addr / 256 * 256 + low,
{
}

proof fn lemma_masks(addr: u16)
    by (bit_vector)
    ensures
        addr & 0x07FF == addr % 0x0800,
        addr & 0x0007 == addr % 8,
{
}

impl Bus {
    /// A bus over a zeroed address space, with no collaborator registered.
    pub fn new() -> (r: Self)
        ensures
            r@ == (BusView {
                cells: Seq::new(RAM_SIZE as nat, |i: int| 0u8),
                peripherals: false,
                io: false,
                cartridge: false,
            }),
    {
        Self { ram: Ram::new(), peripherals: false, io: false, cartridge: false }
    }

    /// Decodes an address into its window and the cell that answers for it.
    pub fn decode(addr: u16) -> (r: (Window, usize))
        ensures
            r.0 == window_of(addr),
            r.1 == cell_of(addr),
            r.1 < RAM_SIZE,
    {
        proof {
            reveal(cell_of);
            lemma_masks(addr);
        }
        if addr < PERIPHERAL_BASE {
            (Window::Ram, (addr & 0x07FF) as usize)
        } else if addr < IO_BASE {
            (Window::Peripherals, (PERIPHERAL_BASE + (addr & 0x0007)) as usize)
        } else if addr < CARTRIDGE_BASE {
            (Window::Io, addr as usize)
        } else {
            (Window::Cartridge, addr as usize)
        }
    }

    /// Registers a collaborator as the owner of `window`. The RAM window is
    /// owned from the start.
    pub fn register(&mut self, window: Window)
        ensures
            final(self)@ == old(self)@.with_owner(window),
    {
        match window {
            Window::Ram => {},
            Window::Peripherals => {
                self.peripherals = true;
            },
            Window::Io => {
                self.io = true;
            },
            Window::Cartridge => {
                self.cartridge = true;
            },
        }
    }

    /// Whether the window has an owner.
    pub fn has_owner(&self, window: Window) -> (r: bool)
        ensures
            r == match window {
                Window::Ram => true,
                Window::Peripherals => self@.peripherals,
                Window::Io => self@.io,
                Window::Cartridge => self@.cartridge,
            },
    {
        match window {
            Window::Ram => true,
            Window::Peripherals => self.peripherals,
            Window::Io => self.io,
            Window::Cartridge => self.cartridge,
        }
    }

    /// The byte that answers at `addr`, or an error when nothing owns it.
    pub fn read(&self, addr: u16) -> (r: Result<u8, AddressError>)
        ensures
            self@.wf(),
            r == self@.load(addr),
    {
        proof {
            use_type_invariant(&self.ram);
        }
        let (window, cell) = Self::decode(addr);
        if self.has_owner(window) {
            match self.ram.read(cell) {
                Ok(value) => Ok(value),
                Err(_) => unreached(),
            }
        } else {
            Err(AddressError { addr: addr as usize, kind: AccessKind::Read })
        }
    }

    /// Stores `data` at `addr`. An address that nothing owns is reported and
    /// the bus stays as it was: a write is never dropped in silence.
    pub fn write(&mut self, addr: u16, data: u8) -> (r: Result<(), AddressError>)
        ensures
            old(self)@.wf(),
            final(self)@.wf(),
            match old(self)@.store(addr, data) {
                Ok(after) => r == Ok::<(), AddressError>(()) && final(self)@ == after,
                Err(e) => r == Err::<(), AddressError>(e) && final(self)@ == old(self)@,
            },
    {
        proof {
            use_type_invariant(&self.ram);
        }
        let (window, cell) = Self::decode(addr);
        if self.has_owner(window) {
            match self.ram.write(cell, data) {
                Ok(()) => Ok(()),
                Err(_) => unreached(),
            }
        } else {
            Err(AddressError { addr: addr as usize, kind: AccessKind::Write })
        }
    }

    /// The little-endian word at `addr` and the address after it, which wraps
    /// from `0xFFFF` to `0x0000`.
    pub fn read_u16(&self, addr: u16) -> (r: Result<u16, AddressError>)
        ensures
            self@.wf(),
            r == self@.load_word(addr),
    {
        let lo = self.read(addr)?;
        let hi = self.read(addr.wrapping_add(1))?;
        Ok(make_word(lo, hi))
    }

    /// Maps a program image into the cartridge window, so that its last
    /// byte lies at `0xFFFF`, and registers the window. The image is checked
    /// before a byte is copied: it must hold the vector table, fit into the
    /// window, and its reset vector must point at an address that has an
    /// owner once the image is mapped. A refused image leaves the bus as it
    /// was.
    pub fn map_image(&mut self, rom: &Rom) -> (r: Result<(), ImageError>)
        ensures
            match old(self)@.mapped(rom.buffer@) {
                Ok(after) => r == Ok::<(), ImageError>(()) && final(self)@ == after,
                Err(e) => r == Err::<(), ImageError>(e) && final(self)@ == old(self)@,
            },
    {
        let n = rom.buffer.len();
        if n < IMAGE_MIN_SIZE {
            return Err(ImageError::TooSmall);
        }
        if n > IMAGE_MAX_SIZE {
            return Err(ImageError::TooLarge);
        }
        let vector = make_word(rom.buffer[n - 4], rom.buffer[n - 3]);
        let (window, _) = Self::decode(vector);
        if window != Window::Cartridge && !self.has_owner(window) {
            return Err(ImageError::BadResetVector);
        }
        proof {
            use_type_invariant(&self.ram);
        }
        let ghost cells = self.ram@;
        let base = RAM_SIZE - n;
        let mut i: usize = 0;
        while i < n
            invariant
                i <= n,
                n == rom.buffer@.len(),
                base + n == RAM_SIZE,
                cells.len() == RAM_SIZE,
                self.ram@ == overlay(cells, base as int, rom.buffer@, i as int),
                self.peripherals == old(self).peripherals,
                self.io == old(self).io,
                self.cartridge == old(self).cartridge,
            decreases n - i,
        {
            match self.ram.write(base + i, rom.buffer[i]) {
                Ok(()) => {},
                Err(_) => unreached(),
            }
            i += 1;
        }
        self.cartridge = true;
        Ok(())
    }

    /// The little-endian word whose low byte is at `addr` and whose high
    /// byte is at the next address of the same page. This is how the
    /// processor follows a pointer: it never carries into the pointer's
    /// high byte.
    pub fn read_u16_in_page(&self, addr: u16) -> (r: Result<u16, AddressError>)
        ensures
            self@.wf(),
            r == self@.load_word_in_page(addr),
    {
        let lo = self.read(addr)?;
        let low: u8 = (addr & 0x00FF) as u8;
        let next_low: u8 = low.wrapping_add(1);
        proof {
            reveal(next_in_page);
            lemma_page_join(addr, next_low);
        }
        let hi = self.read((addr & 0xFF00) | (next_low as u16))?;
        Ok(make_word(lo, hi))
    }
}

/// Every address has exactly one cell that answers for it, and the cell
/// lies in the window of the address: the 2 KiB of RAM, the eight
/// peripheral registers, or the address itself.
pub proof fn lemma_one_owner(addr: u16)
    ensures
        0 <= cell_of(addr) < RAM_SIZE,
        window_of(addr) == Window::Ram ==> cell_of(addr) < 0x0800,
        window_of(addr) == Window::Peripherals ==> PERIPHERAL_BASE <= cell_of(addr)
            < PERIPHERAL_BASE + 8,
        window_of(addr) == Window::Io || window_of(addr) == Window::Cartridge ==> cell_of(addr)
            == addr,
{
    reveal(cell_of);
}

/// Two addresses share a cell exactly when they are mirrors of each other:
/// both in the RAM window and equal modulo `0x0800`, both in the peripheral
/// window and equal modulo 8, or the same address.
pub proof fn lemma_mirrors(a: u16, b: u16)
    ensures
        cell_of(a) == cell_of(b) <==> {
            ||| a == b
            ||| window_of(a) == Window::Ram && window_of(b) == Window::Ram && a % 0x0800 == b
                % 0x0800
            ||| window_of(a) == Window::Peripherals && window_of(b) == Window::Peripherals && a
                % 8 == b % 8
        },
{
    reveal(cell_of);
}

/// A byte that has been stored is what every mirror of its address reads
/// afterwards; all other addresses read what they read before, and no
/// owner comes or goes.
pub proof fn lemma_store_load(bus: BusView, addr: u16, value: u8, other: u16)
    requires
        bus.wf(),
    ensures
        bus.put(addr, value).wf(),
        bus.put(addr, value).owned(other) == bus.owned(other),
        bus.put(addr, value).get(other) == if cell_of(other) == cell_of(addr) {
            value
        } else {
            bus.get(other)
        },
{
    lemma_one_owner(addr);
    lemma_one_owner(other);
}

/// A word is made of its two bytes, and the bytes of a word made of two
/// bytes are those two.
pub proof fn lemma_word_bytes(addr: u16, lo: u8, hi: u8)
    ensures
        word(low_byte(addr), high_byte(addr)) == addr,
        low_byte(word(lo, hi)) == lo,
        high_byte(word(lo, hi)) == hi,
{
    reveal(word);
    reveal(low_byte);
    reveal(high_byte);
}

proof fn lemma_split(addr: u16)
    by (bit_vector)
    ensures
        addr >> 8u16 == addr / 256u16,
        addr >> 8u16 < 256u16,
        addr & 0x00FFu16 == addr % 256u16,
{
}

/// The high byte of a word.
pub fn high(addr: u16) -> (r: u8)
    ensures
        r == high_byte(addr),
{
    proof {
        reveal(high_byte);
        lemma_split(addr);
    }
    (addr >> 8) as u8
}

/// The low byte of a word.
pub fn low(addr: u16) -> (r: u8)
    ensures
        r == low_byte(addr),
{
    proof {
        reveal(low_byte);
        lemma_split(addr);
    }
    (addr & 0x00FF) as u8
}

/// Joins two bytes into the word they spell in little-endian order.
pub fn make_word(lo: u8, hi: u8) -> (r: u16)
    ensures
        r == word(lo, hi),
{
    let r = (lo as u16) | ((hi as u16) << 8);
    reveal(word);
    assert(((lo as u16) | ((hi as u16) << 8)) == (lo as u16) + 256 * (hi as u16)) by (bit_vector);
    r
}

} // verus!
