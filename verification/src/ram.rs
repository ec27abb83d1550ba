//! The address space: a flat byte store of fixed size with bounds-checked
//! random access. It knows nothing of mirroring or windows; that is the
//! bus's business.

use vstd::prelude::*;
use crate::error::{AccessKind, AddressError};

verus! {

/// Number of cells in the address space: every 16-bit address has one.
pub const RAM_SIZE: usize = 0x10000;

pub struct Ram {
    ram: Vec<u8>,
}

impl View for Ram {
    type V = Seq<u8>;

    closed spec fn view(&self) -> Seq<u8> {
        self.ram@
    }
}

impl Ram {
    /// Every value of this type has exactly `RAM_SIZE` cells.
    #[verifier::type_invariant]
    pub open spec fn inv(&self) -> bool {
        self@.len() == RAM_SIZE
    }

    /// A store of `RAM_SIZE` cells, all zero.
    pub fn new() -> (r: Self)
        ensures
            r@ == Seq::new(RAM_SIZE as nat, |i: int| 0u8),
    {
        let r = Ram { ram: vec![0u8; RAM_SIZE] };
        assert(r.ram@ =~= Seq::new(RAM_SIZE as nat, |i: int| 0u8));
        r
    }

    /// The byte in cell `addr`, or an error when there is no such cell.
    pub fn read(&self, addr: usize) -> (r: Result<u8, AddressError>)
        ensures
            r == if addr < RAM_SIZE {
                Ok::<u8, AddressError>(self@[addr as int])
            } else {
                Err(AddressError { addr, kind: AccessKind::Read })
            },
    {
        proof {
            use_type_invariant(self);
        }
        if addr < RAM_SIZE {
            Ok(self.ram[addr])
        } else {
            Err(AddressError { addr, kind: AccessKind::Read })
        }
    }

    /// Stores `data` in cell `addr` and leaves every other cell alone; an
    /// address without a cell is reported and nothing is stored.
    pub fn write(&mut self, addr: usize, data: u8) -> (r: Result<(), AddressError>)
        ensures
            addr < RAM_SIZE ==> r == Ok::<(), AddressError>(()) && final(self)@ == old(
                self,
            )@.update(addr as int, data),
            addr >= RAM_SIZE ==> r == Err::<(), AddressError>(
                AddressError { addr, kind: AccessKind::Write },
            ) && final(self)@ == old(self)@,
    {
        proof {
            use_type_invariant(&*self);
        }
        if addr < RAM_SIZE {
            self.ram[addr] = data;
            Ok(())
        } else {
            Err(AddressError { addr, kind: AccessKind::Write })
        }
    }
}

} // verus!
