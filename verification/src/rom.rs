//! A program image: the bytes that the bus maps into the cartridge window.

use vstd::prelude::*;

verus! {

pub struct Rom {
    pub buffer: Vec<u8>,
}

impl Rom {
    /// An image without bytes.
    pub fn new() -> (r: Self)
        ensures
            r.buffer@ == Seq::<u8>::empty(),
    {
        Self { buffer: Vec::new() }
    }
}

} // verus!
